//! The build configuration and its default values.

use vstd::prelude::*;

verus! {

/// Mathematical model of a [`Config`]: every string is a sequence of
/// characters, the linked-file list a sequence of such sequences.
#[verifier::ext_equal]
pub ghost struct ConfigModel {
    pub file_path: Seq<char>,
    pub comp_proc: Seq<char>,
    pub upl_proc: Seq<char>,
    pub freq: Seq<char>,
    pub prog: Seq<char>,
    pub linked: Seq<Seq<char>>,
    pub verbose_output: bool,
}

/// A build configuration, immutable once constructed.
#[derive(Debug)]
pub struct Config {
    /// Primary source file, without its `.c` extension.
    pub file_path: String,
    /// Processor identifier handed to the compiler.
    pub comp_proc: String,
    /// Processor identifier handed to the upload tool.
    pub upl_proc: String,
    /// Clock frequency, passed to the compiler as a preprocessor define.
    pub freq: String,
    /// Hardware programmer identifier for the upload tool.
    pub prog: String,
    /// Additional files combined into the build, in order.
    pub linked: Vec<String>,
    /// Whether constructed command lines are echoed before execution.
    pub verbose_output: bool,
}

impl View for Config {
    type V = ConfigModel;

    open spec fn view(&self) -> ConfigModel {
        ConfigModel {
            file_path: self.file_path@,
            comp_proc: self.comp_proc@,
            upl_proc: self.upl_proc@,
            freq: self.freq@,
            prog: self.prog@,
            linked: self.linked.deep_view(),
            verbose_output: self.verbose_output,
        }
    }
}

/// Default compiler-side processor identifier.
pub open spec fn spec_default_comp_proc() -> Seq<char> {
    "atmega644p"@
}

/// Default upload-side processor identifier.
pub open spec fn spec_default_upl_proc() -> Seq<char> {
    "m644p"@
}

/// Default clock frequency.
pub open spec fn spec_default_freq() -> Seq<char> {
    "12000000"@
}

/// Default hardware programmer identifier.
pub open spec fn spec_default_prog() -> Seq<char> {
    "usbasp"@
}

pub fn default_comp_proc() -> (r: &'static str)
    ensures
        r@ == spec_default_comp_proc(),
{
    "atmega644p"
}

pub fn default_upl_proc() -> (r: &'static str)
    ensures
        r@ == spec_default_upl_proc(),
{
    "m644p"
}

pub fn default_freq() -> (r: &'static str)
    ensures
        r@ == spec_default_freq(),
{
    "12000000"
}

pub fn default_prog() -> (r: &'static str)
    ensures
        r@ == spec_default_prog(),
{
    "usbasp"
}

} // verus!

//! The external commands the pipeline constructs: a program name and its
//! argument list, and the exact argument lists of the four build steps.

use vstd::prelude::*;

verus! {

/// Mathematical model of a [`Cmd`].
#[verifier::ext_equal]
pub ghost struct CmdModel {
    pub program: Seq<char>,
    pub args: Seq<Seq<char>>,
}

/// One external command: the program to invoke and its arguments, in order.
#[derive(Debug)]
pub struct Cmd {
    pub program: String,
    pub args: Vec<String>,
}

impl View for Cmd {
    type V = CmdModel;

    open spec fn view(&self) -> CmdModel {
        CmdModel { program: self.program@, args: self.args.deep_view() }
    }
}

/// The object-directory prefix every build artifact is placed under.
pub open spec fn spec_output_dir() -> Seq<char> {
    "bin"@
}

/// The name of the object artifact the compiler produces for the linked
/// source file `name`.
pub open spec fn spec_object_artifact(name: Seq<char>) -> Seq<char> {
    "bin/"@ + name + ".o"@
}

/// The compile-only command for one linked source file: target processor,
/// frequency define, optimization, the file, and its object artifact.
pub open spec fn spec_compile_linked_cmd(
    comp_proc: Seq<char>,
    freq: Seq<char>,
    name: Seq<char>,
) -> CmdModel {
    CmdModel {
        program: "avr-gcc"@,
        args: seq![
            "-c"@,
            "-mmcu="@ + comp_proc,
            "-DF_CPU="@ + freq,
            "-Os"@,
            name,
            "-o"@,
            spec_object_artifact(name),
        ],
    }
}

/// The combined compile-and-link command for the main source file: target
/// processor, frequency define, optimization, the whole object list, and
/// the executable image.
pub open spec fn spec_compile_main_cmd(
    comp_proc: Seq<char>,
    freq: Seq<char>,
    file_path: Seq<char>,
    objects: Seq<Seq<char>>,
) -> CmdModel {
    CmdModel {
        program: "avr-gcc"@,
        args: seq!["-mmcu="@ + comp_proc, "-DF_CPU="@ + freq, "-Os"@] + objects + seq![
            "-o"@,
            "bin/"@ + file_path + ".elf"@,
        ],
    }
}

/// The image-conversion command: the executable image into the
/// programmer-readable format.
pub open spec fn spec_convert_cmd(file_path: Seq<char>) -> CmdModel {
    CmdModel {
        program: "avr-objcopy"@,
        args: seq![
            "-O"@,
            "ihex"@,
            "bin/"@ + file_path + ".elf"@,
            "bin/"@ + file_path + ".hex"@,
        ],
    }
}

/// The device-upload command: programmer, upload-side processor, and the
/// write directive naming the converted image.
pub open spec fn spec_upload_cmd(
    prog: Seq<char>,
    upl_proc: Seq<char>,
    file_path: Seq<char>,
) -> CmdModel {
    CmdModel {
        program: "avrdude"@,
        args: seq![
            "-c"@,
            prog,
            "-p"@,
            upl_proc,
            "-U"@,
            "flash:w:bin/"@ + file_path + ".hex"@,
        ],
    }
}

/// Concatenation of `prefix` and `suffix`.
fn join2(prefix: &str, suffix: &str) -> (r: String)
    ensures
        r@ == prefix@ + suffix@,
{
    let mut s: String = prefix.to_owned();
    s.append(suffix);
    s
}

/// Concatenation of `prefix`, `middle` and `suffix`.
fn join3(prefix: &str, middle: &str, suffix: &str) -> (r: String)
    ensures
        r@ == prefix@ + middle@ + suffix@,
{
    let mut s: String = prefix.to_owned();
    s.append(middle);
    s.append(suffix);
    s
}

/// The main source filename: the file path with its `.c` extension.
pub fn main_source_name(file_path: &String) -> (r: String)
    ensures
        r@ == file_path@ + ".c"@,
{
    join2(file_path.as_str(), ".c")
}

/// The object artifact for the linked source file `name`.
pub fn object_artifact(name: &String) -> (r: String)
    ensures
        r@ == spec_object_artifact(name@),
{
    join3("bin/", name.as_str(), ".o")
}

/// Builds the compile-only command for one linked source file.
pub fn compile_linked_cmd(comp_proc: &String, freq: &String, name: &String) -> (c: Cmd)
    ensures
        c@ == spec_compile_linked_cmd(comp_proc@, freq@, name@),
{
    let mut cmd_args: Vec<String> = Vec::new();
    cmd_args.push("-c".to_owned());
    cmd_args.push(join2("-mmcu=", comp_proc.as_str()));
    cmd_args.push(join2("-DF_CPU=", freq.as_str()));
    cmd_args.push("-Os".to_owned());
    cmd_args.push(name.clone());
    cmd_args.push("-o".to_owned());
    cmd_args.push(object_artifact(name));
    let c = Cmd { program: "avr-gcc".to_owned(), args: cmd_args };
    proof {
        assert(c@.args =~~= spec_compile_linked_cmd(comp_proc@, freq@, name@).args);
        assert(c@ =~~= spec_compile_linked_cmd(comp_proc@, freq@, name@));
    }
    c
}

/// Builds the combined compile-and-link command for the main source file.
pub fn compile_main_cmd(
    comp_proc: &String,
    freq: &String,
    file_path: &String,
    objects: &Vec<String>,
) -> (c: Cmd)
    ensures
        c@ == spec_compile_main_cmd(comp_proc@, freq@, file_path@, objects.deep_view()),
{
    let mut cmd_args: Vec<String> = Vec::new();
    cmd_args.push(join2("-mmcu=", comp_proc.as_str()));
    cmd_args.push(join2("-DF_CPU=", freq.as_str()));
    cmd_args.push("-Os".to_owned());
    let mut k: usize = 0;
    while k < objects.len()
        invariant
            k <= objects@.len(),
            cmd_args@.len() == 3 + k,
            cmd_args.deep_view()[0] == "-mmcu="@ + comp_proc@,
            cmd_args.deep_view()[1] == "-DF_CPU="@ + freq@,
            cmd_args.deep_view()[2] == "-Os"@,
            forall|i: int| 0 <= i < k ==> cmd_args.deep_view()[3 + i] == objects.deep_view()[i],
        decreases objects@.len() - k,
    {
        cmd_args.push(objects[k].clone());
        k = k + 1;
    }
    cmd_args.push("-o".to_owned());
    cmd_args.push(join3("bin/", file_path.as_str(), ".elf"));
    let c = Cmd { program: "avr-gcc".to_owned(), args: cmd_args };
    proof {
        assert(c@.args =~~= spec_compile_main_cmd(
            comp_proc@,
            freq@,
            file_path@,
            objects.deep_view(),
        ).args);
        assert(c@ =~~= spec_compile_main_cmd(comp_proc@, freq@, file_path@, objects.deep_view()));
    }
    c
}

/// Builds the image-conversion command.
pub fn convert_cmd(file_path: &String) -> (c: Cmd)
    ensures
        c@ == spec_convert_cmd(file_path@),
{
    let mut cmd_args: Vec<String> = Vec::new();
    cmd_args.push("-O".to_owned());
    cmd_args.push("ihex".to_owned());
    cmd_args.push(join3("bin/", file_path.as_str(), ".elf"));
    cmd_args.push(join3("bin/", file_path.as_str(), ".hex"));
    let c = Cmd { program: "avr-objcopy".to_owned(), args: cmd_args };
    proof {
        assert(c@.args =~~= spec_convert_cmd(file_path@).args);
        assert(c@ =~~= spec_convert_cmd(file_path@));
    }
    c
}

/// Builds the device-upload command.
pub fn upload_cmd(prog: &String, upl_proc: &String, file_path: &String) -> (c: Cmd)
    ensures
        c@ == spec_upload_cmd(prog@, upl_proc@, file_path@),
{
    let mut cmd_args: Vec<String> = Vec::new();
    cmd_args.push("-c".to_owned());
    cmd_args.push(prog.clone());
    cmd_args.push("-p".to_owned());
    cmd_args.push(upl_proc.clone());
    cmd_args.push("-U".to_owned());
    cmd_args.push(join3("flash:w:bin/", file_path.as_str(), ".hex"));
    let c = Cmd { program: "avrdude".to_owned(), args: cmd_args };
    proof {
        assert(c@.args =~~= spec_upload_cmd(prog@, upl_proc@, file_path@).args);
        assert(c@ =~~= spec_upload_cmd(prog@, upl_proc@, file_path@));
    }
    c
}

/// The rendering of an argument list: each argument preceded by one space.
pub open spec fn spec_joined_args(cmd_args: Seq<Seq<char>>) -> Seq<char>
    decreases cmd_args.len(),
{
    if cmd_args.len() == 0 {
        Seq::empty()
    } else {
        spec_joined_args(cmd_args.drop_last()) + " "@ + cmd_args.last()
    }
}

/// The one-line rendering of a command: the program followed by its
/// space-separated arguments.
pub open spec fn spec_command_line(c: CmdModel) -> Seq<char> {
    c.program + spec_joined_args(c.args)
}

impl Cmd {
    /// Renders the command as the single line echoed in verbose mode.
    pub fn command_line(&self) -> (r: String)
        ensures
            r@ == spec_command_line(self@),
    {
        let mut s: String = self.program.clone();
        proof {
            assert(s@ =~= self.program@ + spec_joined_args(self.args.deep_view().take(0)));
        }
        let mut k: usize = 0;
        while k < self.args.len()
            invariant
                k <= self.args@.len(),
                s@ == self.program@ + spec_joined_args(self.args.deep_view().take(k as int)),
            decreases self.args@.len() - k,
        {
            s.append(" ");
            s.append(self.args[k].as_str());
            proof {
                let taken = self.args.deep_view().take(k + 1);
                assert(taken.drop_last() =~= self.args.deep_view().take(k as int));
                assert(taken.last() == self.args.deep_view()[k as int]);
                assert(s@ =~= self.program@ + spec_joined_args(taken));
            }
            k = k + 1;
        }
        proof {
            assert(self.args.deep_view().take(self.args@.len() as int) =~= self.args.deep_view());
        }
        s
    }
}

} // verus!

//! The build pipeline as a state machine.
//!
//! The pipeline runs the strictly ordered steps setup, per-file compilation
//! of the linked sources, the combined compile-and-link of the main source,
//! image conversion, and upload.  The machine never performs an external
//! effect itself: [`Pipeline::current_action`] says which action is due,
//! the caller performs it and reports the outcome to
//! [`Pipeline::advance`].  Any failure moves the machine to the terminal
//! `Failed` state for that step, so no later step's tool is ever invoked.

use vstd::prelude::*;

use crate::command::{
    Cmd, CmdModel, compile_linked_cmd, compile_main_cmd, convert_cmd, object_artifact,
    spec_compile_linked_cmd, spec_compile_main_cmd, spec_convert_cmd, spec_object_artifact,
    spec_output_dir, spec_upload_cmd, upload_cmd,
};
use crate::config::{Config, ConfigModel};

verus! {

/// The five steps of the pipeline, in their fixed order.
#[derive(Clone, Copy, Debug)]
pub enum StepKind {
    Setup,
    CompileLinked,
    CompileMain,
    ConvertImage,
    Upload,
}

/// Where the pipeline stands: at a step still to be performed, finished,
/// or aborted at the step that failed.
#[derive(Clone, Copy, Debug)]
pub enum PipelineState {
    Running(StepKind),
    Done,
    Failed(StepKind),
}

/// Mathematical model of an [`Action`].
pub ghost enum ActionModel {
    EnsureDir(Seq<char>),
    RunTool(CmdModel),
}

/// One external effect the caller is asked to perform: make sure a
/// directory exists, or run a tool and report whether it exited
/// successfully.
#[derive(Debug)]
pub enum Action {
    EnsureDir(String),
    RunTool(Cmd),
}

impl View for Action {
    type V = ActionModel;

    open spec fn view(&self) -> ActionModel {
        match self {
            Action::EnsureDir(path) => ActionModel::EnsureDir(path@),
            Action::RunTool(cmd) => ActionModel::RunTool(cmd@),
        }
    }
}

impl DeepView for Action {
    type V = ActionModel;

    open spec fn deep_view(&self) -> ActionModel {
        self.view()
    }
}

/// Mathematical model of a [`Pipeline`]: the configuration, the current
/// state, how many linked entries have been consumed, and the object list
/// gathered so far (the main source file first).
#[verifier::ext_equal]
pub ghost struct PipelineModel {
    pub config: ConfigModel,
    pub state: PipelineState,
    pub idx: int,
    pub objects: Seq<Seq<char>>,
}

/// Every linked-file entry is a plausible filename: at least two
/// characters long.
pub open spec fn linked_valid(cfg: ConfigModel) -> bool {
    forall|k: int| 0 <= k < cfg.linked.len() ==> cfg.linked[k].len() >= 2
}

/// A linked entry that names a source file, i.e. ends in `.c`; every other
/// entry is passed through as an already-compiled object.
pub open spec fn is_source_file(name: Seq<char>) -> bool {
    name.len() >= 2 && name[name.len() - 2] == '.' && name[name.len() - 1] == 'c'
}

/// What a linked entry contributes to the final object list: its compiled
/// artifact when it is a source file, the entry itself otherwise.
pub open spec fn spec_object_entry(name: Seq<char>) -> Seq<char> {
    if is_source_file(name) {
        spec_object_artifact(name)
    } else {
        name
    }
}

/// The contributions of the first `n` linked entries, in order.
pub open spec fn spec_objects_prefix(linked: Seq<Seq<char>>, n: int) -> Seq<Seq<char>>
    decreases n,
{
    if n <= 0 {
        Seq::empty()
    } else {
        spec_objects_prefix(linked, n - 1).push(spec_object_entry(linked[n - 1]))
    }
}

/// The object list after the first `n` linked entries have been consumed:
/// the main source file, then their contributions.
pub open spec fn spec_object_list(cfg: ConfigModel, n: int) -> Seq<Seq<char>> {
    seq![cfg.file_path + ".c"@] + spec_objects_prefix(cfg.linked, n)
}

/// Consuming one more linked entry appends that entry's contribution to
/// the object list.
pub proof fn lemma_object_list_extend(cfg: ConfigModel, n: int)
    requires
        0 <= n < cfg.linked.len(),
    ensures
        spec_object_list(cfg, n + 1) == spec_object_list(cfg, n).push(
            spec_object_entry(cfg.linked[n]),
        ),
{
    assert(spec_objects_prefix(cfg.linked, n + 1) == spec_objects_prefix(cfg.linked, n).push(
        spec_object_entry(cfg.linked[n]),
    ));
    assert(spec_object_list(cfg, n + 1) =~= spec_object_list(cfg, n).push(
        spec_object_entry(cfg.linked[n]),
    ));
}

/// The first source-file entry at or after `i`, or the length of the list
/// when every remaining entry is a pass-through object.
pub open spec fn next_source_idx(linked: Seq<Seq<char>>, i: int) -> int
    decreases linked.len() - i,
{
    if i < 0 || i >= linked.len() {
        linked.len() as int
    } else if is_source_file(linked[i]) {
        i
    } else {
        next_source_idx(linked, i + 1)
    }
}

/// The internal consistency of a pipeline model.
pub open spec fn inv(m: PipelineModel) -> bool {
    &&& linked_valid(m.config)
    &&& 0 <= m.idx <= m.config.linked.len()
    &&& m.objects == spec_object_list(m.config, m.idx)
    &&& (m.state == PipelineState::Running(StepKind::Setup) ==> m.idx == 0)
    &&& (m.state == PipelineState::Running(StepKind::CompileLinked) ==> m.idx
        < m.config.linked.len() && is_source_file(m.config.linked[m.idx]))
    &&& (m.state == PipelineState::Running(StepKind::CompileMain) ==> m.idx
        == m.config.linked.len())
    &&& (m.state == PipelineState::Running(StepKind::ConvertImage) ==> m.idx
        == m.config.linked.len())
    &&& (m.state == PipelineState::Running(StepKind::Upload) ==> m.idx
        == m.config.linked.len())
}

/// The freshly constructed pipeline: at the setup step, no linked entry
/// consumed, the object list holding only the main source file.
pub open spec fn spec_init(cfg: ConfigModel) -> PipelineModel {
    PipelineModel {
        config: cfg,
        state: PipelineState::Running(StepKind::Setup),
        idx: 0,
        objects: spec_object_list(cfg, 0),
    }
}

/// The pipeline after the linked entries from `i` on have been consumed up
/// to the next source file: pass-through entries join the object list, and
/// the machine stands at that source file's compilation, or at the main
/// compilation when none is left.
pub open spec fn spec_resume_linked(cfg: ConfigModel, i: int) -> PipelineModel {
    let j = next_source_idx(cfg.linked, i);
    PipelineModel {
        config: cfg,
        state: if j < cfg.linked.len() {
            PipelineState::Running(StepKind::CompileLinked)
        } else {
            PipelineState::Running(StepKind::CompileMain)
        },
        idx: j,
        objects: spec_object_list(cfg, j),
    }
}

/// One transition of the machine: a failure outcome moves a running
/// pipeline to the terminal `Failed` state of its step; a success moves it
/// to the next step.  `Done` and `Failed` are absorbing.
pub open spec fn spec_advance(m: PipelineModel, success: bool) -> PipelineModel {
    match m.state {
        PipelineState::Running(k) => {
            if !success {
                PipelineModel { state: PipelineState::Failed(k), ..m }
            } else {
                match k {
                    StepKind::Setup => spec_resume_linked(m.config, m.idx),
                    StepKind::CompileLinked => spec_resume_linked(m.config, m.idx + 1),
                    StepKind::CompileMain => PipelineModel {
                        state: PipelineState::Running(StepKind::ConvertImage),
                        ..m
                    },
                    StepKind::ConvertImage => PipelineModel {
                        state: PipelineState::Running(StepKind::Upload),
                        ..m
                    },
                    StepKind::Upload => PipelineModel { state: PipelineState::Done, ..m },
                }
            }
        },
        PipelineState::Done => m,
        PipelineState::Failed(_) => m,
    }
}

/// The action due in the current state: `None` once the pipeline is done
/// or has failed.
pub open spec fn spec_action(m: PipelineModel) -> Option<ActionModel> {
    match m.state {
        PipelineState::Running(k) => match k {
            StepKind::Setup => Some(ActionModel::EnsureDir(spec_output_dir())),
            StepKind::CompileLinked => Some(
                ActionModel::RunTool(
                    spec_compile_linked_cmd(
                        m.config.comp_proc,
                        m.config.freq,
                        m.config.linked[m.idx],
                    ),
                ),
            ),
            StepKind::CompileMain => Some(
                ActionModel::RunTool(
                    spec_compile_main_cmd(
                        m.config.comp_proc,
                        m.config.freq,
                        m.config.file_path,
                        m.objects,
                    ),
                ),
            ),
            StepKind::ConvertImage => Some(
                ActionModel::RunTool(spec_convert_cmd(m.config.file_path)),
            ),
            StepKind::Upload => Some(
                ActionModel::RunTool(
                    spec_upload_cmd(m.config.prog, m.config.upl_proc, m.config.file_path),
                ),
            ),
        },
        PipelineState::Done => None,
        PipelineState::Failed(_) => None,
    }
}

/// The diagnostic a failed step is reported with.
pub open spec fn spec_failure_message(k: StepKind) -> Seq<char> {
    match k {
        StepKind::Setup => "Failed to create path 'bin'"@,
        StepKind::CompileLinked => "Failed to compile linked file!"@,
        StepKind::CompileMain => "Failed to compile!"@,
        StepKind::ConvertImage => "failed to copy objects!"@,
        StepKind::Upload => "failed to upload to microcontroller!"@,
    }
}

/// With an empty linked-file list, a pipeline whose every step succeeds
/// performs exactly four actions, in order: it ensures the output
/// directory, invokes the compiler once — for the main artifact only, on an
/// object list holding nothing but the main source file — converts the
/// image, uploads it, and ends in the `Done` state.  The converter's and
/// the uploader's programs differ from the compiler's, so the compile
/// invocation is the single one.
pub proof fn lemma_empty_linked_success_trace(cfg: ConfigModel)
    requires
        cfg.linked.len() == 0,
    ensures
        ({
            let p0 = spec_init(cfg);
            let p1 = spec_advance(p0, true);
            let p2 = spec_advance(p1, true);
            let p3 = spec_advance(p2, true);
            let p4 = spec_advance(p3, true);
            &&& spec_action(p0) == Some(ActionModel::EnsureDir(spec_output_dir()))
            &&& p1.state == PipelineState::Running(StepKind::CompileMain)
            &&& spec_action(p1) == Some(
                ActionModel::RunTool(
                    spec_compile_main_cmd(
                        cfg.comp_proc,
                        cfg.freq,
                        cfg.file_path,
                        seq![cfg.file_path + ".c"@],
                    ),
                ),
            )
            &&& spec_action(p2) == Some(ActionModel::RunTool(spec_convert_cmd(cfg.file_path)))
            &&& spec_action(p3) == Some(
                ActionModel::RunTool(spec_upload_cmd(cfg.prog, cfg.upl_proc, cfg.file_path)),
            )
            &&& p4.state == PipelineState::Done
            &&& spec_convert_cmd(cfg.file_path).program != spec_compile_main_cmd(
                cfg.comp_proc,
                cfg.freq,
                cfg.file_path,
                seq![cfg.file_path + ".c"@],
            ).program
            &&& spec_upload_cmd(cfg.prog, cfg.upl_proc, cfg.file_path).program
                != spec_compile_main_cmd(
                cfg.comp_proc,
                cfg.freq,
                cfg.file_path,
                seq![cfg.file_path + ".c"@],
            ).program
        }),
{
    let p0 = spec_init(cfg);
    let p1 = spec_advance(p0, true);
    assert(next_source_idx(cfg.linked, 0) == 0);
    assert(p0.objects =~= seq![cfg.file_path + ".c"@]);
    assert(p1.objects =~= seq![cfg.file_path + ".c"@]);
    reveal_strlit("avr-gcc");
    reveal_strlit("avr-objcopy");
    reveal_strlit("avrdude");
    assert("avr-objcopy"@.len() == 11 && "avr-gcc"@.len() == 7);
    assert("avrdude"@[3] == 'd' && "avr-gcc"@[3] == '-');
}

/// A failing step is fatal: the pipeline moves to the terminal `Failed`
/// state of that step, no further action is due, and no outcome moves it
/// out of that state.  In particular, when the main compile step fails,
/// neither the converter nor the uploader is ever invoked.
pub proof fn lemma_failure_aborts(m: PipelineModel, k: StepKind)
    requires
        m.state == PipelineState::Running(k),
    ensures
        spec_advance(m, false).state == PipelineState::Failed(k),
        spec_action(spec_advance(m, false)) is None,
        forall|outcome: bool|
            spec_advance(spec_advance(m, false), outcome) == spec_advance(m, false),
{
}

/// Whether this linked entry names a source file to be compiled.
fn is_source_entry(name: &String) -> (b: bool)
    ensures
        b == is_source_file(name@),
{
    let st: &str = name.as_str();
    let n = st.unicode_len();
    if n < 2 {
        false
    } else {
        st.get_char(n - 2) == '.' && st.get_char(n - 1) == 'c'
    }
}

/// The build pipeline.  Constructed over a configuration, it hands out one
/// [`Action`] at a time and moves on according to the reported outcome.
#[derive(Debug)]
pub struct Pipeline {
    config: Config,
    state: PipelineState,
    idx: usize,
    objects: Vec<String>,
}

impl View for Pipeline {
    type V = PipelineModel;

    closed spec fn view(&self) -> PipelineModel {
        PipelineModel {
            config: self.config@,
            state: self.state,
            idx: self.idx as int,
            objects: self.objects.deep_view(),
        }
    }
}

impl Pipeline {
    /// The machine's internal consistency; established by [`Pipeline::new`]
    /// and preserved by [`Pipeline::advance`].
    pub open spec fn wf(&self) -> bool {
        inv(self@)
    }

    /// Builds the pipeline for a configuration.  Every linked entry shorter
    /// than two characters is an invalid filename, and is rejected here,
    /// before any external tool is invoked; otherwise the machine starts at
    /// the setup step.
    pub fn new(config: Config) -> (r: Result<Pipeline, &'static str>)
        ensures
            match r {
                Ok(p) => linked_valid(config@) && p.wf() && p@ == spec_init(config@),
                Err(m) => !linked_valid(config@) && m@ == "Invalid filename in link arguments!"@,
            },
    {
        let ghost linked = config.linked.deep_view();
        let mut k: usize = 0;
        while k < config.linked.len()
            invariant
                k <= linked.len() == config.linked@.len(),
                linked == config.linked.deep_view(),
                forall|i: int| 0 <= i < k ==> linked[i].len() >= 2,
            decreases linked.len() - k,
        {
            if config.linked[k].as_str().unicode_len() < 2 {
                assert(linked[k as int].len() < 2);
                return Err("Invalid filename in link arguments!");
            }
            k = k + 1;
        }
        let mut objects: Vec<String> = Vec::new();
        objects.push(crate::command::main_source_name(&config.file_path));
        let p = Pipeline { config, state: PipelineState::Running(StepKind::Setup), idx: 0, objects };
        proof {
            assert(p@.objects =~= spec_object_list(p@.config, 0));
        }
        Ok(p)
    }

    /// The action due in the current state: `None` once the pipeline is
    /// done or has failed.
    pub fn current_action(&self) -> (a: Option<Action>)
        requires
            self.wf(),
        ensures
            a.deep_view() == spec_action(self@),
    {
        match self.state {
            PipelineState::Running(k) => match k {
                StepKind::Setup => Some(Action::EnsureDir("bin".to_owned())),
                StepKind::CompileLinked => Some(
                    Action::RunTool(
                        compile_linked_cmd(
                            &self.config.comp_proc,
                            &self.config.freq,
                            &self.config.linked[self.idx],
                        ),
                    ),
                ),
                StepKind::CompileMain => Some(
                    Action::RunTool(
                        compile_main_cmd(
                            &self.config.comp_proc,
                            &self.config.freq,
                            &self.config.file_path,
                            &self.objects,
                        ),
                    ),
                ),
                StepKind::ConvertImage => Some(Action::RunTool(convert_cmd(&self.config.file_path))),
                StepKind::Upload => Some(
                    Action::RunTool(
                        upload_cmd(&self.config.prog, &self.config.upl_proc, &self.config.file_path),
                    ),
                ),
            },
            PipelineState::Done => None,
            PipelineState::Failed(_) => None,
        }
    }

    /// Consumes linked entries from the current index up to the next source
    /// file, passing the others through to the object list.
    fn resume_linked(&mut self)
        requires
            linked_valid(old(self)@.config),
            0 <= old(self)@.idx <= old(self)@.config.linked.len(),
            old(self)@.objects == spec_object_list(old(self)@.config, old(self)@.idx),
        ensures
            final(self)@ == spec_resume_linked(old(self)@.config, old(self)@.idx),
            inv(final(self)@),
    {
        let ghost cfg = self@.config;
        let ghost start = self@.idx;
        while self.idx < self.config.linked.len() && !is_source_entry(&self.config.linked[self.idx])
            invariant
                self.config@ == cfg,
                start <= self.idx as int <= cfg.linked.len(),
                self.objects.deep_view() == spec_object_list(cfg, self.idx as int),
                next_source_idx(cfg.linked, start) == next_source_idx(cfg.linked, self.idx as int),
            decreases cfg.linked.len() - self.idx,
        {
            let entry = self.config.linked[self.idx].clone();
            assert(!is_source_file(cfg.linked[self.idx as int]));
            assert(entry@ == cfg.linked[self.idx as int]);
            let ghost before = self.objects.deep_view();
            self.objects.push(entry);
            proof {
                lemma_object_list_extend(cfg, self.idx as int);
                assert(spec_object_entry(cfg.linked[self.idx as int]) == entry@);
                assert(self.objects.deep_view() =~= before.push(entry@));
                assert(self.objects.deep_view() == spec_object_list(cfg, self.idx + 1));
            }
            self.idx = self.idx + 1;
        }
        proof {
            assert(next_source_idx(cfg.linked, self.idx as int) == self.idx as int);
        }
        if self.idx < self.config.linked.len() {
            self.state = PipelineState::Running(StepKind::CompileLinked);
        } else {
            self.state = PipelineState::Running(StepKind::CompileMain);
        }
        proof {
            assert(self@ =~~= spec_resume_linked(cfg, start));
        }
    }

    /// Reports the outcome of the action last handed out, and moves the
    /// machine on: to the terminal `Failed` state of the current step on a
    /// failure, to the next step on a success.
    pub fn advance(&mut self, success: bool)
        requires
            old(self).wf(),
        ensures
            final(self).wf(),
            final(self)@ == spec_advance(old(self)@, success),
    {
        match self.state {
            PipelineState::Running(k) => {
                if !success {
                    self.state = PipelineState::Failed(k);
                    proof {
                        assert(self@ =~~= spec_advance(old(self)@, success));
                    }
                    return ;
                }
                match k {
                    StepKind::Setup => {
                        self.resume_linked();
                    },
                    StepKind::CompileLinked => {
                        let ghost cfg = self.config@;
                        let n = self.config.linked.len();
                        assert((self.idx as int) < cfg.linked.len());
                        assert(self.idx < n);
                        let name = self.config.linked[self.idx].clone();
                        assert(name@ == cfg.linked[self.idx as int]);
                        let artifact = object_artifact(&name);
                        let ghost before = self.objects.deep_view();
                        self.objects.push(artifact);
                        proof {
                            lemma_object_list_extend(cfg, self.idx as int);
                            assert(spec_object_entry(cfg.linked[self.idx as int]) == artifact@);
                            assert(self.objects.deep_view() =~= before.push(artifact@));
                            assert(self.objects.deep_view() == spec_object_list(
                                cfg,
                                self.idx + 1,
                            ));
                        }
                        self.idx = self.idx + 1;
                        self.resume_linked();
                    },
                    StepKind::CompileMain => {
                        self.state = PipelineState::Running(StepKind::ConvertImage);
                        proof {
                            assert(self@ =~~= spec_advance(old(self)@, success));
                        }
                    },
                    StepKind::ConvertImage => {
                        self.state = PipelineState::Running(StepKind::Upload);
                        proof {
                            assert(self@ =~~= spec_advance(old(self)@, success));
                        }
                    },
                    StepKind::Upload => {
                        self.state = PipelineState::Done;
                        proof {
                            assert(self@ =~~= spec_advance(old(self)@, success));
                        }
                    },
                }
            },
            PipelineState::Done => {
            },
            PipelineState::Failed(_) => {
            },
        }
    }

    /// The diagnostic for the step the pipeline failed at, `None` while it
    /// has not failed.
    pub fn error_message(&self) -> (r: Option<&'static str>)
        ensures
            match self@.state {
                PipelineState::Failed(k) => r matches Some(m) && m@ == spec_failure_message(k),
                _ => r is None,
            },
    {
        match self.state {
            PipelineState::Failed(k) => match k {
                StepKind::Setup => Some("Failed to create path 'bin'"),
                StepKind::CompileLinked => Some("Failed to compile linked file!"),
                StepKind::CompileMain => Some("Failed to compile!"),
                StepKind::ConvertImage => Some("failed to copy objects!"),
                StepKind::Upload => Some("failed to upload to microcontroller!"),
            },
            _ => None,
        }
    }

    /// Whether the whole pipeline has completed successfully.
    pub fn is_done(&self) -> (b: bool)
        ensures
            b == (self@.state == PipelineState::Done),
    {
        match self.state {
            PipelineState::Done => true,
            _ => false,
        }
    }

    /// Whether the pipeline has aborted at a failed step.
    pub fn has_failed(&self) -> (b: bool)
        ensures
            b == (self@.state matches PipelineState::Failed(_)),
    {
        match self.state {
            PipelineState::Failed(_) => true,
            _ => false,
        }
    }

    /// Whether constructed command lines are to be echoed before execution.
    pub fn verbose(&self) -> (b: bool)
        ensures
            b == self@.config.verbose_output,
    {
        self.config.verbose_output
    }
}

} // verus!

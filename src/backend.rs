use vstd::prelude::*;
use vstd::utf8::{decode_utf8, valid_utf8};
use crate::data::DataHolder;
use crate::error::{Failure, SniprunError};
use crate::launcher::BackendEntry;
use crate::level::{capped, level_rank, SupportLevel};

verus! {

/// Whether `c` is one of the characters that leave a snippet blank.
pub open spec fn is_space(c: char) -> bool {
    c == ' ' || c == '\t' || c == '\n' || c == '\r'
}

/// Whether a text holds nothing but spaces, tabs and line breaks.
pub open spec fn blank(s: Seq<char>) -> bool {
    forall|i: int| 0 <= i < s.len() ==> is_space(#[trigger] s[i])
}

/// Whether `s` holds nothing but spaces, tabs and line breaks.
pub fn is_blank(s: &String) -> (r: bool)
    ensures
        r == blank(s@),
{
    let t = s.as_str();
    let n = t.unicode_len();
    let mut i: usize = 0;
    while i < n
        invariant
            t@ == s@,
            n == s@.len(),
            i <= n,
            forall|j: int| 0 <= j < i ==> is_space(#[trigger] s@[j]),
        decreases n - i,
    {
        let c = t.get_char(i);
        if !(c == ' ' || c == '\t' || c == '\n' || c == '\r') {
            assert(!is_space(s@[i as int]));
            return false;
        }
        i = i + 1;
    }
    true
}

/// The code that the fetch stage keeps at level `level`: the block where it
/// is not blank and the level reaches `Bloc`, else the line where it is not
/// blank and the level reaches `Line`, else nothing.
pub open spec fn fetched(data: DataHolder, level: SupportLevel) -> Seq<char> {
    if !blank(data.current_bloc@) && level_rank(level) >= level_rank(SupportLevel::Bloc) {
        data.current_bloc@
    } else if !blank(data.current_line@) && level_rank(level) >= level_rank(SupportLevel::Line) {
        data.current_line@
    } else {
        Seq::<char>::empty()
    }
}

/// The form of the snippet that a backend at level `level` runs.
pub fn fetch_form(data: &DataHolder, level: SupportLevel) -> (r: String)
    ensures
        r@ == fetched(*data, level),
{
    if !is_blank(&data.current_bloc) && level.at_least(&SupportLevel::Bloc) {
        data.current_bloc.clone()
    } else if !is_blank(&data.current_line) && level.at_least(&SupportLevel::Line) {
        data.current_line.clone()
    } else {
        String::new()
    }
}

/// The code wrapped in an entry point, so that it runs on its own.
pub open spec fn wrapped(code: Seq<char>) -> Seq<char> {
    "fn main() {"@ + code + "}"@
}

/// The message that a decode failure carries.
pub const DECODE_FAILURE: &'static str = "captured output is not valid UTF-8";

/// What the build stage makes of its tool's exit: success, or the tool's
/// standard error as a compilation error.
pub open spec fn build_result(o: ProcessOutput) -> Result<(), Failure> {
    if o.success {
        Ok(())
    } else if valid_utf8(o.stderr@) {
        Err(Failure::CompilationError(decode_utf8(o.stderr@)))
    } else {
        Err(Failure::OutputDecodeError(DECODE_FAILURE@))
    }
}

/// What the execute stage makes of the artifact's exit: its standard output
/// on success, else its standard error as a runtime error.
pub open spec fn execute_result(o: ProcessOutput) -> Result<Seq<char>, Failure> {
    if o.success {
        if valid_utf8(o.stdout@) {
            Ok(decode_utf8(o.stdout@))
        } else {
            Err(Failure::OutputDecodeError(DECODE_FAILURE@))
        }
    } else if valid_utf8(o.stderr@) {
        Err(Failure::RuntimeError(decode_utf8(o.stderr@)))
    } else {
        Err(Failure::OutputDecodeError(DECODE_FAILURE@))
    }
}

/// How an outside process ended: whether it exited with success, and the
/// bytes it wrote to its standard output and standard error.
#[derive(Clone, Debug)]
pub struct ProcessOutput {
    pub success: bool,
    pub stdout: Vec<u8>,
    pub stderr: Vec<u8>,
}

/// The registry of the backends that this library provides, in registration
/// order.
pub fn known_backends() -> (r: Vec<BackendEntry>)
    ensures
        r@.len() == 1,
        r@[0].name@ == "Language_subname"@,
        crate::data::texts(r@[0].languages@) == seq!["language_filetype"@, "extension"@],
        r@[0].max_level == SupportLevel::Bloc,
{
    let mut v: Vec<BackendEntry> = Vec::new();
    v.push(Language_subname::entry());
    v
}

/// Relies on `String::from_utf8`: it fails exactly when the bytes are not
/// valid UTF-8, and otherwise holds the characters they encode.
#[verifier::external_body]
fn decode_text(b: Vec<u8>) -> (r: Option<String>)
    ensures
        r is Some <==> valid_utf8(b@),
        r is Some ==> r->0@ == decode_utf8(b@),
{
    String::from_utf8(b).ok()
}

/// Classifies the build tool's exit.
pub fn build_verdict(o: ProcessOutput) -> (r: Result<(), SniprunError>)
    ensures
        match (r, build_result(o)) {
            (Ok(_), Ok(_)) => true,
            (Err(e), Err(f)) => e@ == f,
            _ => false,
        },
{
    if o.success {
        Ok(())
    } else {
        match decode_text(o.stderr) {
            Some(m) => Err(SniprunError::CompilationError(m)),
            None => Err(SniprunError::OutputDecodeError(String::from_str(DECODE_FAILURE))),
        }
    }
}

/// Classifies the executed artifact's exit.
pub fn execute_verdict(o: ProcessOutput) -> (r: Result<String, SniprunError>)
    ensures
        crate::error::outcome_view(r) == execute_result(o),
{
    if o.success {
        match decode_text(o.stdout) {
            Some(s) => Ok(s),
            None => Err(SniprunError::OutputDecodeError(String::from_str(DECODE_FAILURE))),
        }
    } else {
        match decode_text(o.stderr) {
            Some(m) => Err(SniprunError::RuntimeError(m)),
            None => Err(SniprunError::OutputDecodeError(String::from_str(DECODE_FAILURE))),
        }
    }
}

/// Where a run is in its pipeline.
#[derive(Clone, Copy, Debug, PartialEq, Eq, Structural)]
pub enum Stage {
    /// Nothing done yet.
    Fresh,
    /// Waiting for the working directory to exist.
    CreatingDir,
    /// Waiting for the source file to be written.
    WritingSource,
    /// Waiting for the compiler to exit.
    Compiling,
    /// Waiting for the artifact to exit.
    Running,
    /// The run has produced its result.
    Finished,
}

/// What the outside world reports back to a run.
#[derive(Debug)]
pub enum Event {
    /// Start the run.
    Begin,
    /// A directory creation or a file write ended; the error's text on failure.
    IoDone(Result<(), String>),
    /// A process ran to its end.
    ProcessFinished(ProcessOutput),
    /// A process could not be started; the reason.
    SpawnFailed(String),
}

/// What a run asks the outside world to do next.
#[derive(Debug)]
pub enum Action {
    /// Create this directory and its parents; report `IoDone`.
    CreateDir(String),
    /// Write `contents` to the file at `path`; report `IoDone`.
    WriteFile { path: String, contents: String },
    /// Run `program` with `args` and no standard input; report
    /// `ProcessFinished` or `SpawnFailed`.
    RunProcess { program: String, args: Vec<String> },
    /// The run is over with this result.
    Finish(Result<String, SniprunError>),
}

/// The model of an action.
pub ghost enum Step {
    CreateDir(Seq<char>),
    WriteFile(Seq<char>, Seq<char>),
    RunProcess(Seq<char>, Seq<Seq<char>>),
    Finish(Result<Seq<char>, Failure>),
}

impl View for Action {
    type V = Step;

    open spec fn view(&self) -> Step {
        match self {
            Action::CreateDir(p) => Step::CreateDir(p@),
            Action::WriteFile { path, contents } => Step::WriteFile(path@, contents@),
            Action::RunProcess { program, args } => Step::RunProcess(
                program@,
                crate::data::texts(args@),
            ),
            Action::Finish(r) => Step::Finish(crate::error::outcome_view(*r)),
        }
    }
}

/// A compiled backend, given as a template for others: it wraps the snippet
/// in an entry point, compiles it in a working directory of its own and runs
/// the artifact.
#[allow(non_camel_case_types)]
pub struct Language_subname {
    /// The negotiated level of this run.
    pub support_level: SupportLevel,
    /// The caller's request, never changed.
    pub data: DataHolder,
    /// The working code.
    pub code: String,
    /// The backend's directory under the scratch root.
    pub language_work_dir: String,
    /// The compiled artifact of this run.
    pub bin_path: String,
    /// The source file of this run.
    pub main_file_path: String,
    /// Where the run is.
    pub stage: Stage,
}

/// The backend's directory under the scratch root.
pub open spec fn backend_dir(data: DataHolder) -> Seq<char> {
    data.work_dir@ + "/language_subname"@
}

/// The artifact of the run tagged `tag`.
pub open spec fn artifact_path(data: DataHolder, tag: Seq<char>) -> Seq<char> {
    backend_dir(data) + "/main_"@ + tag
}

/// The source file of the run tagged `tag`.
pub open spec fn source_path(data: DataHolder, tag: Seq<char>) -> Seq<char> {
    artifact_path(data, tag) + ".extension"@
}

/// The compiler's arguments for a run.
pub open spec fn build_args(b: Language_subname) -> Seq<Seq<char>> {
    seq!["--optimize"@, "--out-dir"@, b.language_work_dir@, b.main_file_path@]
}

impl Language_subname {
    /// A fresh run over `data` at `level`. Its files are named after
    /// `run_tag`, so that runs with distinct tags never share a file.
    pub fn new_with_level(data: DataHolder, level: SupportLevel, run_tag: &String) -> (r: Self)
        ensures
            r.data == data,
            r.support_level == level,
            r.code@ == Seq::<char>::empty(),
            r.language_work_dir@ == backend_dir(data),
            r.bin_path@ == artifact_path(data, run_tag@),
            r.main_file_path@ == source_path(data, run_tag@),
            r.stage == Stage::Fresh,
    {
        let mut lwd = data.work_dir.clone();
        lwd.append("/language_subname");
        let mut bp = lwd.clone();
        bp.append("/main_");
        bp.append(run_tag.as_str());
        let mut mfp = bp.clone();
        mfp.append(".extension");
        Language_subname {
            support_level: level,
            data,
            code: String::new(),
            language_work_dir: lwd,
            bin_path: bp,
            main_file_path: mfp,
            stage: Stage::Fresh,
        }
    }

    /// The language tags that this backend accepts.
    pub fn get_supported_languages() -> (r: Vec<String>)
        ensures
            crate::data::texts(r@) == seq!["language_filetype"@, "extension"@],
    {
        let mut v: Vec<String> = Vec::new();
        v.push(String::from_str("language_filetype"));
        v.push(String::from_str("extension"));
        proof {
            assert(crate::data::texts(v@) =~= seq!["language_filetype"@, "extension"@]);
        }
        v
    }

    /// The name under which this backend is registered.
    pub fn get_name() -> (r: String)
        ensures
            r@ == "Language_subname"@,
    {
        String::from_str("Language_subname")
    }

    /// The most that this backend can run.
    pub fn get_max_support_level() -> (r: SupportLevel)
        ensures
            r == SupportLevel::Bloc,
    {
        SupportLevel::Bloc
    }

    /// This backend's registry entry.
    pub fn entry() -> (r: BackendEntry)
        ensures
            r.name@ == "Language_subname"@,
            crate::data::texts(r.languages@) == seq!["language_filetype"@, "extension"@],
            r.max_level == SupportLevel::Bloc,
    {
        BackendEntry {
            name: Self::get_name(),
            languages: Self::get_supported_languages(),
            max_level: Self::get_max_support_level(),
        }
    }

    pub fn get_current_level(&self) -> (r: SupportLevel)
        ensures
            r == self.support_level,
    {
        self.support_level
    }

    pub fn set_current_level(&mut self, level: SupportLevel)
        ensures
            final(self).support_level == level,
            final(self).data == old(self).data,
            final(self).code == old(self).code,
            final(self).language_work_dir == old(self).language_work_dir,
            final(self).bin_path == old(self).bin_path,
            final(self).main_file_path == old(self).main_file_path,
            final(self).stage == old(self).stage,
    {
        self.support_level = level;
    }

    pub fn get_data(&self) -> (r: &DataHolder)
        ensures
            *r == self.data,
    {
        &self.data
    }

    /// Fetch stage: brings the current level down to what this backend can
    /// run, then keeps the block or the line as the working code.
    pub fn fetch_code(&mut self) -> (r: Result<(), SniprunError>)
        ensures
            r is Ok,
            final(self).support_level == capped(old(self).support_level, SupportLevel::Bloc),
            final(self).code@ == fetched(old(self).data, final(self).support_level),
            final(self).data == old(self).data,
            final(self).language_work_dir == old(self).language_work_dir,
            final(self).bin_path == old(self).bin_path,
            final(self).main_file_path == old(self).main_file_path,
            final(self).stage == old(self).stage,
    {
        self.support_level = self.support_level.capped_at(Self::get_max_support_level());
        self.code = fetch_form(&self.data, self.support_level);
        Ok(())
    }

    /// Transform stage: wraps the working code in an entry point.
    pub fn add_boilerplate(&mut self) -> (r: Result<(), SniprunError>)
        ensures
            r is Ok,
            final(self).code@ == wrapped(old(self).code@),
            final(self).support_level == old(self).support_level,
            final(self).data == old(self).data,
            final(self).language_work_dir == old(self).language_work_dir,
            final(self).bin_path == old(self).bin_path,
            final(self).main_file_path == old(self).main_file_path,
            final(self).stage == old(self).stage,
    {
        let mut c = String::from_str("fn main() {");
        c.append(self.code.as_str());
        c.append("}");
        self.code = c;
        Ok(())
    }

    /// The compiler invocation of the build stage.
    pub fn build_command(&self) -> (r: Action)
        ensures
            r@ == Step::RunProcess("compiler"@, build_args(*self)),
    {
        let mut args: Vec<String> = Vec::new();
        args.push(String::from_str("--optimize"));
        args.push(String::from_str("--out-dir"));
        args.push(self.language_work_dir.clone());
        args.push(self.main_file_path.clone());
        proof {
            assert(crate::data::texts(args@) =~= build_args(*self));
        }
        Action::RunProcess { program: String::from_str("compiler"), args }
    }
}

/// The model of a run: its level, its request, its paths, its working code
/// and its stage.
pub ghost struct RunState {
    pub level: SupportLevel,
    pub data: DataHolder,
    pub work_dir: Seq<char>,
    pub bin: Seq<char>,
    pub source: Seq<char>,
    pub code: Seq<char>,
    pub stage: Stage,
}

impl View for Language_subname {
    type V = RunState;

    open spec fn view(&self) -> RunState {
        RunState {
            level: self.support_level,
            data: self.data,
            work_dir: self.language_work_dir@,
            bin: self.bin_path@,
            source: self.main_file_path@,
            code: self.code@,
            stage: self.stage,
        }
    }
}

/// Whether a run at stage `stage` is waiting for an event of the kind of `ev`.
pub open spec fn awaits(stage: Stage, ev: Event) -> bool {
    match stage {
        Stage::Fresh => ev is Begin,
        Stage::CreatingDir => ev is IoDone,
        Stage::WritingSource => ev is IoDone,
        Stage::Compiling => ev is ProcessFinished || ev is SpawnFailed,
        Stage::Running => ev is ProcessFinished || ev is SpawnFailed,
        Stage::Finished => false,
    }
}

/// The run's state after `s` moves to stage `stage`, with code `code`.
pub open spec fn moved(s: RunState, stage: Stage, code: Seq<char>) -> RunState {
    RunState { stage, code, ..s }
}

/// One transition of the pipeline: the next state and the action to perform.
/// Fetch and transform happen on `Begin`, where a level above `Bloc` comes
/// down to `Bloc`; each failure ends the run with its
/// error, and a failed build never leads to an execution.
pub open spec fn next(s: RunState, ev: Event) -> (RunState, Step) {
    let done = |f: Failure| (moved(s, Stage::Finished, s.code), Step::Finish(Err(f)));
    match (s.stage, ev) {
        (Stage::Fresh, Event::Begin) => {
            let level = capped(s.level, SupportLevel::Bloc);
            (
                RunState {
                    level,
                    stage: Stage::CreatingDir,
                    code: wrapped(fetched(s.data, level)),
                    ..s
                },
                Step::CreateDir(s.work_dir),
            )
        },
        (Stage::CreatingDir, Event::IoDone(Ok(_))) => (
            moved(s, Stage::WritingSource, s.code),
            Step::WriteFile(s.source, s.code),
        ),
        (Stage::WritingSource, Event::IoDone(Ok(_))) => (
            moved(s, Stage::Compiling, s.code),
            Step::RunProcess(
                "compiler"@,
                seq!["--optimize"@, "--out-dir"@, s.work_dir, s.source],
            ),
        ),
        (Stage::CreatingDir, Event::IoDone(Err(m))) => done(Failure::FileSystemError(m@)),
        (Stage::WritingSource, Event::IoDone(Err(m))) => done(Failure::FileSystemError(m@)),
        (Stage::Compiling, Event::ProcessFinished(o)) => match build_result(o) {
            Ok(_) => (moved(s, Stage::Running, s.code), Step::RunProcess(s.bin, Seq::empty())),
            Err(f) => done(f),
        },
        (Stage::Compiling, Event::SpawnFailed(m)) => done(Failure::CompilationError(m@)),
        (Stage::Running, Event::ProcessFinished(o)) => (
            moved(s, Stage::Finished, s.code),
            Step::Finish(execute_result(o)),
        ),
        (Stage::Running, Event::SpawnFailed(m)) => done(Failure::RuntimeError(m@)),
        _ => (s, Step::Finish(Err(Failure::NoInterpreterFound))),
    }
}

impl Language_subname {
    /// Whether the run is waiting for an event of the kind of `ev`.
    pub fn awaits_event(&self, ev: &Event) -> (r: bool)
        ensures
            r == awaits(self.stage, *ev),
    {
        match self.stage {
            Stage::Fresh => matches!(ev, Event::Begin),
            Stage::CreatingDir => matches!(ev, Event::IoDone(_)),
            Stage::WritingSource => matches!(ev, Event::IoDone(_)),
            Stage::Compiling => matches!(ev, Event::ProcessFinished(_) | Event::SpawnFailed(_)),
            Stage::Running => matches!(ev, Event::ProcessFinished(_) | Event::SpawnFailed(_)),
            Stage::Finished => false,
        }
    }

    /// Advances the run by one event and returns what to do next.
    pub fn step(&mut self, ev: Event) -> (r: Action)
        requires
            awaits(old(self).stage, ev),
        ensures
            (final(self)@, r@) == next(old(self)@, ev),
    {
        match ev {
            Event::Begin => {
                let _ = self.fetch_code();
                let _ = self.add_boilerplate();
                self.stage = Stage::CreatingDir;
                Action::CreateDir(self.language_work_dir.clone())
            },
            Event::IoDone(Ok(_)) => {
                if self.stage == Stage::CreatingDir {
                    self.stage = Stage::WritingSource;
                    Action::WriteFile {
                        path: self.main_file_path.clone(),
                        contents: self.code.clone(),
                    }
                } else {
                    self.stage = Stage::Compiling;
                    self.build_command()
                }
            },
            Event::IoDone(Err(m)) => {
                self.stage = Stage::Finished;
                Action::Finish(Err(SniprunError::FileSystemError(m)))
            },
            Event::ProcessFinished(o) => {
                if self.stage == Stage::Compiling {
                    match build_verdict(o) {
                        Ok(_) => {
                            self.stage = Stage::Running;
                            let args: Vec<String> = Vec::new();
                            proof {
                                assert(crate::data::texts(args@) =~= Seq::<Seq<char>>::empty());
                            }
                            Action::RunProcess { program: self.bin_path.clone(), args }
                        },
                        Err(e) => {
                            self.stage = Stage::Finished;
                            Action::Finish(Err(e))
                        },
                    }
                } else {
                    self.stage = Stage::Finished;
                    Action::Finish(execute_verdict(o))
                }
            },
            Event::SpawnFailed(m) => {
                if self.stage == Stage::Compiling {
                    self.stage = Stage::Finished;
                    Action::Finish(Err(SniprunError::CompilationError(m)))
                } else {
                    self.stage = Stage::Finished;
                    Action::Finish(Err(SniprunError::RuntimeError(m)))
                }
            },
        }
    }
}

/// Fetch's choice of form: at `Bloc` with both forms non-blank the block is
/// kept; at `Line` with a blank block and a non-blank line the line is kept;
/// with both blank the working code is empty, at any level.
pub proof fn lemma_fetch_forms(data: DataHolder, level: SupportLevel)
    ensures
        level == SupportLevel::Bloc && !blank(data.current_bloc@) && !blank(data.current_line@)
            ==> fetched(data, level) == data.current_bloc@,
        level == SupportLevel::Line && blank(data.current_bloc@) && !blank(data.current_line@)
            ==> fetched(data, level) == data.current_line@,
        blank(data.current_bloc@) && blank(data.current_line@) ==> fetched(data, level)
            == Seq::<char>::empty(),
{
}

/// What a run makes of its compiler's exit `b` and its artifact's exit `e`:
/// a failed build ends it with the build's error, else the execution decides.
pub open spec fn run_result(b: ProcessOutput, e: ProcessOutput) -> Result<Seq<char>, Failure> {
    match build_result(b) {
        Err(f) => Err(f),
        Ok(_) => execute_result(e),
    }
}

/// The last action of a fresh run whose directory creation and file write
/// succeed, whose compiler exits with `b` and, where the build succeeds,
/// whose artifact exits with `e`.
pub open spec fn last_step(s: RunState, b: ProcessOutput, e: ProcessOutput) -> Step {
    let s1 = next(s, Event::Begin).0;
    let s2 = next(s1, Event::IoDone(Ok(()))).0;
    let s3 = next(s2, Event::IoDone(Ok(()))).0;
    let (s4, a4) = next(s3, Event::ProcessFinished(b));
    if s4.stage == Stage::Finished {
        a4
    } else {
        next(s4, Event::ProcessFinished(e)).1
    }
}

/// Whether two process exits are alike: same status, same bytes.
pub open spec fn same_exit(x: ProcessOutput, y: ProcessOutput) -> bool {
    x.success == y.success && x.stdout@ == y.stdout@ && x.stderr@ == y.stderr@
}

/// Running again gives the same result: two fresh runs over the same request
/// at the same level, each with its own paths, whose tools exit alike, end
/// with the same classification and the same text; a failed build ends the
/// run before anything is executed.
pub proof fn lemma_rerun_repeatable(
    s: RunState,
    t: RunState,
    b1: ProcessOutput,
    b2: ProcessOutput,
    e1: ProcessOutput,
    e2: ProcessOutput,
)
    requires
        s.stage == Stage::Fresh,
        t.stage == Stage::Fresh,
        s.data == t.data,
        s.level == t.level,
        same_exit(b1, b2),
        same_exit(e1, e2),
    ensures
        last_step(s, b1, e1) == Step::Finish(run_result(b1, e1)),
        last_step(t, b2, e2) == Step::Finish(run_result(b2, e2)),
        run_result(b1, e1) == run_result(b2, e2),
{
}

} // verus!

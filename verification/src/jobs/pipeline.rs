//! The build-and-compare pipeline of a `Build` job.

use vstd::prelude::*;
use vstd::string::*;
use vstd::utf8::*;
use crate::app::AppConfig;
use crate::app::AppConfigView;
use crate::jobs::opt_text;
use crate::jobs::update_status;
use crate::jobs::JobResult;
use crate::jobs::JobResultView;
use crate::jobs::Status;
use crate::jobs::StatusView;
use crate::paths::path_below;
use crate::paths::pushed_path;
use crate::paths::push_path;
use crate::paths::strip_prefix;

verus! {

/// How the build of one side went.
#[derive(Debug)]
pub struct BuildStatus {
    pub success: bool,
    pub log: String,
}

/// Mathematical content of a [`BuildStatus`].
pub struct BuildStatusView {
    pub success: bool,
    pub log: Seq<char>,
}

impl View for BuildStatus {
    type V = BuildStatusView;

    open spec fn view(&self) -> BuildStatusView {
        BuildStatusView { success: self.success, log: self.log@ }
    }
}

/// What running the build tool gave: it could not be launched, or it exited
/// with a code (absent when a signal ended it) and its two captured streams.
#[derive(Debug)]
pub enum MakeOutput {
    LaunchFailed,
    Exited { code: Option<i32>, stdout: Vec<u8>, stderr: Vec<u8> },
}

/// The status that a run of the build tool amounts to. The build succeeded
/// when the exit code is zero; the log is the two streams, a line break
/// between them. A launch failure or a stream that is not UTF-8 gives a
/// failed status whose log names the failure.
pub open spec fn make_status(output: MakeOutput) -> BuildStatusView {
    match output {
        MakeOutput::LaunchFailed => BuildStatusView {
            success: false,
            log: "Failed to execute build"@,
        },
        MakeOutput::Exited { code, stdout, stderr } => {
            if !valid_utf8(stdout@) {
                BuildStatusView { success: false, log: "Failed to process stdout"@ }
            } else if !valid_utf8(stderr@) {
                BuildStatusView { success: false, log: "Failed to process stderr"@ }
            } else {
                BuildStatusView {
                    success: code == Some(0i32),
                    log: decode_utf8(stdout@) + seq!['\n'] + decode_utf8(stderr@),
                }
            }
        },
    }
}

/// Calls `std::str::from_utf8`. Trusted: the call succeeds exactly on valid
/// UTF-8, and the text it gives is the decoding of the bytes.
#[verifier::external_body]
fn decode_text(bytes: &Vec<u8>) -> (r: Option<String>)
    ensures
        r is Some <==> valid_utf8(bytes@),
        r is Some ==> r->0@ == decode_utf8(bytes@),
{
    match std::str::from_utf8(bytes.as_slice()) {
        Ok(text) => Some(text.to_owned()),
        Err(_) => None,
    }
}

impl BuildStatus {
    /// The status of a side from what running the build tool gave.
    pub fn from_output(output: MakeOutput) -> (s: BuildStatus)
        ensures
            s@ == make_status(output),
    {
        match output {
            MakeOutput::LaunchFailed => BuildStatus {
                success: false,
                log: String::from_str("Failed to execute build"),
            },
            MakeOutput::Exited { code, stdout, stderr } => {
                let out = match decode_text(&stdout) {
                    Some(text) => text,
                    None => {
                        return BuildStatus {
                            success: false,
                            log: String::from_str("Failed to process stdout"),
                        };
                    },
                };
                let err = match decode_text(&stderr) {
                    Some(text) => text,
                    None => {
                        return BuildStatus {
                            success: false,
                            log: String::from_str("Failed to process stderr"),
                        };
                    },
                };
                let success = match code {
                    Some(c) => c == 0,
                    None => false,
                };
                proof {
                    reveal_strlit("\n");
                    assert("\n"@ =~= seq!['\n']);
                }
                BuildStatus { success, log: out.concat("\n").concat(err.as_str()) }
            },
        }
    }
}

/// Why no build could be planned: the configuration could not be read, a
/// directory is not set, or a build root lies outside the project.
#[derive(Clone, Copy, Debug, PartialEq, Eq, Structural)]
pub enum ConfigError {
    ConfigLocked,
    MissingProjectDir,
    MissingAsmDir,
    MissingSrcDir,
    AsmOutsideProject,
    SrcOutsideProject,
}

impl ConfigError {
    /// The message under which the failure is reported.
    pub open spec fn text(self) -> Seq<char> {
        match self {
            ConfigError::ConfigLocked => "Failed to lock app config"@,
            ConfigError::MissingProjectDir => "Missing project dir"@,
            ConfigError::MissingAsmDir => "Missing build asm dir"@,
            ConfigError::MissingSrcDir => "Missing build src dir"@,
            ConfigError::AsmOutsideProject => "Failed to create relative asm obj path"@,
            ConfigError::SrcOutsideProject => "Failed to create relative src obj path"@,
        }
    }

    pub fn message(&self) -> (m: String)
        ensures
            m@ == self.text(),
    {
        match self {
            ConfigError::ConfigLocked => String::from_str("Failed to lock app config"),
            ConfigError::MissingProjectDir => String::from_str("Missing project dir"),
            ConfigError::MissingAsmDir => String::from_str("Missing build asm dir"),
            ConfigError::MissingSrcDir => String::from_str("Missing build src dir"),
            ConfigError::AsmOutsideProject => String::from_str(
                "Failed to create relative asm obj path",
            ),
            ConfigError::SrcOutsideProject => String::from_str(
                "Failed to create relative src obj path",
            ),
        }
    }
}

/// The paths of one build: the object under both build roots, and the two
/// targets handed to the build tool, relative to the project root.
#[derive(Debug)]
pub struct BuildPlan {
    pub obj_path: String,
    pub project_dir: String,
    pub asm_path: String,
    pub src_path: String,
    pub asm_target: String,
    pub src_target: String,
}

/// Mathematical content of a [`BuildPlan`].
pub struct BuildPlanView {
    pub obj_path: Seq<char>,
    pub project_dir: Seq<char>,
    pub asm_path: Seq<char>,
    pub src_path: Seq<char>,
    pub asm_target: Seq<char>,
    pub src_target: Seq<char>,
}

impl View for BuildPlan {
    type V = BuildPlanView;

    open spec fn view(&self) -> BuildPlanView {
        BuildPlanView {
            obj_path: self.obj_path@,
            project_dir: self.project_dir@,
            asm_path: self.asm_path@,
            src_path: self.src_path@,
            asm_target: self.asm_target@,
            src_target: self.src_target@,
        }
    }
}

/// The content of a planning result.
pub open spec fn plan_content(r: Result<BuildPlan, ConfigError>) -> Result<
    BuildPlanView,
    ConfigError,
> {
    match r {
        Ok(plan) => Ok(plan@),
        Err(e) => Err(e),
    }
}

/// The plan for an object whose two paths and their remainders below the
/// project root are known. The asm side is looked at first.
pub open spec fn plan_of(
    project_dir: Seq<char>,
    obj_path: Seq<char>,
    asm_path: Seq<char>,
    src_path: Seq<char>,
    asm_target: Option<Seq<char>>,
    src_target: Option<Seq<char>>,
) -> Result<BuildPlanView, ConfigError> {
    match (asm_target, src_target) {
        (None, _) => Err(ConfigError::AsmOutsideProject),
        (Some(_), None) => Err(ConfigError::SrcOutsideProject),
        (Some(asm_target), Some(src_target)) => Ok(
            BuildPlanView { obj_path, project_dir, asm_path, src_path, asm_target, src_target },
        ),
    }
}

/// The plan that a configuration gives for an object: each directory must be
/// set, the object is looked up under both build roots, and both paths must
/// lie below the project root.
pub open spec fn resolve(config: AppConfigView, obj_path: Seq<char>) -> Result<
    BuildPlanView,
    ConfigError,
> {
    match (config.project_dir, config.build_asm_dir, config.build_src_dir) {
        (None, _, _) => Err(ConfigError::MissingProjectDir),
        (Some(_), None, _) => Err(ConfigError::MissingAsmDir),
        (Some(_), Some(_), None) => Err(ConfigError::MissingSrcDir),
        (Some(project), Some(asm_dir), Some(src_dir)) => {
            let asm_path = pushed_path(asm_dir, obj_path);
            let src_path = pushed_path(src_dir, obj_path);
            plan_of(
                project,
                obj_path,
                asm_path,
                src_path,
                path_below(asm_path, project),
                path_below(src_path, project),
            )
        },
    }
}

/// Puts a plan together from paths that were already computed.
pub fn assemble_plan(
    project_dir: String,
    obj_path: String,
    asm_path: String,
    src_path: String,
    asm_target: Option<String>,
    src_target: Option<String>,
) -> (r: Result<BuildPlan, ConfigError>)
    ensures
        plan_content(r) == plan_of(
            project_dir@,
            obj_path@,
            asm_path@,
            src_path@,
            opt_text(asm_target),
            opt_text(src_target),
        ),
{
    let asm_target = match asm_target {
        Some(t) => t,
        None => {
            return Err(ConfigError::AsmOutsideProject);
        },
    };
    let src_target = match src_target {
        Some(t) => t,
        None => {
            return Err(ConfigError::SrcOutsideProject);
        },
    };
    Ok(BuildPlan { obj_path, project_dir, asm_path, src_path, asm_target, src_target })
}

/// Resolves the paths of a build of `obj_path` under a configuration.
pub fn plan_build(config: &AppConfig, obj_path: &str) -> (r: Result<BuildPlan, ConfigError>)
    ensures
        plan_content(r) == resolve(config@, obj_path@),
{
    let project_dir = match &config.project_dir {
        Some(dir) => dir,
        None => {
            return Err(ConfigError::MissingProjectDir);
        },
    };
    let asm_dir = match &config.build_asm_dir {
        Some(dir) => dir,
        None => {
            return Err(ConfigError::MissingAsmDir);
        },
    };
    let src_dir = match &config.build_src_dir {
        Some(dir) => dir,
        None => {
            return Err(ConfigError::MissingSrcDir);
        },
    };
    let asm_path = push_path(asm_dir.as_str(), obj_path);
    let src_path = push_path(src_dir.as_str(), obj_path);
    let asm_target = strip_prefix(asm_path.as_str(), project_dir.as_str());
    let src_target = strip_prefix(src_path.as_str(), project_dir.as_str());
    assemble_plan(
        project_dir.clone(),
        obj_path.to_owned(),
        asm_path,
        src_path,
        asm_target,
        src_target,
    )
}

/// What a `Build` job produces: the status of each side, and the loaded
/// object of each side whose build succeeded.
#[derive(Debug)]
pub struct BuildResult<O> {
    pub first_status: BuildStatus,
    pub second_status: BuildStatus,
    pub first_obj: Option<O>,
    pub second_obj: Option<O>,
}

/// Mathematical content of a [`BuildResult`].
pub struct BuildResultView<O> {
    pub first_status: BuildStatusView,
    pub second_status: BuildStatusView,
    pub first_obj: Option<O>,
    pub second_obj: Option<O>,
}

impl<O> View for BuildResult<O> {
    type V = BuildResultView<O>;

    open spec fn view(&self) -> BuildResultView<O> {
        BuildResultView {
            first_status: self.first_status@,
            second_status: self.second_status@,
            first_obj: self.first_obj,
            second_obj: self.second_obj,
        }
    }
}

/// The number of steps that a build reports.
pub const TOTAL_STEPS: u32 = 5;

/// What a run is waiting for, with what it has gathered so far.
#[derive(Debug)]
pub enum RunState<O> {
    AsmBuild,
    SrcBuild { first: BuildStatus },
    AsmLoad { first: BuildStatus, second: BuildStatus },
    SrcLoad { first: BuildStatus, second: BuildStatus, first_obj: Option<O> },
    Diff { first: BuildStatus, second: BuildStatus },
    Finished,
}

/// Mathematical content of a [`RunState`].
pub enum RunStateView<O> {
    AsmBuild,
    SrcBuild { first: BuildStatusView },
    AsmLoad { first: BuildStatusView, second: BuildStatusView },
    SrcLoad { first: BuildStatusView, second: BuildStatusView, first_obj: Option<O> },
    Diff { first: BuildStatusView, second: BuildStatusView },
    Finished,
}

impl<O> View for RunState<O> {
    type V = RunStateView<O>;

    open spec fn view(&self) -> RunStateView<O> {
        match *self {
            RunState::AsmBuild => RunStateView::AsmBuild,
            RunState::SrcBuild { first } => RunStateView::SrcBuild { first: first@ },
            RunState::AsmLoad { first, second } => RunStateView::AsmLoad {
                first: first@,
                second: second@,
            },
            RunState::SrcLoad { first, second, first_obj } => RunStateView::SrcLoad {
                first: first@,
                second: second@,
                first_obj,
            },
            RunState::Diff { first, second } => RunStateView::Diff {
                first: first@,
                second: second@,
            },
            RunState::Finished => RunStateView::Finished,
        }
    }
}

/// One run of the pipeline, between two pieces of outside work.
#[derive(Debug)]
pub struct BuildRun<O> {
    pub plan: BuildPlan,
    pub state: RunState<O>,
}

/// Mathematical content of a [`BuildRun`].
pub struct BuildRunView<O> {
    pub plan: BuildPlanView,
    pub state: RunStateView<O>,
}

impl<O> View for BuildRun<O> {
    type V = BuildRunView<O>;

    open spec fn view(&self) -> BuildRunView<O> {
        BuildRunView { plan: self.plan@, state: self.state@ }
    }
}

/// The outside work that the worker is asked to do next, or the end of the
/// run. `Invalid` answers an event that the run was not waiting for.
#[derive(Debug)]
pub enum Command<O> {
    Make { cwd: String, target: String },
    Load { path: String },
    Diff { first: O, second: O },
    Finish(JobResult<O>),
    Invalid,
}

/// Mathematical content of a [`Command`].
pub enum CommandView<O> {
    Make { cwd: Seq<char>, target: Seq<char> },
    Load { path: Seq<char> },
    Diff { first: O, second: O },
    Finish(JobResultView<O>),
    Invalid,
}

impl<O> View for Command<O> {
    type V = CommandView<O>;

    open spec fn view(&self) -> CommandView<O> {
        match *self {
            Command::Make { cwd, target } => CommandView::Make { cwd: cwd@, target: target@ },
            Command::Load { path } => CommandView::Load { path: path@ },
            Command::Diff { first, second } => CommandView::Diff { first, second },
            Command::Finish(result) => CommandView::Finish(result@),
            Command::Invalid => CommandView::Invalid,
        }
    }
}

/// The result of a piece of outside work, handed back to the run.
#[derive(Debug)]
pub enum Event<O> {
    Made(BuildStatus),
    Loaded(Result<O, String>),
    Diffed(Result<(O, O), String>),
}

/// One step of a run: the run and the status after it, and what it asks for.
pub struct Transition<O> {
    pub run: BuildRunView<O>,
    pub status: StatusView,
    pub command: CommandView<O>,
}

/// The content of a run, a status and a command, taken together.
pub open spec fn transition_of<O>(run: BuildRun<O>, status: Status, command: Command<O>)
    -> Transition<O> {
    Transition { run: run@, status: status@, command: command@ }
}

/// The end of a run: nothing more is waited for.
pub open spec fn finish<O>(plan: BuildPlanView, status: StatusView, result: JobResultView<O>)
    -> Transition<O> {
    Transition {
        run: BuildRunView { plan, state: RunStateView::Finished },
        status,
        command: CommandView::Finish(result),
    }
}

/// A stage boundary: the status is overwritten with the stage's message and
/// step; then, if cancellation was requested, the run ends without a result,
/// else it goes on to wait in `state` for the answer to `command`.
pub open spec fn checkpoint<O>(
    plan: BuildPlanView,
    status: StatusView,
    message: Seq<char>,
    step: u32,
    cancel: bool,
    state: RunStateView<O>,
    command: CommandView<O>,
) -> Transition<O> {
    let reported = status.report(message, step, TOTAL_STEPS);
    if cancel {
        finish(plan, reported, JobResultView::Empty)
    } else {
        Transition { run: BuildRunView { plan, state }, status: reported, command }
    }
}

/// A fatal failure: the error is attached to the status and the run ends
/// without a result.
pub open spec fn fail<O>(plan: BuildPlanView, status: StatusView, error: Seq<char>) -> Transition<
    O,
> {
    finish(plan, status.fail(error), JobResultView::Empty)
}

/// Stage 1: the asm side is built.
pub open spec fn begin<O>(plan: BuildPlanView, status: StatusView, cancel: bool) -> Transition<O> {
    checkpoint(
        plan,
        status,
        "Building asm "@ + plan.obj_path,
        0,
        cancel,
        RunStateView::AsmBuild,
        CommandView::Make { cwd: plan.project_dir, target: plan.asm_target },
    )
}

/// Stage 2: the source side is built, however the asm side went.
pub open spec fn after_asm_build<O>(
    plan: BuildPlanView,
    first: BuildStatusView,
    status: StatusView,
    cancel: bool,
) -> Transition<O> {
    checkpoint(
        plan,
        status,
        "Building src "@ + plan.obj_path,
        1,
        cancel,
        RunStateView::SrcBuild { first },
        CommandView::Make { cwd: plan.project_dir, target: plan.src_target },
    )
}

/// Stage 3: the asm object is loaded if its build succeeded, else the side
/// stays absent.
pub open spec fn after_builds<O>(
    plan: BuildPlanView,
    first: BuildStatusView,
    second: BuildStatusView,
    status: StatusView,
    cancel: bool,
) -> Transition<O> {
    if first.success {
        checkpoint(
            plan,
            status,
            "Loading asm "@ + plan.obj_path,
            2,
            cancel,
            RunStateView::AsmLoad { first, second },
            CommandView::Load { path: plan.asm_path },
        )
    } else {
        after_asm_load(plan, first, second, None, status, cancel)
    }
}

/// Stage 4: the source object is loaded if its build succeeded.
pub open spec fn after_asm_load<O>(
    plan: BuildPlanView,
    first: BuildStatusView,
    second: BuildStatusView,
    first_obj: Option<O>,
    status: StatusView,
    cancel: bool,
) -> Transition<O> {
    if second.success {
        checkpoint(
            plan,
            status,
            "Loading src "@ + plan.obj_path,
            3,
            cancel,
            RunStateView::SrcLoad { first, second, first_obj },
            CommandView::Load { path: plan.src_path },
        )
    } else {
        after_loads(plan, first, second, first_obj, None, status, cancel)
    }
}

/// Stage 5: the two objects are compared if both are there, else the stage
/// is skipped.
pub open spec fn after_loads<O>(
    plan: BuildPlanView,
    first: BuildStatusView,
    second: BuildStatusView,
    first_obj: Option<O>,
    second_obj: Option<O>,
    status: StatusView,
    cancel: bool,
) -> Transition<O> {
    match (first_obj, second_obj) {
        (Some(a), Some(b)) => checkpoint(
            plan,
            status,
            "Performing diff"@,
            4,
            cancel,
            RunStateView::Diff { first, second },
            CommandView::Diff { first: a, second: b },
        ),
        _ => complete(plan, first, second, first_obj, second_obj, status, cancel),
    }
}

/// The terminal report, and the result of the run.
pub open spec fn complete<O>(
    plan: BuildPlanView,
    first: BuildStatusView,
    second: BuildStatusView,
    first_obj: Option<O>,
    second_obj: Option<O>,
    status: StatusView,
    cancel: bool,
) -> Transition<O> {
    checkpoint(
        plan,
        status,
        "Complete"@,
        TOTAL_STEPS,
        cancel,
        RunStateView::Finished,
        CommandView::Finish(
            JobResultView::Build(
                BuildResultView { first_status: first, second_status: second, first_obj, second_obj },
            ),
        ),
    )
}

impl<O> BuildRunView<O> {
    /// The step that an event causes. An event that the run is not waiting
    /// for changes nothing.
    pub open spec fn advance(self, event: Event<O>, status: StatusView, cancel: bool)
        -> Transition<O> {
        match (self.state, event) {
            (RunStateView::AsmBuild, Event::Made(first)) => after_asm_build(
                self.plan,
                first@,
                status,
                cancel,
            ),
            (RunStateView::SrcBuild { first }, Event::Made(second)) => after_builds(
                self.plan,
                first,
                second@,
                status,
                cancel,
            ),
            (RunStateView::AsmLoad { first, second }, Event::Loaded(Ok(obj))) => after_asm_load(
                self.plan,
                first,
                second,
                Some(obj),
                status,
                cancel,
            ),
            (RunStateView::AsmLoad { .. }, Event::Loaded(Err(e))) => fail(self.plan, status, e@),
            (RunStateView::SrcLoad { first, second, first_obj }, Event::Loaded(Ok(obj))) =>
                after_loads(self.plan, first, second, first_obj, Some(obj), status, cancel),
            (RunStateView::SrcLoad { .. }, Event::Loaded(Err(e))) => fail(self.plan, status, e@),
            (RunStateView::Diff { first, second }, Event::Diffed(Ok((a, b)))) => complete(
                self.plan,
                first,
                second,
                Some(a),
                Some(b),
                status,
                cancel,
            ),
            (RunStateView::Diff { .. }, Event::Diffed(Err(e))) => fail(self.plan, status, e@),
            _ => Transition { run: self, status, command: CommandView::Invalid },
        }
    }
}

/// A stage's message: a fixed prefix and the object's path.
fn stage_message(prefix: &str, plan: &BuildPlan) -> (m: String)
    ensures
        m@ == prefix@ + plan.obj_path@,
{
    String::from_str(prefix).concat(plan.obj_path.as_str())
}

impl<O> BuildRun<O> {
    fn checkpoint(
        plan: BuildPlan,
        status: &mut Status,
        message: String,
        step: u32,
        cancel: bool,
        state: RunState<O>,
        command: Command<O>,
    ) -> (r: (BuildRun<O>, Command<O>))
        ensures
            transition_of(r.0, *final(status), r.1) == checkpoint(
                plan@,
                old(status)@,
                message@,
                step,
                cancel,
                state@,
                command@,
            ),
    {
        match update_status(status, message, step, TOTAL_STEPS, cancel) {
            Ok(_) => (BuildRun { plan, state }, command),
            Err(_) => (
                BuildRun { plan, state: RunState::Finished },
                Command::Finish(JobResult::Empty),
            ),
        }
    }

    fn fail(plan: BuildPlan, status: &mut Status, error: String) -> (r: (BuildRun<O>, Command<O>))
        ensures
            transition_of(r.0, *final(status), r.1) == fail::<O>(plan@, old(status)@, error@),
    {
        status.error = Some(error);
        (BuildRun { plan, state: RunState::Finished }, Command::Finish(JobResult::Empty))
    }

    /// Starts a run on a plan: reports the first stage and asks for the asm
    /// build, unless cancellation was requested already.
    pub fn begin(plan: BuildPlan, status: &mut Status, cancel: bool) -> (r: (
        BuildRun<O>,
        Command<O>,
    ))
        ensures
            transition_of(r.0, *final(status), r.1) == begin::<O>(plan@, old(status)@, cancel),
    {
        let message = stage_message("Building asm ", &plan);
        let command = Command::Make {
            cwd: plan.project_dir.clone(),
            target: plan.asm_target.clone(),
        };
        Self::checkpoint(plan, status, message, 0, cancel, RunState::AsmBuild, command)
    }

    /// Ends a job for which no build could be planned: the failure is
    /// attached to the status and no stage is reported.
    pub fn reject(status: &mut Status, error: ConfigError)
        ensures
            final(status)@ == old(status)@.fail(error.text()),
    {
        status.error = Some(error.message());
    }

    /// Starts a run from the configuration. Where no build can be planned,
    /// the failure is attached to the status and no stage is reported.
    pub fn start(config: &AppConfig, obj_path: &str, status: &mut Status, cancel: bool) -> (r:
        Result<(BuildRun<O>, Command<O>), ConfigError>)
        ensures
            match resolve(config@, obj_path@) {
                Ok(plan) => r is Ok && transition_of(r->Ok_0.0, *final(status), r->Ok_0.1)
                    == begin::<O>(plan, old(status)@, cancel),
                Err(e) => r == Err::<(BuildRun<O>, Command<O>), ConfigError>(e) && final(status)@
                    == old(status)@.fail(e.text()),
            },
    {
        match plan_build(config, obj_path) {
            Ok(plan) => Ok(Self::begin(plan, status, cancel)),
            Err(e) => {
                Self::reject(status, e);
                Err(e)
            },
        }
    }

    fn after_asm_build(plan: BuildPlan, first: BuildStatus, status: &mut Status, cancel: bool)
        -> (r: (BuildRun<O>, Command<O>))
        ensures
            transition_of(r.0, *final(status), r.1) == after_asm_build::<O>(
                plan@,
                first@,
                old(status)@,
                cancel,
            ),
    {
        let message = stage_message("Building src ", &plan);
        let command = Command::Make {
            cwd: plan.project_dir.clone(),
            target: plan.src_target.clone(),
        };
        Self::checkpoint(plan, status, message, 1, cancel, RunState::SrcBuild { first }, command)
    }

    fn after_builds(
        plan: BuildPlan,
        first: BuildStatus,
        second: BuildStatus,
        status: &mut Status,
        cancel: bool,
    ) -> (r: (BuildRun<O>, Command<O>))
        ensures
            transition_of(r.0, *final(status), r.1) == after_builds::<O>(
                plan@,
                first@,
                second@,
                old(status)@,
                cancel,
            ),
    {
        if first.success {
            let message = stage_message("Loading asm ", &plan);
            let command = Command::Load { path: plan.asm_path.clone() };
            Self::checkpoint(
                plan,
                status,
                message,
                2,
                cancel,
                RunState::AsmLoad { first, second },
                command,
            )
        } else {
            Self::after_asm_load(plan, first, second, None, status, cancel)
        }
    }

    fn after_asm_load(
        plan: BuildPlan,
        first: BuildStatus,
        second: BuildStatus,
        first_obj: Option<O>,
        status: &mut Status,
        cancel: bool,
    ) -> (r: (BuildRun<O>, Command<O>))
        ensures
            transition_of(r.0, *final(status), r.1) == after_asm_load(
                plan@,
                first@,
                second@,
                first_obj,
                old(status)@,
                cancel,
            ),
    {
        if second.success {
            let message = stage_message("Loading src ", &plan);
            let command = Command::Load { path: plan.src_path.clone() };
            Self::checkpoint(
                plan,
                status,
                message,
                3,
                cancel,
                RunState::SrcLoad { first, second, first_obj },
                command,
            )
        } else {
            Self::after_loads(plan, first, second, first_obj, None, status, cancel)
        }
    }

    fn after_loads(
        plan: BuildPlan,
        first: BuildStatus,
        second: BuildStatus,
        first_obj: Option<O>,
        second_obj: Option<O>,
        status: &mut Status,
        cancel: bool,
    ) -> (r: (BuildRun<O>, Command<O>))
        ensures
            transition_of(r.0, *final(status), r.1) == after_loads(
                plan@,
                first@,
                second@,
                first_obj,
                second_obj,
                old(status)@,
                cancel,
            ),
    {
        match (first_obj, second_obj) {
            (Some(a), Some(b)) => Self::checkpoint(
                plan,
                status,
                String::from_str("Performing diff"),
                4,
                cancel,
                RunState::Diff { first, second },
                Command::Diff { first: a, second: b },
            ),
            (first_obj, second_obj) => Self::complete(
                plan,
                first,
                second,
                first_obj,
                second_obj,
                status,
                cancel,
            ),
        }
    }

    fn complete(
        plan: BuildPlan,
        first: BuildStatus,
        second: BuildStatus,
        first_obj: Option<O>,
        second_obj: Option<O>,
        status: &mut Status,
        cancel: bool,
    ) -> (r: (BuildRun<O>, Command<O>))
        ensures
            transition_of(r.0, *final(status), r.1) == complete(
                plan@,
                first@,
                second@,
                first_obj,
                second_obj,
                old(status)@,
                cancel,
            ),
    {
        let result = BuildResult {
            first_status: first,
            second_status: second,
            first_obj,
            second_obj,
        };
        Self::checkpoint(
            plan,
            status,
            String::from_str("Complete"),
            TOTAL_STEPS,
            cancel,
            RunState::Finished,
            Command::Finish(JobResult::Build(Box::new(result))),
        )
    }

    /// Takes the result of the outside work that was asked for, reports the
    /// next stage, and says what to do next. A failed build only marks its
    /// side; a failed load or comparison ends the run with an error; a
    /// cancellation seen at the stage boundary ends it without one.
    pub fn advance(self, event: Event<O>, status: &mut Status, cancel: bool) -> (r: (
        BuildRun<O>,
        Command<O>,
    ))
        ensures
            transition_of(r.0, *final(status), r.1) == self@.advance(event, old(status)@, cancel),
    {
        let BuildRun { plan, state } = self;
        match (state, event) {
            (RunState::AsmBuild, Event::Made(first)) => Self::after_asm_build(
                plan,
                first,
                status,
                cancel,
            ),
            (RunState::SrcBuild { first }, Event::Made(second)) => Self::after_builds(
                plan,
                first,
                second,
                status,
                cancel,
            ),
            (RunState::AsmLoad { first, second }, Event::Loaded(Ok(obj))) => Self::after_asm_load(
                plan,
                first,
                second,
                Some(obj),
                status,
                cancel,
            ),
            (RunState::AsmLoad { .. }, Event::Loaded(Err(e))) => Self::fail(plan, status, e),
            (RunState::SrcLoad { first, second, first_obj }, Event::Loaded(Ok(obj))) =>
                Self::after_loads(plan, first, second, first_obj, Some(obj), status, cancel),
            (RunState::SrcLoad { .. }, Event::Loaded(Err(e))) => Self::fail(plan, status, e),
            (RunState::Diff { first, second }, Event::Diffed(Ok((a, b)))) => Self::complete(
                plan,
                first,
                second,
                Some(a),
                Some(b),
                status,
                cancel,
            ),
            (RunState::Diff { .. }, Event::Diffed(Err(e))) => Self::fail(plan, status, e),
            (state, _) => (BuildRun { plan, state }, Command::Invalid),
        }
    }
}

} // verus!

//! State of the controller: what is shown, and the shared configuration.

use vstd::prelude::*;
use vstd::string::*;
use crate::jobs::opt_text;
use crate::jobs::pipeline::BuildResult;
use crate::jobs::pipeline::BuildResultView;
use crate::jobs::pipeline::BuildStatus;
use crate::jobs::pipeline::BuildStatusView;
use crate::jobs::BinDiffResult;
use crate::jobs::Job;
use crate::jobs::JobRegistry;
use crate::jobs::JobRegistryView;
use crate::jobs::JobResult;
use crate::jobs::Status;
use crate::jobs::StatusView;
use vstd::view::View as _;

verus! {

/// Which comparison is on screen.
#[derive(Clone, Copy, Debug, PartialEq, Eq, Structural)]
pub enum View {
    SymbolDiff,
    FunctionDiff,
}

impl Default for View {
    fn default() -> (v: View)
        ensures
            v == View::SymbolDiff,
    {
        View::SymbolDiff
    }
}

/// What is compared: the two objects of one source file, or two binaries.
#[derive(Clone, Copy, Debug, PartialEq, Eq, Structural)]
pub enum DiffKind {
    SplitObj,
    WholeBinary,
}

impl Default for DiffKind {
    fn default() -> (k: DiffKind)
        ensures
            k == DiffKind::SplitObj,
    {
        DiffKind::SplitObj
    }
}

/// Build-relevant paths, shared between the control surface and the workers.
#[derive(Debug)]
pub struct AppConfig {
    pub project_dir: Option<String>,
    pub build_asm_dir: Option<String>,
    pub build_src_dir: Option<String>,
    pub build_obj: Option<String>,
    pub left_obj: Option<String>,
    pub right_obj: Option<String>,
    pub project_dir_change: bool,
}

/// Mathematical content of an [`AppConfig`].
pub struct AppConfigView {
    pub project_dir: Option<Seq<char>>,
    pub build_asm_dir: Option<Seq<char>>,
    pub build_src_dir: Option<Seq<char>>,
    pub build_obj: Option<Seq<char>>,
    pub left_obj: Option<Seq<char>>,
    pub right_obj: Option<Seq<char>>,
    pub project_dir_change: bool,
}

impl vstd::view::View for AppConfig {
    type V = AppConfigView;

    open spec fn view(&self) -> AppConfigView {
        AppConfigView {
            project_dir: opt_text(self.project_dir),
            build_asm_dir: opt_text(self.build_asm_dir),
            build_src_dir: opt_text(self.build_src_dir),
            build_obj: opt_text(self.build_obj),
            left_obj: opt_text(self.left_obj),
            right_obj: opt_text(self.right_obj),
            project_dir_change: self.project_dir_change,
        }
    }
}

impl AppConfigView {
    /// The configuration in which nothing is set.
    pub open spec fn empty() -> AppConfigView {
        AppConfigView {
            project_dir: None,
            build_asm_dir: None,
            build_src_dir: None,
            build_obj: None,
            left_obj: None,
            right_obj: None,
            project_dir_change: false,
        }
    }
}

/// A copy of an optional string.
pub fn copy_text(s: &Option<String>) -> (r: Option<String>)
    ensures
        opt_text(r) == opt_text(*s),
{
    match s {
        Some(t) => Some(t.clone()),
        None => None,
    }
}

impl Default for AppConfig {
    fn default() -> (c: AppConfig)
        ensures
            c@ == AppConfigView::empty(),
    {
        AppConfig {
            project_dir: None,
            build_asm_dir: None,
            build_src_dir: None,
            build_obj: None,
            left_obj: None,
            right_obj: None,
            project_dir_change: false,
        }
    }
}

impl AppConfigView {
    /// The configuration as it is taken up when the program starts: a root
    /// that is set counts as changed, so that it is watched and built.
    pub open spec fn restored(self) -> AppConfigView {
        AppConfigView {
            project_dir_change: self.project_dir_change || self.project_dir is Some,
            ..self
        }
    }
}

impl AppConfig {
    /// Marks a configuration that was loaded at the start of the program.
    pub fn mark_restored(&mut self)
        ensures
            final(self)@ == old(self)@.restored(),
    {
        if self.project_dir.is_some() {
            self.project_dir_change = true;
        }
    }
}

impl Clone for AppConfig {
    /// The snapshot a worker takes under the read lock: every field is
    /// copied, so later edits do not reach a build that is in flight.
    fn clone(&self) -> (c: AppConfig)
        ensures
            c@ == self@,
    {
        AppConfig {
            project_dir: copy_text(&self.project_dir),
            build_asm_dir: copy_text(&self.build_asm_dir),
            build_src_dir: copy_text(&self.build_src_dir),
            build_obj: copy_text(&self.build_obj),
            left_obj: copy_text(&self.left_obj),
            right_obj: copy_text(&self.right_obj),
            project_dir_change: self.project_dir_change,
        }
    }
}

/// What the controller shows and tracks: the jobs, the latest build result
/// and the state of the views.
#[derive(Debug)]
pub struct ViewState<O> {
    pub jobs: JobRegistry,
    pub build: Option<Box<BuildResult<O>>>,
    pub highlighted_symbol: Option<String>,
    pub selected_symbol: Option<String>,
    pub current_view: View,
    pub show_config: bool,
    pub diff_kind: DiffKind,
    pub reverse_fn_order: bool,
}

/// Mathematical content of a [`ViewState`].
pub struct ViewStateView<O> {
    pub jobs: JobRegistryView,
    pub build: Option<BuildResultView<O>>,
    pub highlighted_symbol: Option<Seq<char>>,
    pub selected_symbol: Option<Seq<char>>,
    pub current_view: View,
    pub show_config: bool,
    pub diff_kind: DiffKind,
    pub reverse_fn_order: bool,
}

/// The content of the latest build result.
pub open spec fn build_content<O>(build: Option<Box<BuildResult<O>>>) -> Option<
    BuildResultView<O>,
> {
    match build {
        Some(result) => Some(result@),
        None => None,
    }
}

impl<O> vstd::view::View for ViewState<O> {
    type V = ViewStateView<O>;

    open spec fn view(&self) -> ViewStateView<O> {
        ViewStateView {
            jobs: self.jobs@,
            build: build_content(self.build),
            highlighted_symbol: opt_text(self.highlighted_symbol),
            selected_symbol: opt_text(self.selected_symbol),
            current_view: self.current_view,
            show_config: self.show_config,
            diff_kind: self.diff_kind,
            reverse_fn_order: self.reverse_fn_order,
        }
    }
}

/// The error reported for a worker that could not be joined.
pub open spec fn join_failure(cause: Seq<char>) -> Seq<char> {
    "Failed to join job handle: "@ + cause
}

/// The status that the registry keeps for a joined worker: the one the
/// worker left, with the join failure attached if it did not end in order.
pub open spec fn joined_status<O>(joined: Result<JobResult<O>, String>, status: StatusView)
    -> StatusView {
    match joined {
        Ok(_) => status,
        Err(cause) => status.fail(join_failure(cause@)),
    }
}

/// A whole-binary comparison, shown as a build of which both sides
/// succeeded with nothing logged.
pub open spec fn whole_binary_result<O>(result: BinDiffResult<O>) -> BuildResultView<O> {
    BuildResultView {
        first_status: BuildStatusView { success: true, log: Seq::empty() },
        second_status: BuildStatusView { success: true, log: Seq::empty() },
        first_obj: Some(result.first_obj),
        second_obj: Some(result.second_obj),
    }
}

impl<O> ViewStateView<O> {
    /// The state in which nothing was built, selected or changed yet.
    pub open spec fn initial() -> ViewStateView<O> {
        ViewStateView {
            jobs: JobRegistryView::empty(),
            build: None,
            highlighted_symbol: None,
            selected_symbol: None,
            current_view: View::SymbolDiff,
            show_config: false,
            diff_kind: DiffKind::SplitObj,
            reverse_fn_order: false,
        }
    }

    /// The state after the worker of the job `id` was joined. A job that is
    /// not in flight changes nothing. Else its outcome is taken over: a
    /// result replaces the latest build, anything else leaves it.
    pub open spec fn job_finished(
        self,
        id: usize,
        joined: Result<JobResult<O>, String>,
        status: StatusView,
    ) -> ViewStateView<O> {
        if !self.jobs.is_running(id) {
            self
        } else {
            ViewStateView {
                jobs: self.jobs.complete(id, joined_status(joined, status)),
                build: match joined {
                    Ok(JobResult::Build(result)) => Some(result@),
                    Ok(JobResult::BinDiff(result)) => Some(whole_binary_result(*result)),
                    _ => self.build,
                },
                ..self
            }
        }
    }

    /// The error to report when the worker of the job `id` was joined: the
    /// one it left in its status if it handed nothing back, or the failure
    /// to join it.
    pub open spec fn job_report(
        self,
        id: usize,
        joined: Result<JobResult<O>, String>,
        status: StatusView,
    ) -> Option<Seq<char>> {
        if !self.jobs.is_running(id) {
            None
        } else {
            match joined {
                Ok(JobResult::Empty) => status.error,
                Ok(_) => None,
                Err(cause) => Some(join_failure(cause@)),
            }
        }
    }

    /// The function view is on screen: it was chosen, and there is a build
    /// of which both sides succeeded.
    pub open spec fn shows_function_diff(self) -> bool {
        self.current_view == View::FunctionDiff && (self.build matches Some(b)
            && b.first_status.success && b.second_status.success)
    }
}

impl<O> Default for ViewState<O> {
    fn default() -> (v: ViewState<O>)
        ensures
            v@ == ViewStateView::<O>::initial(),
    {
        ViewState {
            jobs: JobRegistry::new(),
            build: None,
            highlighted_symbol: None,
            selected_symbol: None,
            current_view: View::SymbolDiff,
            show_config: false,
            diff_kind: DiffKind::SplitObj,
            reverse_fn_order: false,
        }
    }
}

impl<O> ViewState<O> {
    /// Takes over the outcome of the job `id`, whose worker was joined:
    /// `joined` is what it handed back, or why it could not be joined, and
    /// `status` is the status it left. Gives the error to report, if any.
    pub fn job_finished(
        &mut self,
        id: usize,
        joined: Result<JobResult<O>, String>,
        status: Status,
    ) -> (report: Option<String>)
        ensures
            final(self)@ == old(self)@.job_finished(id, joined, status@),
            opt_text(report) == old(self)@.job_report(id, joined, status@),
    {
        let mut status = status;
        let (result, report) = match joined {
            Ok(JobResult::Empty) => (None, copy_text(&status.error)),
            Ok(JobResult::Build(result)) => (Some(result), None),
            Ok(JobResult::BinDiff(result)) => {
                let objects = *result;
                let shown = BuildResult {
                    first_status: BuildStatus { success: true, log: String::new() },
                    second_status: BuildStatus { success: true, log: String::new() },
                    first_obj: Some(objects.first_obj),
                    second_obj: Some(objects.second_obj),
                };
                (Some(Box::new(shown)), None)
            },
            Err(cause) => {
                let message = String::from_str("Failed to join job handle: ").concat(
                    cause.as_str(),
                );
                status.error = Some(message.clone());
                (None, Some(message))
            },
        };
        proof {
            if !old(self).jobs@.is_running(id) {
                old(self).jobs@.lemma_complete_unknown(id, status@);
            }
        }
        if !self.jobs.complete(id, status) {
            return None;
        }
        match result {
            Some(result) => {
                self.build = Some(result);
            },
            None => {},
        }
        report
    }

    /// Whether the function view is on screen.
    pub fn shows_function_diff(&self) -> (r: bool)
        ensures
            r == self@.shows_function_diff(),
    {
        match &self.build {
            Some(b) => self.current_view == View::FunctionDiff && b.first_status.success
                && b.second_status.success,
            None => false,
        }
    }
}

/// A `Build` job that the scheduler has recorded and whose worker is to be
/// started.
#[derive(Debug)]
pub struct QueuedBuild {
    pub id: usize,
    pub obj_path: String,
}

/// What the controller has to do after the scheduler has run: tear down the
/// watcher, watch a new root, set or clear the dirty flag, start a worker.
/// The flag is set before it is cleared, and cleared before the worker is
/// started.
#[derive(Debug)]
pub struct Tick {
    pub drop_watcher: bool,
    pub watch: Option<String>,
    pub set_modified: bool,
    pub clear_modified: bool,
    pub build: Option<QueuedBuild>,
}

/// Mathematical content of a [`Tick`].
pub struct TickView {
    pub drop_watcher: bool,
    pub watch: Option<Seq<char>>,
    pub set_modified: bool,
    pub clear_modified: bool,
    pub build: Option<(usize, Seq<char>)>,
}

impl vstd::view::View for Tick {
    type V = TickView;

    open spec fn view(&self) -> TickView {
        TickView {
            drop_watcher: self.drop_watcher,
            watch: opt_text(self.watch),
            set_modified: self.set_modified,
            clear_modified: self.clear_modified,
            build: match self.build {
                Some(queued) => Some((queued.id, queued.obj_path@)),
                None => None,
            },
        }
    }
}

/// The outcome of one run of the scheduler.
pub struct Scheduled {
    pub jobs: JobRegistryView,
    pub config: AppConfigView,
    pub tick: TickView,
}

/// The root to watch from now on: the project directory, when it was
/// changed and is set.
pub open spec fn watch_root(config: AppConfigView) -> Option<Seq<char>> {
    if config.project_dir_change {
        config.project_dir
    } else {
        None
    }
}

/// The object to build now: the configured one, when a change is pending (a
/// new root counts as one) and no `Build` job for it is in flight.
pub open spec fn build_due(jobs: JobRegistryView, config: AppConfigView, modified: bool) -> Option<
    Seq<char>,
> {
    match config.build_obj {
        Some(obj) => if (modified || watch_root(config) is Some) && !jobs.build_in_flight(obj) {
            Some(obj)
        } else {
            None
        },
        None => None,
    }
}

/// One run of the scheduler on the registry, the configuration and the
/// dirty flag as it was read. A changed root is taken up once it is set;
/// a due build is recorded and the flag cleared for it.
pub open spec fn schedule(jobs: JobRegistryView, config: AppConfigView, modified: bool)
    -> Scheduled {
    let watch = watch_root(config);
    let due = build_due(jobs, config, modified);
    Scheduled {
        jobs: match due {
            Some(obj) => jobs.enqueue(Job::Build, Some(obj)),
            None => jobs,
        },
        config: AppConfigView {
            project_dir_change: config.project_dir_change && config.project_dir is None,
            ..config
        },
        tick: TickView {
            drop_watcher: config.project_dir_change,
            watch,
            set_modified: watch is Some,
            clear_modified: due is Some,
            build: match due {
                Some(obj) => Some((jobs.next_id, obj)),
                None => None,
            },
        },
    }
}

/// The dirty flag after the controller has done what a tick asks for, if no
/// change arrived meanwhile.
pub open spec fn modified_after(modified: bool, tick: TickView) -> bool {
    (modified || tick.set_modified) && !tick.clear_modified
}

impl<O> ViewState<O> {
    /// Runs the scheduler: takes up a changed project root, and records a
    /// `Build` job for the configured object if a change is pending and none
    /// is in flight for it. `modified` is the dirty flag as it was read.
    pub fn schedule(&mut self, config: &mut AppConfig, modified: bool) -> (tick: Tick)
        requires
            old(self)@.jobs.next_id < usize::MAX,
        ensures
            final(self)@ == (ViewStateView {
                jobs: schedule(old(self)@.jobs, old(config)@, modified).jobs,
                ..old(self)@
            }),
            final(config)@ == schedule(old(self)@.jobs, old(config)@, modified).config,
            tick@ == schedule(old(self)@.jobs, old(config)@, modified).tick,
    {
        let drop_watcher = config.project_dir_change;
        let mut pending = modified;
        let mut watch: Option<String> = None;
        if config.project_dir_change {
            match &config.project_dir {
                Some(dir) => {
                    watch = Some(dir.clone());
                    config.project_dir_change = false;
                    pending = true;
                },
                None => {},
            }
        }
        let set_modified = watch.is_some();
        let mut build: Option<QueuedBuild> = None;
        match &config.build_obj {
            Some(obj) => {
                if pending && !self.jobs.has_build_in_flight(obj) {
                    let id = self.jobs.enqueue(Job::Build, Some(obj.clone()));
                    build = Some(QueuedBuild { id, obj_path: obj.clone() });
                }
            },
            None => {},
        }
        let clear_modified = build.is_some();
        Tick { drop_watcher, watch, set_modified, clear_modified, build }
    }
}

/// While a `Build` job for the configured object is in flight, the
/// scheduler starts no second one for it: the registry is left as it was,
/// and the dirty flag is not cleared.
pub proof fn lemma_no_second_build_in_flight(
    jobs: JobRegistryView,
    config: AppConfigView,
    modified: bool,
    obj: Seq<char>,
)
    requires
        config.build_obj == Some(obj),
        jobs.build_in_flight(obj),
    ensures
        schedule(jobs, config, modified).jobs == jobs,
        schedule(jobs, config, modified).tick.build is None,
        !schedule(jobs, config, modified).tick.clear_modified,
{
}

/// The scheduler keeps the `Build` jobs in flight to one for each object,
/// and gives the job it starts an identifier that no other record holds.
pub proof fn lemma_schedule_keeps_builds_exclusive(
    jobs: JobRegistryView,
    config: AppConfigView,
    modified: bool,
)
    requires
        jobs.wf(),
        jobs.builds_exclusive(),
        jobs.next_id < usize::MAX,
    ensures
        schedule(jobs, config, modified).jobs.wf(),
        schedule(jobs, config, modified).jobs.builds_exclusive(),
{
    let after = schedule(jobs, config, modified).jobs;
    match build_due(jobs, config, modified) {
        Some(obj) => {
            jobs.lemma_enqueue_gives_fresh_id(Job::Build, Some(obj));
            assert forall|i: int, j: int, target: Seq<char>|
                0 <= i < j < after.jobs.len() && (#[trigger] after.jobs[i].builds(
                    target,
                )) implies !(#[trigger] after.jobs[j].builds(target)) by {
                assert(after.jobs[i] == jobs.jobs[i]);
                if j < jobs.jobs.len() {
                    assert(after.jobs[j] == jobs.jobs[j]);
                    assert(jobs.jobs[i].builds(target));
                    assert(!jobs.jobs[j].builds(target));
                } else {
                    if after.jobs[j].builds(target) {
                        assert(target == obj);
                        assert(jobs.jobs[i].builds(obj));
                    }
                }
            }
        },
        None => {},
    }
}

/// A pending change is never lost: after the scheduler has run on a set
/// flag, a build was started for it or the flag is still set. The flag is
/// cleared exactly when a build is started, and the job that is started is
/// in flight for the configured object, so that the next run starts none.
pub proof fn lemma_pending_change_is_kept(
    jobs: JobRegistryView,
    config: AppConfigView,
    modified: bool,
    again: bool,
)
    requires
        jobs.next_id < usize::MAX,
    ensures
        ({
            let s = schedule(jobs, config, modified);
            &&& s.tick.clear_modified <==> s.tick.build is Some
            &&& modified ==> s.tick.build is Some || modified_after(modified, s.tick)
            &&& s.tick.build matches Some((id, obj)) ==> {
                &&& id == jobs.next_id
                &&& config.build_obj == Some(obj)
                &&& !jobs.build_in_flight(obj)
                &&& s.jobs.build_in_flight(obj)
                &&& schedule(s.jobs, s.config, again).tick.build is None
            }
        }),
{
    let s = schedule(jobs, config, modified);
    match s.tick.build {
        Some((id, obj)) => {
            assert(s.jobs.jobs[jobs.jobs.len() as int].builds(obj));
        },
        None => {},
    }
}

/// A new root is watched only after the old watcher was torn down, and the
/// dirty flag is set exactly when a new root is watched.
pub proof fn lemma_old_watcher_goes_first(
    jobs: JobRegistryView,
    config: AppConfigView,
    modified: bool,
)
    ensures
        ({
            let s = schedule(jobs, config, modified);
            &&& s.tick.watch is Some ==> s.tick.drop_watcher
            &&& s.tick.set_modified <==> s.tick.watch is Some
            &&& !config.project_dir_change ==> !s.tick.drop_watcher && s.config == config
        }),
{
}

/// A worker that could not be joined leaves an error in the status that the
/// registry keeps for it, whatever step it had reported.
pub proof fn lemma_unjoined_worker_leaves_error<O>(
    state: ViewStateView<O>,
    id: usize,
    cause: String,
    status: StatusView,
)
    requires
        state.jobs.is_running(id),
    ensures
        joined_status(Err::<JobResult<O>, String>(cause), status).error is Some,
        state.job_report(id, Err(cause), status) is Some,
        state.job_finished(id, Err(cause), status).build == state.build,
{
}

/// A changed project root that is set is taken up in one run: the old
/// watcher is torn down, the new root is watched, the change is marked as
/// seen and the dirty flag is set, so that a build of the configured object
/// is started unless one is in flight.
pub proof fn lemma_root_change_triggers_rebuild(
    jobs: JobRegistryView,
    config: AppConfigView,
    modified: bool,
    root: Seq<char>,
)
    requires
        config.project_dir_change,
        config.project_dir == Some(root),
    ensures
        ({
            let s = schedule(jobs, config, modified);
            &&& s.tick.drop_watcher
            &&& s.tick.watch == Some(root)
            &&& s.tick.set_modified
            &&& !s.config.project_dir_change
            &&& config.build_obj matches Some(obj) ==> (s.tick.build is Some
                <==> !jobs.build_in_flight(obj))
        }),
{
}

} // verus!

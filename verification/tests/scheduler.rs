use objdiff::app::{copy_text, AppConfig, DiffKind, View, ViewState};
use objdiff::jobs::pipeline::{BuildResult, BuildStatus};
use objdiff::jobs::{BinDiffResult, Job, JobResult, Status};

fn config() -> AppConfig {
    AppConfig {
        project_dir: Some("/proj".to_string()),
        build_asm_dir: Some("/proj/asm".to_string()),
        build_src_dir: Some("/proj/src".to_string()),
        build_obj: Some("foo.o".to_string()),
        left_obj: None,
        right_obj: None,
        project_dir_change: false,
    }
}

fn result(first: bool, second: bool) -> Box<BuildResult<u32>> {
    Box::new(BuildResult {
        first_status: BuildStatus { success: first, log: "first".to_string() },
        second_status: BuildStatus { success: second, log: "second".to_string() },
        first_obj: if first { Some(1) } else { None },
        second_obj: if second { Some(2) } else { None },
    })
}

fn done() -> Status {
    Status { step: 5, total: 5, message: "Complete".to_string(), error: None }
}

#[test]
fn defaults() {
    assert_eq!(View::default(), View::SymbolDiff);
    assert_eq!(DiffKind::default(), DiffKind::SplitObj);
    let c = AppConfig::default();
    assert!(c.project_dir.is_none());
    assert!(c.build_asm_dir.is_none());
    assert!(c.build_src_dir.is_none());
    assert!(c.build_obj.is_none());
    assert!(c.left_obj.is_none());
    assert!(c.right_obj.is_none());
    assert!(!c.project_dir_change);
    let v: ViewState<u32> = ViewState::default();
    assert!(v.jobs.jobs().is_empty());
    assert!(v.build.is_none());
    assert!(v.highlighted_symbol.is_none());
    assert!(v.selected_symbol.is_none());
    assert_eq!(v.current_view, View::SymbolDiff);
    assert!(!v.show_config);
    assert_eq!(v.diff_kind, DiffKind::SplitObj);
    assert!(!v.reverse_fn_order);
}

#[test]
fn config_snapshot_is_independent_of_later_edits() {
    let mut c = config();
    c.left_obj = Some("/bin/left".to_string());
    c.project_dir_change = true;
    let snapshot = c.clone();
    c.project_dir = Some("/other".to_string());
    c.build_obj = None;
    c.project_dir_change = false;
    assert_eq!(snapshot.project_dir.as_deref(), Some("/proj"));
    assert_eq!(snapshot.build_asm_dir.as_deref(), Some("/proj/asm"));
    assert_eq!(snapshot.build_src_dir.as_deref(), Some("/proj/src"));
    assert_eq!(snapshot.build_obj.as_deref(), Some("foo.o"));
    assert_eq!(snapshot.left_obj.as_deref(), Some("/bin/left"));
    assert!(snapshot.right_obj.is_none());
    assert!(snapshot.project_dir_change);
    assert_eq!(copy_text(&Some("x".to_string())).as_deref(), Some("x"));
    assert!(copy_text(&None).is_none());
}

#[test]
fn clean_flag_schedules_nothing() {
    let mut view: ViewState<u32> = ViewState::default();
    let mut c = config();
    let tick = view.schedule(&mut c, false);
    assert!(!tick.drop_watcher);
    assert!(tick.watch.is_none());
    assert!(!tick.set_modified);
    assert!(!tick.clear_modified);
    assert!(tick.build.is_none());
    assert!(view.jobs.jobs().is_empty());
}

#[test]
fn dirty_flag_starts_one_build_and_is_cleared() {
    let mut view: ViewState<u32> = ViewState::default();
    let mut c = config();
    let tick = view.schedule(&mut c, true);
    assert!(tick.clear_modified);
    assert!(!tick.set_modified);
    let queued = tick.build.unwrap();
    assert_eq!(queued.id, 0);
    assert_eq!(queued.obj_path, "foo.o");
    assert_eq!(view.jobs.jobs().len(), 1);
    let job = &view.jobs.jobs()[0];
    assert_eq!(job.job_type, Job::Build);
    assert_eq!(job.target.as_deref(), Some("foo.o"));
    assert!(job.running);
}

#[test]
fn no_second_build_while_one_is_in_flight() {
    let mut view: ViewState<u32> = ViewState::default();
    let mut c = config();
    assert!(view.schedule(&mut c, true).build.is_some());
    let tick = view.schedule(&mut c, true);
    assert!(tick.build.is_none());
    assert!(!tick.clear_modified);
    assert_eq!(view.jobs.jobs().len(), 1);
    let tick = view.schedule(&mut c, true);
    assert!(tick.build.is_none());
    assert_eq!(view.jobs.jobs().len(), 1);
}

#[test]
fn build_for_another_object_may_start_alongside() {
    let mut view: ViewState<u32> = ViewState::default();
    let mut c = config();
    assert!(view.schedule(&mut c, true).build.is_some());
    c.build_obj = Some("bar.o".to_string());
    let tick = view.schedule(&mut c, true);
    let queued = tick.build.unwrap();
    assert_eq!(queued.id, 1);
    assert_eq!(queued.obj_path, "bar.o");
    assert_eq!(view.jobs.jobs().len(), 2);
}

#[test]
fn pending_change_is_built_after_the_job_in_flight_ends() {
    let mut view: ViewState<u32> = ViewState::default();
    let mut c = config();
    let first = view.schedule(&mut c, true).build.unwrap();
    assert!(view.schedule(&mut c, true).build.is_none());
    let report = view.job_finished(first.id, Ok(JobResult::Build(result(true, true))), done());
    assert!(report.is_none());
    view.jobs.prune();
    assert!(view.jobs.jobs().is_empty());
    let tick = view.schedule(&mut c, true);
    let second = tick.build.unwrap();
    assert_eq!(second.id, 1);
    assert!(tick.clear_modified);
}

#[test]
fn no_configured_object_keeps_the_flag() {
    let mut view: ViewState<u32> = ViewState::default();
    let mut c = config();
    c.build_obj = None;
    let tick = view.schedule(&mut c, true);
    assert!(tick.build.is_none());
    assert!(!tick.clear_modified);
    assert!(view.jobs.jobs().is_empty());
}

#[test]
fn changed_root_is_watched_and_triggers_a_build() {
    let mut view: ViewState<u32> = ViewState::default();
    let mut c = config();
    c.project_dir_change = true;
    let tick = view.schedule(&mut c, false);
    assert!(tick.drop_watcher);
    assert_eq!(tick.watch.as_deref(), Some("/proj"));
    assert!(tick.set_modified);
    assert!(tick.clear_modified);
    assert_eq!(tick.build.unwrap().obj_path, "foo.o");
    assert!(!c.project_dir_change);
    let tick = view.schedule(&mut c, false);
    assert!(!tick.drop_watcher);
    assert!(tick.watch.is_none());
    assert!(tick.build.is_none());
}

#[test]
fn changed_root_without_object_leaves_the_flag_set() {
    let mut view: ViewState<u32> = ViewState::default();
    let mut c = config();
    c.project_dir_change = true;
    c.build_obj = None;
    let tick = view.schedule(&mut c, false);
    assert!(tick.set_modified);
    assert!(!tick.clear_modified);
    assert_eq!(tick.watch.as_deref(), Some("/proj"));
    assert!(tick.build.is_none());
}

#[test]
fn changed_root_that_is_unset_only_drops_the_watcher() {
    let mut view: ViewState<u32> = ViewState::default();
    let mut c = config();
    c.project_dir = None;
    c.project_dir_change = true;
    let tick = view.schedule(&mut c, false);
    assert!(tick.drop_watcher);
    assert!(tick.watch.is_none());
    assert!(!tick.set_modified);
    assert!(tick.build.is_none());
    assert!(c.project_dir_change);
}

#[test]
fn build_result_replaces_the_latest_build() {
    let mut view: ViewState<u32> = ViewState::default();
    let id = view.jobs.enqueue(Job::Build, Some("foo.o".to_string()));
    let report = view.job_finished(id, Ok(JobResult::Build(result(false, true))), done());
    assert!(report.is_none());
    let build = view.build.as_ref().unwrap();
    assert!(!build.first_status.success);
    assert!(build.second_status.success);
    assert_eq!(build.first_obj, None);
    assert_eq!(build.second_obj, Some(2));
    let job = &view.jobs.jobs()[0];
    assert!(!job.running);
    assert!(job.should_remove);
    assert_eq!(job.status.message, "Complete");
}

#[test]
fn whole_binary_result_is_shown_as_two_successful_sides() {
    let mut view: ViewState<u32> = ViewState::default();
    let id = view.jobs.enqueue(Job::BinDiff, None);
    let outcome = JobResult::BinDiff(Box::new(BinDiffResult { first_obj: 10, second_obj: 20 }));
    assert!(view.job_finished(id, Ok(outcome), done()).is_none());
    let build = view.build.as_ref().unwrap();
    assert!(build.first_status.success);
    assert_eq!(build.first_status.log, "");
    assert!(build.second_status.success);
    assert_eq!(build.second_status.log, "");
    assert_eq!(build.first_obj, Some(10));
    assert_eq!(build.second_obj, Some(20));
}

#[test]
fn failed_job_reports_its_error_and_keeps_the_latest_build() {
    let mut view: ViewState<u32> = ViewState::default();
    view.build = Some(result(true, true));
    let id = view.jobs.enqueue(Job::Build, Some("foo.o".to_string()));
    let left = Status {
        step: 2,
        total: 5,
        message: "Loading asm foo.o".to_string(),
        error: Some("bad object".to_string()),
    };
    let report = view.job_finished(id, Ok(JobResult::Empty), left);
    assert_eq!(report.as_deref(), Some("bad object"));
    assert_eq!(view.build.as_ref().unwrap().first_obj, Some(1));
    assert_eq!(view.jobs.jobs()[0].status.error.as_deref(), Some("bad object"));
}

#[test]
fn cancelled_job_reports_nothing_and_disappears() {
    let mut view: ViewState<u32> = ViewState::default();
    let id = view.jobs.enqueue(Job::Build, Some("foo.o".to_string()));
    assert!(view.jobs.cancel(id));
    let left = Status { step: 0, total: 5, message: "Building asm foo.o".to_string(), error: None };
    let report = view.job_finished(id, Ok(JobResult::Empty), left);
    assert!(report.is_none());
    assert!(view.build.is_none());
    view.jobs.prune();
    assert!(view.jobs.jobs().is_empty());
}

#[test]
fn worker_that_could_not_be_joined_gets_a_registry_error() {
    let mut view: ViewState<u32> = ViewState::default();
    let id = view.jobs.enqueue(Job::Build, Some("foo.o".to_string()));
    let left = Status { step: 1, total: 5, message: "Building src foo.o".to_string(), error: None };
    let report = view.job_finished(id, Err("worker panicked".to_string()), left);
    assert_eq!(report.as_deref(), Some("Failed to join job handle: worker panicked"));
    let job = &view.jobs.jobs()[0];
    assert!(!job.running);
    assert!(job.should_remove);
    assert_eq!(job.status.step, 1);
    assert_eq!(
        job.status.error.as_deref(),
        Some("Failed to join job handle: worker panicked")
    );
    assert!(view.build.is_none());
}

#[test]
fn outcome_of_a_job_that_is_not_in_flight_is_dropped() {
    let mut view: ViewState<u32> = ViewState::default();
    let id = view.jobs.enqueue(Job::Build, Some("foo.o".to_string()));
    assert!(view.job_finished(id, Ok(JobResult::Build(result(true, false))), done()).is_none());
    let late = Status { step: 9, total: 9, message: "late".to_string(), error: Some("e".into()) };
    assert!(view.job_finished(id, Ok(JobResult::Build(result(true, true))), late).is_none());
    assert_eq!(view.build.as_ref().unwrap().second_obj, None);
    assert_eq!(view.jobs.jobs()[0].status.message, "Complete");
    assert!(view.job_finished(42, Err("x".to_string()), done()).is_none());
    assert!(view.job_finished(42, Ok(JobResult::Empty), done()).is_none());
}

#[test]
fn function_view_needs_two_successful_sides() {
    let mut view: ViewState<u32> = ViewState::default();
    assert!(!view.shows_function_diff());
    view.current_view = View::FunctionDiff;
    assert!(!view.shows_function_diff());
    view.build = Some(result(true, false));
    assert!(!view.shows_function_diff());
    view.build = Some(result(false, true));
    assert!(!view.shows_function_diff());
    view.build = Some(result(true, true));
    assert!(view.shows_function_diff());
    view.current_view = View::SymbolDiff;
    assert!(!view.shows_function_diff());
}

#[test]
fn restored_configuration_marks_a_set_root_as_changed() {
    let mut c = config();
    c.mark_restored();
    assert!(c.project_dir_change);
    assert_eq!(c.project_dir.as_deref(), Some("/proj"));
    let mut c = AppConfig::default();
    c.mark_restored();
    assert!(!c.project_dir_change);
    c.project_dir_change = true;
    c.mark_restored();
    assert!(c.project_dir_change);
}

use objdiff::jobs::{copy_status, Job, JobRegistry, Status};

fn status(step: u32, message: &str, error: Option<&str>) -> Status {
    Status { step, total: 5, message: message.to_string(), error: error.map(|e| e.to_string()) }
}

fn ids(registry: &JobRegistry) -> Vec<usize> {
    registry.jobs().iter().map(|j| j.id).collect()
}

#[test]
fn new_registry_is_empty() {
    let registry = JobRegistry::new();
    assert!(registry.jobs().is_empty());
    assert_eq!(registry.next_id(), 0);
    assert!(!registry.any_running());
}

#[test]
fn enqueue_gives_increasing_ids_and_fresh_records() {
    let mut registry = JobRegistry::new();
    let a = registry.enqueue(Job::Build, Some("foo.o".to_string()));
    let b = registry.enqueue(Job::BinDiff, None);
    let c = registry.enqueue(Job::Build, Some("bar.o".to_string()));
    assert_eq!((a, b, c), (0, 1, 2));
    assert_eq!(registry.next_id(), 3);
    assert_eq!(ids(&registry), vec![0, 1, 2]);
    let job = &registry.jobs()[0];
    assert_eq!(job.job_type, Job::Build);
    assert_eq!(job.target.as_deref(), Some("foo.o"));
    assert!(job.running);
    assert!(!job.cancel_sent);
    assert!(!job.should_remove);
    assert_eq!(job.status.step, 0);
    assert_eq!(job.status.total, 0);
    assert_eq!(job.status.message, "");
    assert!(job.status.error.is_none());
    assert_eq!(registry.jobs()[1].job_type, Job::BinDiff);
    assert!(registry.jobs()[1].target.is_none());
    assert!(registry.any_running());
}

#[test]
fn build_in_flight_is_per_target_and_per_kind() {
    let mut registry = JobRegistry::new();
    registry.enqueue(Job::Build, Some("foo.o".to_string()));
    registry.enqueue(Job::BinDiff, Some("bin.o".to_string()));
    assert!(registry.has_build_in_flight(&"foo.o".to_string()));
    assert!(!registry.has_build_in_flight(&"bar.o".to_string()));
    assert!(!registry.has_build_in_flight(&"bin.o".to_string()));
    assert!(!registry.has_build_in_flight(&"foo".to_string()));
}

#[test]
fn cancel_sends_one_token_to_a_running_job() {
    let mut registry = JobRegistry::new();
    let id = registry.enqueue(Job::Build, Some("foo.o".to_string()));
    let other = registry.enqueue(Job::Build, Some("bar.o".to_string()));
    assert!(registry.cancel(id));
    assert!(registry.jobs()[0].cancel_sent);
    assert!(!registry.jobs()[1].cancel_sent);
    assert!(registry.jobs()[0].running);
    assert!(!registry.cancel(id));
    assert!(registry.cancel(other));
}

#[test]
fn cancel_of_an_unknown_job_does_nothing() {
    let mut registry = JobRegistry::new();
    registry.enqueue(Job::Build, Some("foo.o".to_string()));
    assert!(!registry.cancel(7));
    assert!(!registry.jobs()[0].cancel_sent);
}

#[test]
fn cancel_after_completion_has_no_effect() {
    let mut registry = JobRegistry::new();
    let id = registry.enqueue(Job::Build, Some("foo.o".to_string()));
    assert!(registry.complete(id, status(5, "Complete", None)));
    assert!(!registry.cancel(id));
    let job = &registry.jobs()[0];
    assert!(!job.cancel_sent);
    assert!(!job.running);
    assert!(job.should_remove);
}

#[test]
fn complete_takes_the_terminal_status_once() {
    let mut registry = JobRegistry::new();
    let id = registry.enqueue(Job::Build, Some("foo.o".to_string()));
    let other = registry.enqueue(Job::Build, Some("bar.o".to_string()));
    assert!(registry.complete(id, status(5, "Complete", None)));
    let job = &registry.jobs()[0];
    assert!(!job.running);
    assert!(job.should_remove);
    assert_eq!(job.status.step, 5);
    assert_eq!(job.status.message, "Complete");
    assert!(registry.jobs()[1].running);
    assert!(!registry.jobs()[1].should_remove);
    assert!(!registry.complete(id, status(2, "again", Some("late"))));
    let job = &registry.jobs()[0];
    assert_eq!(job.status.step, 5);
    assert_eq!(job.status.message, "Complete");
    assert!(job.status.error.is_none());
    assert!(!registry.has_build_in_flight(&"foo.o".to_string()));
    assert!(registry.has_build_in_flight(&"bar.o".to_string()));
    assert!(registry.complete(other, status(2, "Loading asm bar.o", Some("bad object"))));
    assert_eq!(registry.jobs()[1].status.error.as_deref(), Some("bad object"));
    assert!(!registry.any_running());
}

#[test]
fn complete_of_an_unknown_job_does_nothing() {
    let mut registry = JobRegistry::new();
    registry.enqueue(Job::Build, Some("foo.o".to_string()));
    assert!(!registry.complete(3, status(5, "Complete", None)));
    assert!(registry.jobs()[0].running);
    assert_eq!(registry.jobs()[0].status.message, "");
}

#[test]
fn prune_removes_joined_jobs_and_keeps_the_order() {
    let mut registry = JobRegistry::new();
    for name in ["a.o", "b.o", "c.o", "d.o", "e.o"] {
        registry.enqueue(Job::Build, Some(name.to_string()));
    }
    registry.complete(1, status(5, "Complete", None));
    registry.complete(3, status(5, "Complete", None));
    registry.prune();
    assert_eq!(ids(&registry), vec![0, 2, 4]);
    assert_eq!(registry.next_id(), 5);
    registry.prune();
    assert_eq!(ids(&registry), vec![0, 2, 4]);
    registry.complete(0, status(5, "Complete", None));
    registry.complete(4, status(5, "Complete", None));
    registry.prune();
    assert_eq!(ids(&registry), vec![2]);
    registry.complete(2, status(5, "Complete", None));
    registry.prune();
    assert!(registry.jobs().is_empty());
    assert_eq!(registry.enqueue(Job::Build, None), 5);
}

#[test]
fn prune_never_removes_a_running_job() {
    let mut registry = JobRegistry::new();
    let id = registry.enqueue(Job::Build, Some("foo.o".to_string()));
    registry.cancel(id);
    registry.prune();
    assert_eq!(ids(&registry), vec![0]);
    assert!(registry.jobs()[0].running);
}

#[test]
fn cancelled_job_disappears_once_joined_and_pruned() {
    let mut registry = JobRegistry::new();
    let id = registry.enqueue(Job::Build, Some("foo.o".to_string()));
    assert!(registry.cancel(id));
    assert!(registry.complete(id, status(0, "Building asm foo.o", None)));
    assert!(registry.jobs()[0].status.error.is_none());
    registry.prune();
    assert!(registry.jobs().is_empty());
}

#[test]
fn copy_status_copies_every_field() {
    let source = status(3, "Loading src foo.o", Some("oops"));
    let copy = copy_status(&source);
    assert_eq!(copy.step, 3);
    assert_eq!(copy.total, 5);
    assert_eq!(copy.message, "Loading src foo.o");
    assert_eq!(copy.error.as_deref(), Some("oops"));
    let copy = copy_status(&Status::new());
    assert!(copy.error.is_none());
    assert_eq!(copy.message, "");
}

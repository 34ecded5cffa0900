use objdiff::app::{AppConfig, ViewState};
use objdiff::jobs::pipeline::{BuildRun, BuildStatus, Command, Event, MakeOutput};
use objdiff::jobs::{JobResult, Status};
use objdiff::watch::{note_event, ChangeEvent, ChangeKind};

#[test]
fn source_edit_rebuilds_and_shows_the_side_that_built() {
    let mut config = AppConfig {
        project_dir: Some("/proj".to_string()),
        build_asm_dir: Some("/proj/asm".to_string()),
        build_src_dir: Some("/proj/src".to_string()),
        build_obj: Some("foo.o".to_string()),
        left_obj: None,
        right_obj: None,
        project_dir_change: false,
    };
    let mut view: ViewState<String> = ViewState::default();
    let mut dirty = false;

    // the watcher delivers a modification of a source file
    let event = ChangeEvent { kind: ChangeKind::Modify, paths: vec!["/proj/src/foo.c".to_string()] };
    dirty = note_event(dirty, &event);
    assert!(dirty);

    // next tick: nothing in flight, so the flag is cleared and a job recorded
    let tick = view.schedule(&mut config, dirty);
    if tick.set_modified {
        dirty = true;
    }
    if tick.clear_modified {
        dirty = false;
    }
    assert!(!dirty);
    let queued = tick.build.unwrap();
    assert_eq!(queued.obj_path, "foo.o");
    assert!(view.jobs.has_build_in_flight(&"foo.o".to_string()));

    // the worker runs on a snapshot of the configuration
    let snapshot = config.clone();
    config.build_asm_dir = Some("/elsewhere".to_string());
    let mut status = Status::new();
    let mut diffs = 0;
    let (mut run, mut command) =
        BuildRun::<String>::start(&snapshot, &queued.obj_path, &mut status, false).unwrap();
    let mut makes = Vec::new();
    let result = loop {
        let event = match command {
            Command::Make { cwd, target } => {
                assert_eq!(cwd, "/proj");
                let output = if target == "asm/foo.o" {
                    MakeOutput::Exited {
                        code: Some(1),
                        stdout: b"as foo.s".to_vec(),
                        stderr: b"foo.s:1: unknown opcode".to_vec(),
                    }
                } else {
                    MakeOutput::Exited { code: Some(0), stdout: b"cc foo.c".to_vec(), stderr: Vec::new() }
                };
                makes.push(target);
                Event::Made(BuildStatus::from_output(output))
            }
            Command::Load { path } => {
                assert_eq!(path, "/proj/src/foo.o");
                Event::Loaded(Ok("parsed".to_string()))
            }
            Command::Diff { first, second } => {
                diffs += 1;
                Event::Diffed(Ok((first, second)))
            }
            Command::Finish(result) => break result,
            Command::Invalid => panic!("the run rejected an event it asked for"),
        };
        let (next, asked) = run.advance(event, &mut status, false);
        run = next;
        command = asked;
    };
    assert_eq!(makes, vec!["asm/foo.o".to_string(), "src/foo.o".to_string()]);
    assert_eq!(diffs, 0);
    assert_eq!((status.step, status.total), (5, 5));
    assert_eq!(status.message, "Complete");
    assert!(status.error.is_none());

    // a change that arrives while the build is in flight waits for it
    dirty = note_event(dirty, &event);
    let tick = view.schedule(&mut config, dirty);
    assert!(tick.build.is_none());
    assert!(!tick.clear_modified);

    // the controller joins the worker and prunes the job
    assert!(matches!(result, JobResult::Build(_)));
    let report = view.job_finished(queued.id, Ok(result), status);
    assert!(report.is_none());
    view.jobs.prune();
    assert!(view.jobs.jobs().is_empty());
    let build = view.build.as_ref().unwrap();
    assert!(!build.first_status.success);
    assert_eq!(build.first_status.log, "as foo.s\nfoo.s:1: unknown opcode");
    assert!(build.second_status.success);
    assert_eq!(build.second_status.log, "cc foo.c\n");
    assert!(build.first_obj.is_none());
    assert_eq!(build.second_obj.as_deref(), Some("parsed"));
}

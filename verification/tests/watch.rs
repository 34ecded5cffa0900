use objdiff::watch::{
    is_relevant, is_watched_extension, is_watched_path, note_event, ChangeEvent, ChangeKind,
};

fn event(kind: ChangeKind, paths: &[&str]) -> ChangeEvent {
    ChangeEvent { kind, paths: paths.iter().map(|p| p.to_string()).collect() }
}

#[test]
fn allow_list_of_extensions() {
    for ext in ["c", "cp", "cpp", "h", "hpp"] {
        assert!(is_watched_extension(&Some(ext.to_string())), "{ext}");
    }
    for ext in ["", "C", "cc", "cxx", "hh", "o", "s", "rs", "cpp ", "hp", "cppp", "\u{441}"] {
        assert!(!is_watched_extension(&Some(ext.to_string())), "{ext}");
    }
    assert!(!is_watched_extension(&None));
}

#[test]
fn extension_is_taken_from_the_file_name() {
    assert!(is_watched_path("/proj/src/foo.c"));
    assert!(is_watched_path("include/a.b/vec.hpp"));
    assert!(is_watched_path("foo.tar.h"));
    assert!(is_watched_path("c.cpp"));
    assert!(!is_watched_path("/proj/src/foo.o"));
    assert!(!is_watched_path("/proj/src.c/foo"));
    assert!(!is_watched_path("/proj/.c"));
    assert!(!is_watched_path("c"));
    assert!(!is_watched_path("Makefile"));
    assert!(!is_watched_path("foo.c.orig"));
    assert!(!is_watched_path(""));
    assert!(!is_watched_path("foo."));
}

#[test]
fn modification_of_a_source_file_is_relevant() {
    assert!(is_relevant(&event(ChangeKind::Modify, &["/proj/src/foo.c"])));
    assert!(is_relevant(&event(ChangeKind::Modify, &["/proj/build.log", "/proj/a.h"])));
    assert!(is_relevant(&event(ChangeKind::Modify, &["x.o", "y.o", "z.cp"])));
}

#[test]
fn other_extensions_are_ignored() {
    assert!(!is_relevant(&event(ChangeKind::Modify, &["/proj/asm/foo.o"])));
    assert!(!is_relevant(&event(ChangeKind::Modify, &["/proj/asm/foo.s", "/proj/README"])));
    assert!(!is_relevant(&event(ChangeKind::Modify, &[])));
}

#[test]
fn other_kinds_are_ignored() {
    for kind in [
        ChangeKind::Any,
        ChangeKind::Access,
        ChangeKind::Create,
        ChangeKind::Remove,
        ChangeKind::Other,
    ] {
        assert!(!is_relevant(&event(kind, &["/proj/src/foo.c"])), "{kind:?}");
    }
}

#[test]
fn flag_is_set_only_by_relevant_events_and_never_cleared() {
    let source = event(ChangeKind::Modify, &["/proj/src/foo.c"]);
    let object = event(ChangeKind::Modify, &["/proj/src/foo.o"]);
    let created = event(ChangeKind::Create, &["/proj/src/foo.c"]);
    assert!(note_event(false, &source));
    assert!(!note_event(false, &object));
    assert!(!note_event(false, &created));
    assert!(note_event(true, &source));
    assert!(note_event(true, &object));
    assert!(note_event(true, &created));
}

#[test]
fn many_events_collapse_into_one_flag() {
    let mut dirty = false;
    for i in 0..10 {
        let path = format!("/proj/src/file{i}.cpp");
        dirty = note_event(dirty, &event(ChangeKind::Modify, &[path.as_str()]));
        assert!(dirty);
    }
}

#[test]
fn replaced_bytes_leave_the_extension_alone() {
    assert!(is_watched_path("/proj/src/caf\u{fffd}.c"));
    assert!(is_watched_path("/proj/s\u{fffd}c/main.hpp"));
    assert!(!is_watched_path("/proj/src/main.c\u{fffd}"));
    assert!(!is_watched_path("/proj/src/main.\u{fffd}"));
}

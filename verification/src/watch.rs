//! The change detector: which file system events mark the sources as
//! changed.

use vstd::prelude::*;
use crate::jobs::opt_text;
use crate::paths::extension;
use crate::paths::path_extension;
use crate::text::same_text;

verus! {

/// What happened to the paths of an event.
#[derive(Clone, Copy, Debug, PartialEq, Eq, Structural)]
pub enum ChangeKind {
    Any,
    Access,
    Create,
    Modify,
    Remove,
    Other,
}

/// An event delivered by the file system watcher.
#[derive(Debug)]
pub struct ChangeEvent {
    pub kind: ChangeKind,
    pub paths: Vec<String>,
}

/// The extensions of the files that a build depends on.
pub open spec fn watched(ext: Seq<char>) -> bool {
    ||| ext == seq!['c']
    ||| ext == seq!['c', 'p']
    ||| ext == seq!['c', 'p', 'p']
    ||| ext == seq!['h']
    ||| ext == seq!['h', 'p', 'p']
}

/// An extension is there and is one of the watched ones.
pub open spec fn watched_extension(ext: Option<Seq<char>>) -> bool {
    ext matches Some(e) && watched(e)
}

/// The event reports a modification, and one of its paths has a watched
/// extension.
pub open spec fn relevant(event: ChangeEvent) -> bool {
    event.kind == ChangeKind::Modify && exists|i: int|
        0 <= i < event.paths@.len() && watched_extension(
            path_extension(#[trigger] event.paths@[i]@),
        )
}

/// Whether an extension, if there is one, is a watched one.
pub fn is_watched_extension(ext: &Option<String>) -> (r: bool)
    ensures
        r == watched_extension(opt_text(*ext)),
{
    proof {
        reveal_strlit("c");
        reveal_strlit("cp");
        reveal_strlit("cpp");
        reveal_strlit("h");
        reveal_strlit("hpp");
        assert("c"@ =~= seq!['c']);
        assert("cp"@ =~= seq!['c', 'p']);
        assert("cpp"@ =~= seq!['c', 'p', 'p']);
        assert("h"@ =~= seq!['h']);
        assert("hpp"@ =~= seq!['h', 'p', 'p']);
    }
    match ext {
        Some(e) => {
            let e = e.as_str();
            same_text(e, "c") || same_text(e, "cp") || same_text(e, "cpp") || same_text(e, "h")
                || same_text(e, "hpp")
        },
        None => false,
    }
}

/// Whether the file that a path names has a watched extension.
pub fn is_watched_path(path: &str) -> (r: bool)
    ensures
        r == watched_extension(path_extension(path@)),
{
    let ext = extension(path);
    is_watched_extension(&ext)
}

/// Whether an event marks the sources as changed.
pub fn is_relevant(event: &ChangeEvent) -> (r: bool)
    ensures
        r == relevant(*event),
{
    if event.kind != ChangeKind::Modify {
        return false;
    }
    let mut i: usize = 0;
    while i < event.paths.len()
        invariant
            i <= event.paths.len(),
            event.kind == ChangeKind::Modify,
            forall|k: int|
                0 <= k < i ==> !watched_extension(path_extension(#[trigger] event.paths@[k]@)),
        decreases event.paths.len() - i,
    {
        if is_watched_path(event.paths[i].as_str()) {
            assert(watched_extension(path_extension(event.paths@[i as int]@)));
            return true;
        }
        i += 1;
    }
    false
}

/// The dirty flag after an event was delivered: a relevant event sets it,
/// no event clears it.
pub open spec fn flag_after(modified: bool, event: ChangeEvent) -> bool {
    modified || relevant(event)
}

/// Takes an event into the dirty flag.
pub fn note_event(modified: bool, event: &ChangeEvent) -> (r: bool)
    ensures
        r == flag_after(modified, *event),
{
    modified || is_relevant(event)
}

/// An event that is no modification, or none of whose paths has a watched
/// extension, leaves the dirty flag as it was: the flag goes from clear to
/// set only on a modification of a file with a watched extension.
pub proof fn lemma_unwatched_event_keeps_flag(modified: bool, event: ChangeEvent)
    requires
        event.kind != ChangeKind::Modify || forall|i: int|
            0 <= i < event.paths@.len() ==> !watched_extension(
                path_extension(#[trigger] event.paths@[i]@),
            ),
    ensures
        flag_after(modified, event) == modified,
{
}

/// Setting the flag is idempotent: events delivered on a set flag, however
/// many, leave it set.
pub proof fn lemma_set_flag_stays_set(event: ChangeEvent)
    ensures
        flag_after(true, event),
{
}

} // verus!

//! Path arithmetic, done by the standard library on the text of a path.

use vstd::prelude::*;
use crate::jobs::opt_text;

verus! {

/// The path that results from pushing `tail` onto `base`.
pub uninterp spec fn pushed_path(base: Seq<char>, tail: Seq<char>) -> Seq<char>;

/// What is left of `path` below `base`, if `base` is a prefix of it.
pub uninterp spec fn path_below(path: Seq<char>, base: Seq<char>) -> Option<Seq<char>>;

/// The extension of the file that `path` names, if it has one.
pub uninterp spec fn path_extension(path: Seq<char>) -> Option<Seq<char>>;

/// Calls `std::path::PathBuf::push`. Trusted: the text of the extended path
/// is a function of the two texts, named [`pushed_path`].
#[verifier::external_body]
pub(crate) fn push_path(base: &str, tail: &str) -> (r: String)
    ensures
        r@ == pushed_path(base@, tail@),
{
    let mut path = std::path::PathBuf::from(base);
    path.push(tail);
    path.to_string_lossy().into_owned()
}

/// Calls `std::path::Path::strip_prefix`. Trusted: whether `base` is a
/// prefix, and the text of the remainder, are a function of the two texts,
/// named [`path_below`].
#[verifier::external_body]
pub(crate) fn strip_prefix(path: &str, base: &str) -> (r: Option<String>)
    ensures
        opt_text(r) == path_below(path@, base@),
{
    match std::path::Path::new(path).strip_prefix(base) {
        Ok(rest) => Some(rest.to_string_lossy().into_owned()),
        Err(_) => None,
    }
}

/// Calls `std::path::Path::extension`. Trusted: the text of the extension is
/// a function of the path's text, named [`path_extension`].
#[verifier::external_body]
pub(crate) fn extension(path: &str) -> (r: Option<String>)
    ensures
        opt_text(r) == path_extension(path@),
{
    match std::path::Path::new(path).extension() {
        Some(ext) => Some(ext.to_string_lossy().into_owned()),
        None => None,
    }
}

} // verus!

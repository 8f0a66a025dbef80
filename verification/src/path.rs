//! The one question this library asks of a path: which directory holds it.

use vstd::prelude::*;

verus! {

/// The parent that `std::path::Path::parent` gives for a path, both taken as
/// text. std reads a path by the rules of the platform that the program is
/// built for; there, one path has one parent.
pub uninterp spec fn parent_of(path: Seq<char>) -> Option<Seq<char>>;

/// Calls `std::path::Path::parent` on `path` and hands the parent back as a
/// `String`. Trusted: that the result is `parent_of` of the path. A parent is
/// a part of the path it was taken from, so it is text where the path is.
#[verifier::external_body]
pub(crate) fn parent(path: &str) -> (result: Option<String>)
    ensures
        match result {
            Some(dir) => parent_of(path@) == Some(dir@),
            None => parent_of(path@) is None,
        },
{
    match std::path::Path::new(path).parent() {
        Some(p) => Some(p.to_string_lossy().into_owned()),
        None => None,
    }
}

} // verus!

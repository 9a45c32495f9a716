//! Paths as text. The two path operations that the layout needs are the
//! standard library's; this crate calls them and gives their results a name,
//! so that contracts can say which path was derived from which without
//! saying how the platform writes it.

use vstd::prelude::*;

verus! {

/// The path that `std::path::Path::parent` gives for `path`, or `None`
/// where it gives none; both sides as text. The standard library goes by
/// the rules of the platform that the crate is built for.
pub uninterp spec fn parent_of(path: Seq<char>) -> Option<Seq<char>>;

/// The path that `std::path::Path::join` gives for `base` extended by
/// `part`, as text. The standard library goes by the rules of the platform
/// that the crate is built for.
pub uninterp spec fn joined(base: Seq<char>, part: Seq<char>) -> Seq<char>;

/// Calls `std::path::Path::parent` on `path`. Trusted: that the result is
/// the standard library's, which `parent_of` names, and that it is handed
/// back unchanged: a parent of a path that is text is text itself. Nothing
/// is claimed of what the parent is.
#[verifier::external_body]
pub(crate) fn path_parent(path: &str) -> (parent: Option<String>)
    ensures
        match parent {
            Some(p) => parent_of(path@) == Some(p@),
            None => parent_of(path@) is None,
        },
{
    match std::path::Path::new(path).parent() {
        Some(p) => Some(p.to_string_lossy().into_owned()),
        None => None,
    }
}

/// Calls `std::path::Path::join` on `base` with `part`. Trusted: that the
/// result is the standard library's, which `joined` names, and that it is
/// handed back unchanged: two paths that are text join to text. Nothing is
/// claimed of what the joined path is.
#[verifier::external_body]
pub(crate) fn path_join(base: &str, part: &str) -> (whole: String)
    ensures
        whole@ == joined(base@, part@),
{
    std::path::Path::new(base).join(part).to_string_lossy().into_owned()
}

} // verus!

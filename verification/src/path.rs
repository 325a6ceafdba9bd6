//! Paths are held as strings; what a path means is left to `std::path`, as it
//! reads paths on the platform that the crate is built for.

use vstd::prelude::*;

verus! {

/// Whether `std::path::Path` takes the two texts for the same path.
pub uninterp spec fn path_eq(a: Seq<char>, b: Seq<char>) -> bool;

/// Whether the text `child` is a suffix of the path `path`, component by
/// component, as `std::path::Path::ends_with` decides it.
pub uninterp spec fn path_ends_with(path: Seq<char>, child: Seq<char>) -> bool;

/// The path without its last component, as `std::path::Path::parent` gives it.
pub uninterp spec fn path_parent(path: Seq<char>) -> Option<Seq<char>>;

/// The path `rel` taken below `base`, as `std::path::Path::join` builds it.
pub uninterp spec fn path_join(base: Seq<char>, rel: Seq<char>) -> Seq<char>;

/// Calls `==` of `std::path::Path`, which compares two paths component by
/// component. The contract only names the answer.
#[verifier::external_body]
pub(crate) fn same_path(a: &str, b: &str) -> (r: bool)
    ensures
        r == path_eq(a@, b@),
{
    std::path::Path::new(a) == std::path::Path::new(b)
}

/// Calls `std::path::Path::ends_with`. The contract only names the answer.
#[verifier::external_body]
pub(crate) fn ends_with(path: &str, child: &str) -> (r: bool)
    ensures
        r == path_ends_with(path@, child@),
{
    std::path::Path::new(path).ends_with(child)
}

/// Calls `std::path::Path::parent`. The contract only names the answer; a
/// parent of a path given as text is text again.
#[verifier::external_body]
pub(crate) fn parent(path: &str) -> (r: Option<String>)
    ensures
        r is Some == path_parent(path@) is Some,
        r is Some ==> r->0@ == path_parent(path@)->0,
{
    std::path::Path::new(path).parent().map(|p| p.to_string_lossy().into_owned())
}

/// Calls `std::path::Path::join`. The contract only names the answer; two
/// texts joined are text again.
#[verifier::external_body]
pub(crate) fn join(base: &str, rel: &str) -> (r: String)
    ensures
        r@ == path_join(base@, rel@),
{
    std::path::Path::new(base).join(rel).to_string_lossy().into_owned()
}

} // verus!

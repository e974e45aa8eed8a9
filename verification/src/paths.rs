//! Paths as the platform reads them. The library keeps a path as a string and
//! leaves joining, splitting and comparing to `std::path`, whose rules for
//! separators, roots and prefixes are those of the platform the crate is built
//! for. Nothing in this file is proved: each contract gives the result of one
//! `std::path` function a name.

use vstd::prelude::*;

verus! {

/// The path that `std::path::Path::join` makes of `directory` and `name`.
pub uninterp spec fn joined_path(directory: Seq<char>, name: Seq<char>) -> Seq<char>;

/// The path without its final component, as `std::path::Path::parent` gives
/// it: `None` where the path ends in a root or a prefix, or is empty.
pub uninterp spec fn parent_of(path: Seq<char>) -> Option<Seq<char>>;

/// The final component of the path, as `std::path::Path::file_name` gives it:
/// `None` where the path ends in `..` or has no component to name.
pub uninterp spec fn file_name_of(path: Seq<char>) -> Option<Seq<char>>;

/// Whether `std::path::Path` takes the two strings for the same path, which
/// it decides component by component.
pub uninterp spec fn same_path(left: Seq<char>, right: Seq<char>) -> bool;

/// Calls `std::path::Path::join`: `name` adjoined to `directory`.
#[verifier::external_body]
pub(crate) fn join_path(directory: &str, name: &str) -> (path: String)
    ensures
        path@ == joined_path(directory@, name@),
{
    std::path::Path::new(directory).join(name).to_string_lossy().into_owned()
}

/// Calls `std::path::Path::parent`: the path without its final component,
/// where there is one.
#[verifier::external_body]
pub(crate) fn parent_path(path: &str) -> (parent: Option<String>)
    ensures
        match parent {
            Some(directory) => parent_of(path@) == Some(directory@),
            None => parent_of(path@) is None,
        },
{
    match std::path::Path::new(path).parent() {
        Some(directory) => Some(directory.to_string_lossy().into_owned()),
        None => None,
    }
}

/// Calls `std::path::Path::file_name`: the final component of the path, where
/// there is one.
#[verifier::external_body]
pub(crate) fn file_name(path: &str) -> (name: Option<String>)
    ensures
        match name {
            Some(component) => file_name_of(path@) == Some(component@),
            None => file_name_of(path@) is None,
        },
{
    match std::path::Path::new(path).file_name() {
        Some(component) => Some(component.to_string_lossy().into_owned()),
        None => None,
    }
}

/// Compares the two strings with the `==` of `std::path::Path`.
#[verifier::external_body]
pub(crate) fn is_same_path(left: &str, right: &str) -> (same: bool)
    ensures
        same == same_path(left@, right@),
{
    std::path::Path::new(left) == std::path::Path::new(right)
}

} // verus!

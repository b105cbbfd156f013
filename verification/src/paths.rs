//! Locating the managed working directory next to the host executable.

use std::path::PathBuf;
use vstd::prelude::*;

verus! {

/// `std::path::PathBuf`, carried through the library as an opaque value.
#[verifier::external_type_specification]
#[verifier::external_body]
pub struct ExPathBuf(std::path::PathBuf);

/// What `Path::parent` returns for `path`.
pub uninterp spec fn parent_of(path: PathBuf) -> Option<PathBuf>;

/// What `Path::join` returns for `base` and the relative component `name`.
pub uninterp spec fn joined(base: PathBuf, name: Seq<char>) -> PathBuf;

/// The text that `Path::display` prints for `path`.
pub uninterp spec fn displayed(path: PathBuf) -> Seq<char>;

/// Calls `Path::parent`: the path without its final component, or `None`
/// when the path ends in a root or prefix or is empty. The result depends
/// on the path alone.
#[verifier::external_body]
fn parent_directory(path: &PathBuf) -> (parent: Option<PathBuf>)
    ensures
        parent == parent_of(*path),
{
    match path.parent() {
        Some(dir) => Some(dir.to_path_buf()),
        None => None,
    }
}

/// Calls `Path::join`: a new path with `name` adjoined to `base`. The
/// result depends on the two arguments alone.
#[verifier::external_body]
fn child_path(base: &PathBuf, name: &str) -> (child: PathBuf)
    ensures
        child == joined(*base, name@),
{
    base.join(name)
}

/// Calls `Path::display` and collects what it prints. The text depends on
/// the path alone.
#[verifier::external_body]
pub(crate) fn path_text(path: &PathBuf) -> (text: String)
    ensures
        text@ == displayed(*path),
{
    path.display().to_string()
}

/// Name of the managed directory, relative to the directory that holds the
/// host executable.
pub open spec fn managed_directory_name() -> Seq<char> {
    "pos"@
}

/// The managed working directory for a host executable at `executable`:
/// the directory `pos` beside it; `None` when the executable's path has no
/// parent.
pub open spec fn managed_directory_of(executable: PathBuf) -> Option<PathBuf> {
    match parent_of(executable) {
        Some(parent) => Some(joined(parent, managed_directory_name())),
        None => None,
    }
}

/// Computes the managed working directory from the location of the host
/// executable.
pub fn managed_directory(executable: &PathBuf) -> (directory: Option<PathBuf>)
    ensures
        directory == managed_directory_of(*executable),
{
    match parent_directory(executable) {
        Some(parent) => Some(child_path(&parent, "pos")),
        None => None,
    }
}

} // verus!

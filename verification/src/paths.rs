//! What the library asks of `std::path`.

use std::path::{Path, PathBuf};
use vstd::prelude::*;

verus! {

/// `std::path::Path`, carried through as an opaque value.
#[verifier::external_type_specification]
#[verifier::external_body]
pub struct ExPath(Path);

/// `std::path::PathBuf`, carried through as an opaque value.
#[verifier::external_type_specification]
#[verifier::external_body]
pub struct ExPathBuf(PathBuf);

/// What `std::path::Path::parent` gives for `path`: the path without its
/// final component, or `None` where there is none to drop.
pub uninterp spec fn parent_of(path: &Path) -> Option<PathBuf>;

/// What `std::path::Path::display` writes for `path`: the path as it is
/// shown to a reader.
pub uninterp spec fn shown_as(path: &Path) -> Seq<char>;

/// `std::path::Path::parent`, with the result owned.
///
/// Trusted: the result depends on the path alone, so it is `parent_of` of
/// the path. How a path splits into components is the platform's matter, and
/// nothing more is claimed of it.
#[verifier::external_body]
pub(crate) fn parent_directory(path: &Path) -> (parent: Option<PathBuf>)
    ensures
        parent == parent_of(path),
{
    match path.parent() {
        Some(directory) => Some(directory.to_path_buf()),
        None => None,
    }
}

/// `std::path::Path::display`, written out as a string.
///
/// Trusted: the text depends on the path alone, so it is `shown_as` of the
/// path. Nothing more is claimed of the wording.
#[verifier::external_body]
pub(crate) fn shown(path: &Path) -> (text: String)
    ensures
        text@ == shown_as(path),
{
    path.display().to_string()
}

} // verus!

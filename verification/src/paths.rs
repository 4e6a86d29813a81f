//! File-system paths as the library sees them: opaque values whose base name,
//! extension and printable form are computed by the standard library.

use std::path::PathBuf;
use vstd::prelude::*;

verus! {

/// `std::path::PathBuf`, carried through the library as an opaque value.
#[verifier::external_type_specification]
#[verifier::external_body]
pub struct ExPathBuf(PathBuf);

/// The final component of `path` as text, if the path has one.
pub uninterp spec fn file_name_of(path: PathBuf) -> Option<Seq<char>>;

/// The extension of the final component of `path` as text, if it has one.
pub uninterp spec fn extension_of(path: PathBuf) -> Option<Seq<char>>;

/// The text that `path` prints as.
pub uninterp spec fn display_of(path: PathBuf) -> Seq<char>;

/// `Path::file_name`, with the component converted to a `String`
/// (invalid Unicode is replaced as `to_string_lossy` does).
#[verifier::external_body]
pub(crate) fn file_name(path: &PathBuf) -> (name: Option<String>)
    ensures
        match name {
            Some(n) => file_name_of(*path) == Some(n@),
            None => file_name_of(*path) is None,
        },
{
    path.file_name().map(|name| name.to_string_lossy().into_owned())
}

/// `Path::extension`, with the extension converted to a `String`
/// (invalid Unicode is replaced as `to_string_lossy` does).
#[verifier::external_body]
pub(crate) fn extension(path: &PathBuf) -> (name: Option<String>)
    ensures
        match name {
            Some(n) => extension_of(*path) == Some(n@),
            None => extension_of(*path) is None,
        },
{
    path.extension().map(|name| name.to_string_lossy().into_owned())
}

/// `Path::display`, collected into a `String`.
#[verifier::external_body]
pub(crate) fn display(path: &PathBuf) -> (text: String)
    ensures
        text@ == display_of(*path),
{
    path.display().to_string()
}

/// `PathBuf::clone`: the copy is the same path.
pub assume_specification[ <PathBuf as Clone>::clone ](path: &PathBuf) -> (copy: PathBuf)
    ensures
        copy == *path,
;

} // verus!

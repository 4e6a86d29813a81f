//! Selecting the Terraform files among the entries of a directory.
//!
//! Listing the directory is the caller's part. The listing is handed in as plain
//! values: for each entry its path and whether it is a file, or the message of the
//! error that reading the entry gave.

use crate::error::{Error, WarningSink};
use crate::paths::{extension, extension_of};
use crate::text::same_text;
use std::path::PathBuf;
use vstd::prelude::*;

verus! {

/// One entry of a directory listing.
#[derive(Debug, Clone)]
pub enum DirectoryEntry {
    /// An entry at `path`; `is_file` says whether it is a regular file.
    Found { path: PathBuf, is_file: bool },
    /// An entry that could not be read, with the message of the error.
    Unreadable { message: String },
}

/// The listing of a directory: its direct children only.
#[derive(Debug, Clone)]
pub enum DirectoryListing {
    /// The entries, in the order in which the directory gave them.
    Entries(Vec<DirectoryEntry>),
    /// The directory could not be read.
    Unreadable,
}

/// Whether an entry is a Terraform file: a regular file with the extension `tf`.
pub open spec fn is_terraform_file(entry: DirectoryEntry) -> bool {
    match entry {
        DirectoryEntry::Found { path, is_file } => is_file && extension_of(path) == Some("tf"@),
        DirectoryEntry::Unreadable { .. } => false,
    }
}

/// The paths of the Terraform files among the entries, in the order of the listing.
pub open spec fn terraform_files_of(entries: Seq<DirectoryEntry>) -> Seq<PathBuf>
    decreases entries.len(),
{
    if entries.len() == 0 {
        Seq::empty()
    } else if is_terraform_file(entries.last()) {
        terraform_files_of(entries.drop_last()).push(entries.last()->path)
    } else {
        terraform_files_of(entries.drop_last())
    }
}

/// The warning for an entry that could not be read.
pub open spec fn entry_warning(message: Seq<char>) -> Seq<char> {
    "Warning: Failed to read directory entry: "@ + message
}

/// The warnings for the entries that could not be read, in the order of the listing.
pub open spec fn entry_warnings(entries: Seq<DirectoryEntry>) -> Seq<Seq<char>>
    decreases entries.len(),
{
    if entries.len() == 0 {
        Seq::empty()
    } else {
        match entries.last() {
            DirectoryEntry::Unreadable { message } => entry_warnings(entries.drop_last()).push(
                entry_warning(message@),
            ),
            DirectoryEntry::Found { .. } => entry_warnings(entries.drop_last()),
        }
    }
}

/// The warnings that a listing gives rise to.
pub open spec fn listing_warnings(listing: DirectoryListing) -> Seq<Seq<char>> {
    match listing {
        DirectoryListing::Entries(entries) => entry_warnings(entries@),
        DirectoryListing::Unreadable => Seq::empty(),
    }
}

/// The outcome of discovery in the directory `src`: the Terraform files of the
/// listing, or a `Discovery` error where the directory could not be read.
pub open spec fn discovery_outcome(src: PathBuf, listing: DirectoryListing) -> Result<
    Seq<PathBuf>,
    Error,
> {
    match listing {
        DirectoryListing::Entries(entries) => Ok(terraform_files_of(entries@)),
        DirectoryListing::Unreadable => Err(Error::Discovery { directory: src }),
    }
}

/// Finds the `.tf` files among the direct children of the directory `src`, given
/// its listing.
///
/// An entry that could not be read is reported to `sink` and passed over. An
/// unreadable directory is the error `Discovery`.
pub fn find_terraform_files(
    src: &PathBuf,
    listing: &DirectoryListing,
    sink: &mut WarningSink,
) -> (result: Result<Vec<PathBuf>, Error>)
    ensures
        match result {
            Ok(files) => discovery_outcome(*src, *listing) == Ok::<Seq<PathBuf>, Error>(files@),
            Err(error) => discovery_outcome(*src, *listing) == Err::<Seq<PathBuf>, Error>(error),
        },
        final(sink)@ == old(sink)@ + listing_warnings(*listing),
{
    let entries = match listing {
        DirectoryListing::Unreadable => {
            assert(sink@ + Seq::<Seq<char>>::empty() =~= sink@);
            return Err(Error::Discovery { directory: src.clone() });
        },
        DirectoryListing::Entries(entries) => entries,
    };
    let mut files: Vec<PathBuf> = Vec::new();
    let mut index: usize = 0;
    assert(sink@ + entry_warnings(entries@.take(0)) =~= sink@);
    while index < entries.len()
        invariant
            index <= entries.len(),
            files@ == terraform_files_of(entries@.take(index as int)),
            sink@ == old(sink)@ + entry_warnings(entries@.take(index as int)),
        decreases entries.len() - index,
    {
        assert(entries@.take(index + 1).drop_last() =~= entries@.take(index as int));
        match &entries[index] {
            DirectoryEntry::Unreadable { message } => {
                let mut warning = String::from_str("Warning: Failed to read directory entry: ");
                warning.append(message.as_str());
                sink.warn(warning);
                assert(sink@ =~= old(sink)@ + entry_warnings(entries@.take(index + 1)));
            },
            DirectoryEntry::Found { path, is_file } => {
                if *is_file {
                    match extension(path) {
                        Some(found) => {
                            if same_text(found.as_str(), "tf") {
                                files.push(path.clone());
                            }
                        },
                        None => {},
                    }
                }
            },
        }
        index += 1;
    }
    assert(entries@.take(index as int) =~= entries@);
    Ok(files)
}

} // verus!

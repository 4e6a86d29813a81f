//! The Terraform files of one source directory.

use crate::error::{Error, WarningSink};
use crate::file_discovery::{
    discovery_outcome, find_terraform_files, listing_warnings, DirectoryListing,
};
use std::path::PathBuf;
use vstd::prelude::*;

verus! {

/// The files that the pipeline works through: every discovered path, or the one
/// error of a failed discovery.
pub open spec fn discovered(src: PathBuf, listing: DirectoryListing) -> Seq<
    Result<PathBuf, Error>,
> {
    match discovery_outcome(src, listing) {
        Ok(files) => files.map_values(|file: PathBuf| Ok::<PathBuf, Error>(file)),
        Err(error) => seq![Err::<PathBuf, Error>(error)],
    }
}

/// The source directory whose Terraform files are wanted.
#[derive(Debug)]
pub struct TerraformFiles {
    src: PathBuf,
}

impl View for TerraformFiles {
    type V = PathBuf;

    closed spec fn view(&self) -> PathBuf {
        self.src
    }
}

impl TerraformFiles {
    /// The Terraform files of the directory `src`.
    pub fn new(src: PathBuf) -> (files: Self)
        ensures
            files@ == src,
    {
        TerraformFiles { src }
    }

    /// The directory that is to be listed.
    pub fn src(&self) -> (src: &PathBuf)
        ensures
            *src == self@,
    {
        &self.src
    }

    /// The discovered files, given the listing of the directory: each `.tf` file in
    /// the order of the listing, or a single `Discovery` error where the directory
    /// could not be read.
    pub fn into_iter(self, listing: &DirectoryListing, sink: &mut WarningSink) -> (files: Vec<
        Result<PathBuf, Error>,
    >)
        ensures
            files@ == discovered(self@, *listing),
            final(sink)@ == old(sink)@ + listing_warnings(*listing),
    {
        match find_terraform_files(&self.src, listing, sink) {
            Ok(found) => {
                let mut files: Vec<Result<PathBuf, Error>> = Vec::new();
                let mut index: usize = 0;
                while index < found.len()
                    invariant
                        index <= found.len(),
                        files@ == found@.take(index as int).map_values(
                            |file: PathBuf| Ok::<PathBuf, Error>(file),
                        ),
                    decreases found.len() - index,
                {
                    files.push(Ok(found[index].clone()));
                    assert(files@ =~= found@.take(index + 1).map_values(
                        |file: PathBuf| Ok::<PathBuf, Error>(file),
                    ));
                    index += 1;
                }
                assert(found@.take(index as int) =~= found@);
                files
            },
            Err(error) => {
                let mut files: Vec<Result<PathBuf, Error>> = Vec::new();
                files.push(Err(error));
                assert(files@ =~= seq![Err::<PathBuf, Error>(error)]);
                files
            },
        }
    }
}

} // verus!

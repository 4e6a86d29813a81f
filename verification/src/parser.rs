//! Parsing the text of one Terraform file.

use crate::document::{parse_body, parse_body_result};
use crate::error::Error;
use hcl::edit::structure::Body;
use std::path::PathBuf;
use vstd::prelude::*;

verus! {

/// What reading a file gave.
#[derive(Debug, Clone)]
pub enum FileContent {
    /// The text of the file.
    Text(String),
    /// The file could not be read.
    Unreadable,
}

/// What parsing the content of the file at `path` gives: the parsed body, a
/// `ReadFile` error where there is no content, a `Parse` error where the text is
/// not valid HCL.
pub open spec fn parse_outcome(path: PathBuf, content: FileContent) -> Result<Body, Error> {
    match content {
        FileContent::Unreadable => Err(Error::ReadFile { path }),
        FileContent::Text(text) => match parse_body_result(text@) {
            Ok(body) => Ok(body),
            Err(_) => Err(Error::Parse { path }),
        },
    }
}

/// Parses the content that was read from the Terraform file at `path`.
pub fn parse_terraform_file(path: &PathBuf, content: &FileContent) -> (result: Result<Body, Error>)
    ensures
        result == parse_outcome(*path, *content),
{
    match content {
        FileContent::Unreadable => Err(Error::ReadFile { path: path.clone() }),
        FileContent::Text(text) => match parse_body(text.as_str()) {
            Ok(body) => Ok(body),
            Err(_) => Err(Error::Parse { path: path.clone() }),
        },
    }
}

} // verus!

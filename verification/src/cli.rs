//! The command-line arguments and their validation.

use crate::paths::{display, display_of};
use std::path::PathBuf;
use vstd::prelude::*;

verus! {

/// Whether `c` is alphabetic as `char::is_alphabetic` has it.
pub uninterp spec fn is_alphabetic(c: char) -> bool;

/// Whether `c` is alphanumeric as `char::is_alphanumeric` has it.
pub uninterp spec fn is_alphanumeric(c: char) -> bool;

/// `char::is_alphabetic`: a property of the character alone.
pub assume_specification[ char::is_alphabetic ](c: char) -> (yes: bool)
    ensures
        yes == is_alphabetic(c),
;

/// `char::is_alphanumeric`: a property of the character alone.
pub assume_specification[ char::is_alphanumeric ](c: char) -> (yes: bool)
    ensures
        yes == is_alphanumeric(c),
;

/// Why the arguments are refused.
#[derive(Debug, Clone)]
pub enum ArgsError {
    /// The source directory does not exist.
    SourceMissing { path: PathBuf },
    /// The source path exists but is not a directory.
    SourceNotDirectory { path: PathBuf },
    /// The module name is empty.
    EmptyModuleName,
    /// The module name starts with a character that is neither a letter nor `_`.
    InvalidStart { found: char },
    /// The module name holds a character that is not alphanumeric, `_` or `-`.
    InvalidCharacter { found: char },
}

/// Whether a module name may start with `c`.
pub open spec fn is_name_start(c: char) -> bool {
    is_alphabetic(c) || c == '_'
}

/// Whether a module name may hold `c` after its first character.
pub open spec fn is_name_part(c: char) -> bool {
    is_alphanumeric(c) || c == '_' || c == '-'
}

/// The index of the first character at or after `from` that a module name may
/// not hold after its first character, or the length of the name where there is
/// none.
pub open spec fn first_invalid_part(name: Seq<char>, from: int) -> int
    decreases name.len() - from,
{
    if from >= name.len() {
        name.len() as int
    } else if !is_name_part(name[from]) {
        from
    } else {
        first_invalid_part(name, from + 1)
    }
}

/// What validating a module name gives.
pub open spec fn name_validation(name: Seq<char>) -> Result<(), ArgsError> {
    if name.len() == 0 {
        Err(ArgsError::EmptyModuleName)
    } else if !is_name_start(name[0]) {
        Err(ArgsError::InvalidStart { found: name[0] })
    } else if first_invalid_part(name, 1) < name.len() {
        Err(ArgsError::InvalidCharacter { found: name[first_invalid_part(name, 1)] })
    } else {
        Ok(())
    }
}

/// What validating the arguments gives, where `src_exists` and `src_is_dir` say
/// what the file system holds at the source path.
pub open spec fn validation(
    src: PathBuf,
    module_name: Seq<char>,
    src_exists: bool,
    src_is_dir: bool,
) -> Result<(), ArgsError> {
    if !src_exists {
        Err(ArgsError::SourceMissing { path: src })
    } else if !src_is_dir {
        Err(ArgsError::SourceNotDirectory { path: src })
    } else {
        name_validation(module_name)
    }
}

impl ArgsError {
    /// The text of the error.
    pub open spec fn message_text(self) -> Seq<char> {
        match self {
            ArgsError::SourceMissing { path } => "Source directory does not exist: "@ + display_of(
                path,
            ),
            ArgsError::SourceNotDirectory { path } => "Source path is not a directory: "@
                + display_of(path),
            ArgsError::EmptyModuleName => "Module name cannot be empty"@,
            ArgsError::InvalidStart { found } =>
                "Module name must start with a letter or underscore, got: "@.push(found),
            ArgsError::InvalidCharacter { found } =>
                "Module name contains invalid character: "@.push(found)
                    + ". Only alphanumeric characters, underscores, and hyphens are allowed"@,
        }
    }
}

proof fn lemma_first_invalid_part(name: Seq<char>, from: int, found: int)
    requires
        0 <= from <= found <= name.len(),
        forall|i: int| from <= i < found ==> is_name_part(name[i]),
        found < name.len() ==> !is_name_part(name[found]),
    ensures
        first_invalid_part(name, from) == found,
    decreases found - from,
{
    if from < found {
        lemma_first_invalid_part(name, from + 1, found);
    }
}

/// The arguments of the program.
#[derive(Debug, Clone)]
pub struct Args {
    /// Source directory containing Terraform files.
    pub src: PathBuf,
    /// Name of the module to move resources and modules into.
    pub module_name: String,
}

impl Args {
    /// Validates the arguments, where `src_exists` and `src_is_dir` say what the
    /// file system holds at the source path.
    ///
    /// The source must exist and be a directory. The module name must not be
    /// empty, must start with a letter or `_`, and may go on with alphanumeric
    /// characters, `_` and `-`. The first failing rule is the error.
    pub fn validate(&self, src_exists: bool, src_is_dir: bool) -> (result: Result<(), ArgsError>)
        ensures
            result == validation(self.src, self.module_name@, src_exists, src_is_dir),
    {
        if !src_exists {
            return Err(ArgsError::SourceMissing { path: self.src.clone() });
        }
        if !src_is_dir {
            return Err(ArgsError::SourceNotDirectory { path: self.src.clone() });
        }
        Self::validate_module_name(self.module_name.as_str())
    }

    /// Validates a module name: not empty, a letter or `_` first, then
    /// alphanumeric characters, `_` and `-`. The first offending character is
    /// reported.
    pub fn validate_module_name(name: &str) -> (result: Result<(), ArgsError>)
        ensures
            result == name_validation(name@),
    {
        let mut first = true;
        for c in iter: name.chars()
            invariant
                iter.seq() == name@,
                first == (iter.index() == 0),
                !first ==> is_name_start(name@[0]),
                forall|i: int| 1 <= i < iter.index() ==> is_name_part(name@[i]),
        {
            if first {
                if !c.is_alphabetic() && c != '_' {
                    return Err(ArgsError::InvalidStart { found: c });
                }
                first = false;
            } else if !c.is_alphanumeric() && c != '_' && c != '-' {
                proof {
                    lemma_first_invalid_part(name@, 1, iter.index() as int);
                }
                return Err(ArgsError::InvalidCharacter { found: c });
            }
        }
        if first {
            return Err(ArgsError::EmptyModuleName);
        }
        proof {
            lemma_first_invalid_part(name@, 1, name@.len() as int);
        }
        Ok(())
    }
}

impl ArgsError {
    /// The text of the error, for people.
    pub fn message(&self) -> (text: String)
        ensures
            text@ == self.message_text(),
    {
        match self {
            ArgsError::SourceMissing { path } => {
                let mut text = String::from_str("Source directory does not exist: ");
                let shown = display(path);
                text.append(shown.as_str());
                text
            },
            ArgsError::SourceNotDirectory { path } => {
                let mut text = String::from_str("Source path is not a directory: ");
                let shown = display(path);
                text.append(shown.as_str());
                text
            },
            ArgsError::EmptyModuleName => String::from_str("Module name cannot be empty"),
            ArgsError::InvalidStart { found } => {
                let mut text = String::from_str(
                    "Module name must start with a letter or underscore, got: ",
                );
                text.push(*found);
                text
            },
            ArgsError::InvalidCharacter { found } => {
                let mut text = String::from_str("Module name contains invalid character: ");
                text.push(*found);
                text.append(
                    ". Only alphanumeric characters, underscores, and hyphens are allowed",
                );
                text
            },
        }
    }
}

} // verus!

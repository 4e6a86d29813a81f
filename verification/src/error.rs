//! The errors of the pipeline and the warnings it reports.

use crate::paths::{display, display_of};
use std::path::PathBuf;
use vstd::prelude::*;

verus! {

/// The two kinds of declaration that are moved.
#[derive(Debug, Clone, Copy, PartialEq, Eq, Structural)]
pub enum DeclarationKind {
    Resource,
    Module,
}

/// What can go wrong between a source directory and a `moved` block.
#[derive(Debug, Clone)]
pub enum Error {
    /// The source directory could not be listed.
    Discovery { directory: PathBuf },
    /// A file could not be read.
    ReadFile { path: PathBuf },
    /// A file's text is not valid HCL.
    Parse { path: PathBuf },
    /// A declaration has too few labels for its kind. `source_file` is set where
    /// the declaration was read from a file.
    InvalidLabelArity { kind: DeclarationKind, source_file: Option<PathBuf> },
    /// A source path has no final component to name in the provenance comment.
    MissingFileName { path: PathBuf },
}

impl Error {
    /// The text of the error.
    pub open spec fn message_text(self) -> Seq<char> {
        match self {
            Error::Discovery { directory } => "Failed to read directory: "@ + display_of(directory),
            Error::ReadFile { path } => "Failed to read file: "@ + display_of(path),
            Error::Parse { path } => "Failed to parse HCL file: "@ + display_of(path),
            Error::InvalidLabelArity { kind: DeclarationKind::Resource, source_file: None } =>
                "resource blocks must have at least 2 labels"@,
            Error::InvalidLabelArity { kind: DeclarationKind::Module, source_file: None } =>
                "module blocks must have at least 1 label"@,
            Error::InvalidLabelArity { kind: DeclarationKind::Resource, source_file: Some(file) } =>
                "Resource block in "@ + display_of(file) + " has fewer than 2 labels"@,
            Error::InvalidLabelArity { kind: DeclarationKind::Module, source_file: Some(file) } =>
                "Module block in "@ + display_of(file) + " has no labels"@,
            Error::MissingFileName { path } => "Path must have filename: "@ + display_of(path),
        }
    }

    /// The text of the error, for people.
    pub fn message(&self) -> (text: String)
        ensures
            text@ == self.message_text(),
    {
        match self {
            Error::Discovery { directory } => prefixed("Failed to read directory: ", directory),
            Error::ReadFile { path } => prefixed("Failed to read file: ", path),
            Error::Parse { path } => prefixed("Failed to parse HCL file: ", path),
            Error::InvalidLabelArity { kind, source_file } => match source_file {
                None => match kind {
                    DeclarationKind::Resource => String::from_str(
                        "resource blocks must have at least 2 labels",
                    ),
                    DeclarationKind::Module => String::from_str(
                        "module blocks must have at least 1 label",
                    ),
                },
                Some(file) => match kind {
                    DeclarationKind::Resource => {
                        let mut text = prefixed("Resource block in ", file);
                        text.append(" has fewer than 2 labels");
                        text
                    },
                    DeclarationKind::Module => {
                        let mut text = prefixed("Module block in ", file);
                        text.append(" has no labels");
                        text
                    },
                },
            },
            Error::MissingFileName { path } => prefixed("Path must have filename: ", path),
        }
    }
}

/// `prefix` followed by the printed path.
fn prefixed(prefix: &str, path: &PathBuf) -> (text: String)
    ensures
        text@ == prefix@ + display_of(*path),
{
    let mut text = String::from_str(prefix);
    let shown = display(path);
    text.append(shown.as_str());
    text
}

/// The sink for warnings: the messages of what was skipped, in the order in which
/// it was skipped.
pub struct WarningSink {
    messages: Vec<String>,
}

impl View for WarningSink {
    type V = Seq<Seq<char>>;

    closed spec fn view(&self) -> Seq<Seq<char>> {
        self.messages@.map_values(|message: String| message@)
    }
}

impl WarningSink {
    /// A sink that holds no warning.
    pub fn new() -> (sink: Self)
        ensures
            sink@ == Seq::<Seq<char>>::empty(),
    {
        let sink = WarningSink { messages: Vec::new() };
        assert(sink@ =~= Seq::<Seq<char>>::empty());
        sink
    }

    /// Records one warning.
    pub fn warn(&mut self, message: String)
        ensures
            final(self)@ == old(self)@.push(message@),
    {
        self.messages.push(message);
        assert(self@ =~= old(self)@.push(message@));
    }

    /// The number of warnings held.
    pub fn len(&self) -> (count: usize)
        ensures
            count == self@.len(),
    {
        self.messages.len()
    }

    /// Hands out the warnings held, oldest first, and empties the sink.
    pub fn take(&mut self) -> (messages: Vec<String>)
        ensures
            messages@.map_values(|message: String| message@) == old(self)@,
            final(self)@ == Seq::<Seq<char>>::empty(),
    {
        let mut messages: Vec<String> = Vec::new();
        std::mem::swap(&mut self.messages, &mut messages);
        assert(self@ =~= Seq::<Seq<char>>::empty());
        messages
    }
}

} // verus!

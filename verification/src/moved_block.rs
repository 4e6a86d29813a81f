//! Classifying a declaration: is it a resource, a module, or of no interest?

use crate::address::{address_expression, address_parses, is_built_pair, refused_address};
use crate::document::{block_ident, block_labels, read_ident, read_labels};
use crate::error::{DeclarationKind, Error};
use crate::moved_module::{module_from_segments, module_to_segments, MovedModule};
use crate::moved_resource::{resource_from_segments, resource_to_segments, MovedResource};
use crate::paths::{file_name, file_name_of};
use crate::text::{same_text, texts};
use crate::to_moved_block::{is_assembled, Declaration, ToMovedBlock};
use hcl::edit::expr::Expression;
use hcl::edit::structure::Block;
use std::path::PathBuf;
use vstd::prelude::*;

verus! {

/// A declaration that is to be moved: a resource or a module.
#[derive(Debug, Clone)]
pub enum MovedBlock {
    Resource(MovedResource),
    Module(MovedModule),
}

/// A declaration that is to be moved, with its kind.
pub struct MovedBlockView {
    pub kind: DeclarationKind,
    pub declaration: Declaration,
}

impl MovedBlockView {
    /// The segments of the address before the move.
    pub open spec fn from_segments(self) -> Seq<Seq<char>> {
        match self.kind {
            DeclarationKind::Resource => resource_from_segments(self.declaration),
            DeclarationKind::Module => module_from_segments(self.declaration),
        }
    }

    /// The segments of the address after the move.
    pub open spec fn to_segments(self) -> Seq<Seq<char>> {
        match self.kind {
            DeclarationKind::Resource => resource_to_segments(self.declaration),
            DeclarationKind::Module => module_to_segments(self.declaration),
        }
    }

    /// Whether the parser accepts both addresses.
    pub open spec fn addresses_parse(self) -> bool {
        address_parses(self.from_segments()) && address_parses(self.to_segments())
    }

    /// The text of the first address that the parser does not accept, if there is
    /// one.
    pub open spec fn refused(self) -> Option<Seq<char>> {
        refused_address(self.from_segments(), self.to_segments())
    }

    /// Whether `result` is what assembling the `moved` block of this declaration
    /// gives: the block, or `MissingFileName` where the source path has no final
    /// component.
    pub open spec fn assembles_to(self, result: Result<Block, Error>) -> bool {
        is_assembled(
            result,
            address_expression(self.from_segments()),
            address_expression(self.to_segments()),
            self.declaration.source_file,
        )
    }
}

impl View for MovedBlock {
    type V = MovedBlockView;

    open spec fn view(&self) -> MovedBlockView {
        match self {
            MovedBlock::Resource(resource) => MovedBlockView {
                kind: DeclarationKind::Resource,
                declaration: resource@,
            },
            MovedBlock::Module(module) => MovedBlockView {
                kind: DeclarationKind::Module,
                declaration: module@,
            },
        }
    }
}

/// The outcome of classifying a declaration.
pub enum Classification {
    /// Not a kind of declaration that is moved: passed over in silence.
    Skip,
    /// A declaration to be moved.
    Built(MovedBlockView),
    /// A declaration of a kind that is moved, but one that cannot be written as a
    /// `moved` block: it has too few labels, or its source path has no file name.
    Failed(Error),
}

/// The outcome for a declaration of the kind `kind` that has labels enough: it is
/// to be moved, unless its source path has no file name to put into the comment
/// of the `moved` block, which is the failure `MissingFileName`.
pub open spec fn built_if_named(kind: DeclarationKind, declaration: Declaration) -> Classification {
    if file_name_of(declaration.source_file) is Some {
        Classification::Built(MovedBlockView { kind, declaration })
    } else {
        Classification::Failed(Error::MissingFileName { path: declaration.source_file })
    }
}

/// How a declaration with the given keyword and labels, found in `source_file`,
/// is classified.
///
/// A keyword other than `resource` and `module` is skipped. A resource with fewer
/// than two labels and a module without a label fail with `InvalidLabelArity`.
/// After that, a source path without a file name fails with `MissingFileName`.
/// What is left is a declaration to be moved.
pub open spec fn classification(
    ident: Seq<char>,
    labels: Seq<Seq<char>>,
    source_file: PathBuf,
    target_module: Seq<char>,
) -> Classification {
    let declaration = Declaration { labels, source_file, target_module };
    if ident == "resource"@ {
        if labels.len() < 2 {
            Classification::Failed(
                Error::InvalidLabelArity {
                    kind: DeclarationKind::Resource,
                    source_file: Some(source_file),
                },
            )
        } else {
            built_if_named(DeclarationKind::Resource, declaration)
        }
    } else if ident == "module"@ {
        if labels.len() < 1 {
            Classification::Failed(
                Error::InvalidLabelArity {
                    kind: DeclarationKind::Module,
                    source_file: Some(source_file),
                },
            )
        } else {
            built_if_named(DeclarationKind::Module, declaration)
        }
    } else {
        Classification::Skip
    }
}

/// A declaration of another kind is skipped, which is no failure. A resource or a
/// module with too few labels fails with `InvalidLabelArity`, naming the file; one
/// with labels enough whose source path has no file name fails with
/// `MissingFileName`; every other resource or module is built, with the labels,
/// the file and the target module it was given.
pub proof fn skip_versus_fail(
    ident: Seq<char>,
    labels: Seq<Seq<char>>,
    source_file: PathBuf,
    target_module: Seq<char>,
)
    ensures
        ident != "resource"@ && ident != "module"@ ==> classification(
            ident,
            labels,
            source_file,
            target_module,
        ) is Skip,
        ident == "resource"@ && labels.len() < 2 ==> classification(
            ident,
            labels,
            source_file,
            target_module,
        ) == Classification::Failed(
            Error::InvalidLabelArity {
                kind: DeclarationKind::Resource,
                source_file: Some(source_file),
            },
        ),
        ident == "module"@ && labels.len() < 1 ==> classification(
            ident,
            labels,
            source_file,
            target_module,
        ) == Classification::Failed(
            Error::InvalidLabelArity {
                kind: DeclarationKind::Module,
                source_file: Some(source_file),
            },
        ),
        (ident == "resource"@ && labels.len() >= 2 || ident == "module"@ && labels.len() >= 1)
            && file_name_of(source_file) is None ==> classification(
            ident,
            labels,
            source_file,
            target_module,
        ) == Classification::Failed(Error::MissingFileName { path: source_file }),
        ident == "resource"@ && labels.len() >= 2 && file_name_of(source_file) is Some
            ==> classification(ident, labels, source_file, target_module)
            == Classification::Built(
            MovedBlockView {
                kind: DeclarationKind::Resource,
                declaration: Declaration { labels, source_file, target_module },
            },
        ),
        ident == "module"@ && labels.len() >= 1 && file_name_of(source_file) is Some
            ==> classification(ident, labels, source_file, target_module)
            == Classification::Built(
            MovedBlockView {
                kind: DeclarationKind::Module,
                declaration: Declaration { labels, source_file, target_module },
            },
        ),
        classification(ident, labels, source_file, target_module) matches Classification::Built(
            moved,
        ) ==> file_name_of(moved.declaration.source_file) is Some,
{
    reveal_strlit("resource");
    reveal_strlit("module");
    assert("resource"@.len() != "module"@.len());
}

/// How `block`, found in `source_file`, is classified.
pub open spec fn block_classification(
    block: Block,
    source_file: PathBuf,
    target_module: Seq<char>,
) -> Classification {
    classification(block_ident(block), block_labels(block), source_file, target_module)
}

/// Whether `result` says what `outcome` says.
pub open spec fn is_outcome(
    result: Option<Result<MovedBlock, Error>>,
    outcome: Classification,
) -> bool {
    match result {
        None => outcome is Skip,
        Some(Ok(moved)) => outcome == Classification::Built(moved@),
        Some(Err(error)) => outcome == Classification::Failed(error),
    }
}

impl MovedBlock {
    /// Classifies a declaration by its keyword and labels.
    ///
    /// `None` for a keyword other than `resource` and `module`. `InvalidLabelArity`
    /// for a resource with fewer than two labels or a module without a label. Then
    /// `MissingFileName` where `file_path` has no file name, since no `moved` block
    /// can be written for such a declaration. Else the declaration to be moved.
    pub fn classify(
        ident: &str,
        labels: Vec<String>,
        file_path: &PathBuf,
        module_name: &str,
    ) -> (result: Option<Result<Self, Error>>)
        ensures
            is_outcome(result, classification(ident@, texts(labels@), *file_path, module_name@)),
    {
        if same_text(ident, "resource") {
            if labels.len() < 2 {
                return Some(
                    Err(
                        Error::InvalidLabelArity {
                            kind: DeclarationKind::Resource,
                            source_file: Some(file_path.clone()),
                        },
                    ),
                );
            }
            if file_name(file_path).is_none() {
                return Some(Err(Error::MissingFileName { path: file_path.clone() }));
            }
            match MovedResource::new(labels, file_path.clone(), module_name.to_owned()) {
                Ok(resource) => Some(Ok(MovedBlock::Resource(resource))),
                Err(error) => Some(Err(error)),
            }
        } else if same_text(ident, "module") {
            if labels.is_empty() {
                return Some(
                    Err(
                        Error::InvalidLabelArity {
                            kind: DeclarationKind::Module,
                            source_file: Some(file_path.clone()),
                        },
                    ),
                );
            }
            if file_name(file_path).is_none() {
                return Some(Err(Error::MissingFileName { path: file_path.clone() }));
            }
            match MovedModule::new(labels, file_path.clone(), module_name.to_owned()) {
                Ok(module) => Some(Ok(MovedBlock::Module(module))),
                Err(error) => Some(Err(error)),
            }
        } else {
            None
        }
    }

    /// Classifies a block of an HCL document, found in `file_path`, by its keyword
    /// and its labels, as `classify` does.
    pub fn from_block(block: &Block, file_path: &PathBuf, module_name: &str) -> (result: Option<
        Result<Self, Error>,
    >)
        ensures
            is_outcome(result, block_classification(*block, *file_path, module_name@)),
    {
        let ident = read_ident(block);
        let labels = read_labels(block);
        assert(texts(labels@) =~= block_labels(*block));
        Self::classify(ident.as_str(), labels, file_path, module_name)
    }

    /// The path of the file that the declaration was found in.
    pub fn file_path(&self) -> (path: &PathBuf)
        ensures
            *path == self@.declaration.source_file,
    {
        match self {
            MovedBlock::Resource(resource) => resource.file_path(),
            MovedBlock::Module(module) => module.file_path(),
        }
    }

    /// Both address expressions of the declaration, each parsed once; or, where
    /// the parser does not accept one of them, the text of the first that it
    /// refuses.
    pub fn try_expressions(&self) -> (result: Result<(Expression, Expression), String>)
        ensures
            is_built_pair(result, self@.from_segments(), self@.to_segments()),
    {
        match self {
            MovedBlock::Resource(resource) => resource.try_expressions(),
            MovedBlock::Module(module) => module.try_expressions(),
        }
    }

    /// Whether the parser accepts both addresses of the declaration.
    pub fn addresses_parse(&self) -> (accepted: bool)
        ensures
            accepted == self@.addresses_parse(),
    {
        match self {
            MovedBlock::Resource(resource) => resource.addresses_parse(),
            MovedBlock::Module(module) => module.addresses_parse(),
        }
    }

    /// The `moved` block of the declaration.
    ///
    /// The parser must accept both addresses; `try_to_block` tests that first.
    pub fn to_block(&self) -> (result: Result<Block, Error>)
        requires
            self@.addresses_parse(),
        ensures
            self@.assembles_to(result),
    {
        match self {
            MovedBlock::Resource(resource) => resource.to_block(),
            MovedBlock::Module(module) => module.to_block(),
        }
    }

    /// The `moved` block of the declaration, or `None` where the parser does not
    /// accept one of its addresses: tests the addresses, then calls `to_block`.
    pub fn try_to_block(&self) -> (result: Option<Result<Block, Error>>)
        ensures
            match result {
                None => !self@.addresses_parse(),
                Some(assembled) => self@.addresses_parse() && self@.assembles_to(assembled),
            },
    {
        if self.addresses_parse() {
            Some(self.to_block())
        } else {
            None
        }
    }
}

} // verus!

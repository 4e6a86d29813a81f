//! Assembling a `moved` block, shared by every kind of declaration.
//!
//! A `moved` block holds two attributes, `from` and `to`, each indented by two
//! spaces, and is preceded by a comment that names the file the declaration was
//! found in.

use crate::address::{address_expression, address_parses};
use crate::document::{
    attribute_key, attribute_prefix, attribute_value, block_body, block_ident, block_labels,
    block_prefix, body_attributes, body_blocks, is_ascii_identifier, new_attribute, new_block,
    set_attribute_prefix, set_block_prefix,
};
use crate::error::Error;
use crate::paths::{file_name, file_name_of};
use hcl::edit::expr::Expression;
use hcl::edit::structure::{Attribute, Block};
use std::path::PathBuf;
use vstd::prelude::*;

verus! {

/// What a declaration to be moved consists of: its labels, the file it was found
/// in, and the module it moves into.
pub struct Declaration {
    pub labels: Seq<Seq<char>>,
    pub source_file: PathBuf,
    pub target_module: Seq<char>,
}

/// The comment in front of a `moved` block: `# From: <file name>` and a line break.
pub open spec fn provenance_comment(file_name: Seq<char>) -> Seq<char> {
    "# From: "@ + file_name + "\n"@
}

/// Whether `attribute` is `key = value`, indented by two spaces.
pub open spec fn is_indented_attribute(
    attribute: Attribute,
    key: Seq<char>,
    value: Expression,
) -> bool {
    &&& attribute_key(attribute) == key
    &&& attribute_value(attribute) == value
    &&& attribute_prefix(attribute) == Some("  "@)
}

/// Whether `block` is the `moved` block for the two addresses, found in the file
/// named `file_name`.
pub open spec fn is_moved_block(
    block: Block,
    from: Expression,
    to: Expression,
    file_name: Seq<char>,
) -> bool {
    let attributes = body_attributes(block_body(block));
    &&& block_ident(block) == "moved"@
    &&& block_labels(block).len() == 0
    &&& block_prefix(block) == Some(provenance_comment(file_name))
    &&& body_blocks(block_body(block)).len() == 0
    &&& attributes.len() == 2
    &&& is_indented_attribute(attributes[0], "from"@, from)
    &&& is_indented_attribute(attributes[1], "to"@, to)
}

/// What assembling gives for two address expressions and a source path: the
/// `moved` block, or `MissingFileName` exactly where the path has no final
/// component.
pub open spec fn is_assembled(
    result: Result<Block, Error>,
    from: Expression,
    to: Expression,
    source_file: PathBuf,
) -> bool {
    match result {
        Ok(block) => file_name_of(source_file) matches Some(name) && is_moved_block(
            block,
            from,
            to,
            name,
        ),
        Err(error) => file_name_of(source_file) is None && error == (Error::MissingFileName {
            path: source_file,
        }),
    }
}

proof fn lemma_keywords_are_identifiers()
    ensures
        is_ascii_identifier("from"@),
        is_ascii_identifier("to"@),
        is_ascii_identifier("moved"@),
        "from"@ != "to"@,
{
    reveal_strlit("from");
    reveal_strlit("to");
    reveal_strlit("moved");
}

/// Assembles the `moved` block for two address expressions and the path of the
/// file the declaration was found in.
///
/// Fails with `MissingFileName` exactly where the path has no final component.
pub fn assemble(from: Expression, to: Expression, source_file: &PathBuf) -> (result: Result<
    Block,
    Error,
>)
    ensures
        is_assembled(result, from, to, *source_file),
{
    proof {
        lemma_keywords_are_identifiers();
    }
    let mut from_attribute = new_attribute("from", from);
    set_attribute_prefix(&mut from_attribute, "  ");

    let mut to_attribute = new_attribute("to", to);
    set_attribute_prefix(&mut to_attribute, "  ");

    let mut block = new_block("moved", from_attribute, to_attribute);

    match file_name(source_file) {
        None => Err(Error::MissingFileName { path: source_file.clone() }),
        Some(name) => {
            let mut comment = String::from_str("# From: ");
            comment.append(name.as_str());
            comment.append("\n");
            set_block_prefix(&mut block, comment.as_str());
            Ok(block)
        },
    }
}

/// A declaration that can be written as a `moved` block.
pub trait ToMovedBlock {
    /// The segments of the address that the declaration has now.
    spec fn from_segments(&self) -> Seq<Seq<char>>;

    /// The segments of the address that the declaration moves to.
    spec fn to_segments(&self) -> Seq<Seq<char>>;

    /// The path of the file that the declaration was found in.
    spec fn source_file(&self) -> PathBuf;

    /// The expression of the address that the declaration has now.
    fn from_expression(&self) -> (expression: Expression)
        requires
            address_parses(self.from_segments()),
        ensures
            expression == address_expression(self.from_segments()),
    ;

    /// The expression of the address that the declaration moves to.
    fn to_expression(&self) -> (expression: Expression)
        requires
            address_parses(self.to_segments()),
        ensures
            expression == address_expression(self.to_segments()),
    ;

    /// The path of the file that the declaration was found in.
    fn file_path(&self) -> (path: &PathBuf)
        ensures
            *path == self.source_file(),
    ;

    /// Whether the parser accepts both addresses of the declaration.
    fn addresses_parse(&self) -> (accepted: bool)
        ensures
            accepted == (address_parses(self.from_segments()) && address_parses(
                self.to_segments(),
            )),
    ;

    /// The `moved` block of the declaration.
    ///
    /// The parser must accept both addresses; `try_to_block` tests that first.
    /// Fails with `MissingFileName` exactly where the source path has no final
    /// component.
    fn to_block(&self) -> (result: Result<Block, Error>)
        requires
            address_parses(self.from_segments()),
            address_parses(self.to_segments()),
        ensures
            is_assembled(
                result,
                address_expression(self.from_segments()),
                address_expression(self.to_segments()),
                self.source_file(),
            ),
    {
        let from = self.from_expression();
        let to = self.to_expression();
        assemble(from, to, self.file_path())
    }

    /// The `moved` block of the declaration, or `None` where the parser does not
    /// accept one of its addresses: tests the addresses, then calls `to_block`.
    fn try_to_block(&self) -> (result: Option<Result<Block, Error>>)
        ensures
            match result {
                None => !(address_parses(self.from_segments()) && address_parses(
                    self.to_segments(),
                )),
                Some(assembled) => {
                    &&& address_parses(self.from_segments())
                    &&& address_parses(self.to_segments())
                    &&& is_assembled(
                        assembled,
                        address_expression(self.from_segments()),
                        address_expression(self.to_segments()),
                        self.source_file(),
                    )
                },
            },
    {
        if self.addresses_parse() {
            Some(self.to_block())
        } else {
            None
        }
    }
}

} // verus!

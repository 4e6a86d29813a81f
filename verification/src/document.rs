//! The HCL document tree, as provided by the `hcl-edit` crate.
//!
//! The node types are opaque here. What the library needs to know of a node is
//! named by a specification function (the keyword of a block, the attributes of a
//! body, ...), and every call into `hcl-edit` goes through one of the small
//! functions below, whose contracts are taken on trust.

use hcl::edit::expr::Expression;
use hcl::edit::parser::Error as ParseError;
use hcl::edit::structure::{Attribute, Block, Body, BodyBuilder};
use hcl::edit::{Decorate, Ident};
use vstd::prelude::*;

verus! {

/// `hcl::edit::expr::Expression`: an expression of the HCL expression sub-language.
#[verifier::external_type_specification]
#[verifier::external_body]
pub struct ExExpression(Expression);

/// `hcl::edit::structure::Attribute`: a `key = value` attribute.
#[verifier::external_type_specification]
#[verifier::external_body]
pub struct ExAttribute(Attribute);

/// `hcl::edit::structure::Block`: a block with its keyword, labels and body.
#[verifier::external_type_specification]
#[verifier::external_body]
pub struct ExBlock(Block);

/// `hcl::edit::structure::Body`: the structures of a file or of a block.
#[verifier::external_type_specification]
#[verifier::external_body]
pub struct ExBody(Body);

/// `hcl::edit::structure::BodyBuilder`: collects the structures of a new body.
#[verifier::external_type_specification]
#[verifier::external_body]
pub struct ExBodyBuilder(BodyBuilder);

/// `hcl::edit::parser::Error`: the error of the HCL parser.
#[verifier::external_type_specification]
#[verifier::external_body]
pub struct ExParseError(ParseError);

/// What `hcl::edit::parser::parse_body` returns for the text `input`.
pub uninterp spec fn parse_body_result(input: Seq<char>) -> Result<Body, ParseError>;

/// The blocks directly inside `body`, in document order.
pub uninterp spec fn body_blocks(body: Body) -> Seq<Block>;

/// The attributes directly inside `body`, in document order.
pub uninterp spec fn body_attributes(body: Body) -> Seq<Attribute>;

/// The body that `builder` has collected so far.
pub uninterp spec fn builder_body(builder: BodyBuilder) -> Body;

/// The keyword (identifier) of `block`.
pub uninterp spec fn block_ident(block: Block) -> Seq<char>;

/// The labels of `block` as plain text, in order.
pub uninterp spec fn block_labels(block: Block) -> Seq<Seq<char>>;

/// The body of `block`.
pub uninterp spec fn block_body(block: Block) -> Body;

/// The prefix decoration of `block`: the raw text rendered before it, if set.
pub uninterp spec fn block_prefix(block: Block) -> Option<Seq<char>>;

/// The key of `attribute`.
pub uninterp spec fn attribute_key(attribute: Attribute) -> Seq<char>;

/// The value expression of `attribute`.
pub uninterp spec fn attribute_value(attribute: Attribute) -> Expression;

/// The prefix decoration of `attribute`: the raw text rendered before it, if set.
pub uninterp spec fn attribute_prefix(attribute: Attribute) -> Option<Seq<char>>;

/// Whether `c` is one of `a` to `z` or `A` to `Z`.
pub open spec fn is_ascii_letter(c: char) -> bool {
    ('a' <= c && c <= 'z') || ('A' <= c && c <= 'Z')
}

/// Whether `c` is one of `0` to `9`.
pub open spec fn is_ascii_digit(c: char) -> bool {
    '0' <= c && c <= '9'
}

/// Text that is a valid HCL identifier whatever the Unicode tables say: an ASCII
/// letter or `_`, followed by ASCII letters, digits, `_` or `-`.
pub open spec fn is_ascii_identifier(text: Seq<char>) -> bool {
    &&& text.len() > 0
    &&& is_ascii_letter(text[0]) || text[0] == '_'
    &&& forall|i: int|
        0 < i < text.len() ==> is_ascii_letter(#[trigger] text[i]) || is_ascii_digit(text[i])
            || text[i] == '_' || text[i] == '-'
}

/// `hcl::edit::parser::parse_body`: what the parser returns depends on the input
/// text alone. The parser recurses over nested expressions; the stack, like
/// memory, is taken to suffice.
#[verifier::external_body]
pub(crate) fn parse_body(input: &str) -> (result: Result<Body, ParseError>)
    ensures
        result == parse_body_result(input@),
{
    hcl::edit::parser::parse_body(input)
}

/// `Body::blocks`, each block cloned: the blocks of the body in document order.
#[verifier::external_body]
pub(crate) fn read_blocks(body: &Body) -> (blocks: Vec<Block>)
    ensures
        blocks@ == body_blocks(*body),
{
    body.blocks().cloned().collect()
}

/// `Body::attributes`, the value of each attribute cloned: the values of the
/// attributes of the body, in document order.
#[verifier::external_body]
pub(crate) fn read_attribute_values(body: &Body) -> (values: Vec<Expression>)
    ensures
        values@.len() == body_attributes(*body).len(),
        forall|i: int|
            0 <= i < values@.len() ==> values@[i] == attribute_value(
                #[trigger] body_attributes(*body)[i],
            ),
{
    body.attributes().map(|attribute| attribute.value.clone()).collect()
}

/// The `ident` field of a block, printed into a `String`: the keyword of the block.
#[verifier::external_body]
pub(crate) fn read_ident(block: &Block) -> (ident: String)
    ensures
        ident@ == block_ident(*block),
{
    block.ident.value().to_string()
}

/// The `labels` field of a block, each label copied into a `String`
/// (`BlockLabel::as_str`): the labels of the block, in order.
#[verifier::external_body]
pub(crate) fn read_labels(block: &Block) -> (labels: Vec<String>)
    ensures
        labels@.len() == block_labels(*block).len(),
        forall|i: int|
            0 <= i < labels@.len() ==> (#[trigger] labels@[i])@ == block_labels(*block)[i],
{
    block.labels.iter().map(|label| label.as_str().to_string()).collect()
}

/// `Block::clone`: the copy is the same block.
#[verifier::external_body]
pub(crate) fn clone_block(block: &Block) -> (copy: Block)
    ensures
        copy == *block,
{
    block.clone()
}

/// `Attribute::new` with the key made by `Ident::new`, which panics unless the
/// key is a valid identifier. The new attribute has no decoration.
#[verifier::external_body]
pub(crate) fn new_attribute(key: &str, value: Expression) -> (attribute: Attribute)
    requires
        is_ascii_identifier(key@),
    ensures
        attribute_key(attribute) == key@,
        attribute_value(attribute) == value,
        attribute_prefix(attribute) is None,
{
    Attribute::new(Ident::new(key), value)
}

/// `Decor::set_prefix` on the decoration of an attribute: only the prefix changes.
#[verifier::external_body]
pub(crate) fn set_attribute_prefix(attribute: &mut Attribute, prefix: &str)
    ensures
        attribute_prefix(*final(attribute)) == Some(prefix@),
        attribute_key(*final(attribute)) == attribute_key(*old(attribute)),
        attribute_value(*final(attribute)) == attribute_value(*old(attribute)),
{
    attribute.decor_mut().set_prefix(prefix);
}

/// `Block::builder` with two `attribute` calls and `build`. The builder drops an
/// attribute whose key is already in the body, so the keys must differ. The new
/// block has no labels, no nested block and no decoration.
#[verifier::external_body]
pub(crate) fn new_block(ident: &str, first: Attribute, second: Attribute) -> (block: Block)
    requires
        is_ascii_identifier(ident@),
        attribute_key(first) != attribute_key(second),
    ensures
        block_ident(block) == ident@,
        block_labels(block).len() == 0,
        body_attributes(block_body(block)) == seq![first, second],
        body_blocks(block_body(block)).len() == 0,
        block_prefix(block) is None,
{
    Block::builder(Ident::new(ident)).attribute(first).attribute(second).build()
}

/// `Decor::set_prefix` on the decoration of a block: only the prefix changes.
#[verifier::external_body]
pub(crate) fn set_block_prefix(block: &mut Block, prefix: &str)
    ensures
        block_prefix(*final(block)) == Some(prefix@),
        block_ident(*final(block)) == block_ident(*old(block)),
        block_labels(*final(block)) == block_labels(*old(block)),
        block_body(*final(block)) == block_body(*old(block)),
{
    block.decor_mut().set_prefix(prefix);
}

/// `Body::builder`: a builder whose body is empty.
#[verifier::external_body]
pub(crate) fn body_builder() -> (builder: BodyBuilder)
    ensures
        body_blocks(builder_body(builder)).len() == 0,
        body_attributes(builder_body(builder)).len() == 0,
{
    Body::builder()
}

/// `BodyBuilder::block`: the block is appended; a block is never dropped.
#[verifier::external_body]
pub(crate) fn add_block(builder: BodyBuilder, block: Block) -> (extended: BodyBuilder)
    ensures
        body_blocks(builder_body(extended)) == body_blocks(builder_body(builder)).push(block),
        body_attributes(builder_body(extended)) == body_attributes(builder_body(builder)),
{
    builder.block(block)
}

/// `BodyBuilder::build`: hands out the collected body.
#[verifier::external_body]
pub(crate) fn finish_body(builder: BodyBuilder) -> (body: Body)
    ensures
        body == builder_body(builder),
{
    builder.build()
}

} // verus!

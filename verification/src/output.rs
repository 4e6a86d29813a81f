//! The output document: the `moved` blocks, in the order in which they were found.

use crate::document::{
    add_block, body_attributes, body_blocks, body_builder, builder_body, clone_block, finish_body,
};
use crate::error::{Error, WarningSink};
use crate::moved_block::{MovedBlock, MovedBlockView};
use crate::paths::file_name_of;
use crate::to_moved_block::assemble;
use hcl::edit::structure::{Block, Body};
use vstd::prelude::*;

verus! {

/// The warning for a declaration whose block could not be assembled.
pub open spec fn conversion_warning(error: Error) -> Seq<char> {
    "Warning: Failed to convert moved block: "@ + error.message_text()
}

/// Whether collecting the declaration `moved` leads from the blocks and warnings
/// `before` to those `after`: its block is appended; or, where its source path has
/// no file name, that failure is reported and no block is added.
pub open spec fn is_collected(
    moved: MovedBlockView,
    before: (Seq<Block>, Seq<Seq<char>>),
    after: (Seq<Block>, Seq<Seq<char>>),
) -> bool {
    if file_name_of(moved.declaration.source_file) is Some {
        &&& after.0.len() == before.0.len() + 1
        &&& after.0.drop_last() == before.0
        &&& moved.assembles_to(Ok(after.0.last()))
        &&& after.1 == before.1
    } else {
        &&& after.0 == before.0
        &&& after.1 == before.1.push(
            conversion_warning(Error::MissingFileName { path: moved.declaration.source_file }),
        )
    }
}

/// Collects the block of one declaration that the pipeline handed out.
///
/// Both addresses of the declaration are parsed, each once, and the `moved` block
/// is assembled from them and appended to `blocks`. Where assembling fails, the
/// failure is reported to `sink` and no block is added.
///
/// Where the parser does not accept one of the addresses, nothing changes and the
/// text of the first address that it refuses comes back as the error. That is no
/// warning but a fault, which the caller must not pass over.
pub fn collect_moved_block(
    moved_block: &MovedBlock,
    blocks: &mut Vec<Block>,
    sink: &mut WarningSink,
) -> (result: Result<(), String>)
    ensures
        match result {
            Ok(_) => moved_block@.addresses_parse() && is_collected(
                moved_block@,
                (old(blocks)@, old(sink)@),
                (final(blocks)@, final(sink)@),
            ),
            Err(address) => {
                &&& moved_block@.refused() == Some(address@)
                &&& final(blocks)@ == old(blocks)@
                &&& final(sink)@ == old(sink)@
            },
        },
{
    let (from, to) = match moved_block.try_expressions() {
        Ok(expressions) => expressions,
        Err(address) => {
            return Err(address);
        },
    };
    match assemble(from, to, moved_block.file_path()) {
        Ok(block) => {
            blocks.push(block);
            assert(blocks@.drop_last() =~= old(blocks)@);
        },
        Err(error) => {
            let mut warning = String::from_str("Warning: Failed to convert moved block: ");
            let message = error.message();
            warning.append(message.as_str());
            sink.warn(warning);
        },
    }
    Ok(())
}

/// Builds the output body from the collected blocks.
///
/// The body holds the given blocks, in the given order, and nothing else.
pub fn build_output_body(blocks: &[Block]) -> (body: Body)
    ensures
        body_blocks(body) == blocks@,
        body_attributes(body).len() == 0,
{
    let mut builder = body_builder();
    let mut index: usize = 0;
    while index < blocks.len()
        invariant
            index <= blocks.len(),
            body_blocks(builder_body(builder)) == blocks@.take(index as int),
            body_attributes(builder_body(builder)).len() == 0,
        decreases blocks.len() - index,
    {
        builder = add_block(builder, clone_block(&blocks[index]));
        assert(blocks@.take(index + 1) =~= blocks@.take(index as int).push(blocks@[index as int]));
        index += 1;
    }
    assert(blocks@.take(index as int) =~= blocks@);
    finish_body(builder)
}

} // verus!

//! The pipeline from a source directory to the declarations that are moved.
//!
//! The pipeline is pulled one step at a time. It never reads a file itself: where
//! it needs the text of the next file it says so, and the caller hands the content
//! back. Whatever cannot be used (a failed discovery, an unreadable or malformed
//! file, a declaration that fails to classify) is reported to the warning sink and
//! passed over.

use crate::document::{body_blocks, read_blocks};
use crate::error::{Error, WarningSink};
use crate::file_discovery::{listing_warnings, DirectoryListing};
use crate::moved_block::{block_classification, Classification, MovedBlock, MovedBlockView};
use crate::parser::{parse_outcome, parse_terraform_file, FileContent};
use crate::paths::{display, display_of};
use crate::terraform_files::{discovered, TerraformFiles};
use hcl::edit::structure::{Block, Body};
use std::path::PathBuf;
use vstd::prelude::*;

verus! {

/// The number of leading entries that are discovery errors.
pub open spec fn failed_prefix(files: Seq<Result<PathBuf, Error>>) -> nat
    decreases files.len(),
{
    if files.len() > 0 && files[0] is Err {
        1 + failed_prefix(files.drop_first())
    } else {
        0
    }
}

/// The warning for a discovery error.
pub open spec fn discovery_warning(error: Error) -> Seq<char> {
    "Warning: Failed to discover file: "@ + error.message_text()
}

/// The warnings for the discovery errors among the entries, in order.
pub open spec fn discovery_warnings(files: Seq<Result<PathBuf, Error>>) -> Seq<Seq<char>>
    decreases files.len(),
{
    if files.len() == 0 {
        Seq::empty()
    } else {
        match files.last() {
            Err(error) => discovery_warnings(files.drop_last()).push(discovery_warning(error)),
            Ok(_) => discovery_warnings(files.drop_last()),
        }
    }
}

/// The warning for a file whose content could not be parsed.
pub open spec fn parse_warning(file: PathBuf, error: Error) -> Seq<char> {
    "Warning: Failed to parse "@ + display_of(file) + ": "@ + error.message_text()
}

/// The number of leading blocks that are not declarations to be moved.
pub open spec fn skipped_prefix(blocks: Seq<Block>, file: PathBuf, module: Seq<char>) -> nat
    decreases blocks.len(),
{
    if blocks.len() > 0 && !(block_classification(blocks[0], file, module) is Built) {
        1 + skipped_prefix(blocks.drop_first(), file, module)
    } else {
        0
    }
}

/// The warning for a declaration that failed to classify.
pub open spec fn block_warning(error: Error) -> Seq<char> {
    "Warning: "@ + error.message_text()
}

/// The warnings for the declarations among the blocks that failed to classify, in
/// order.
pub open spec fn block_warnings(blocks: Seq<Block>, file: PathBuf, module: Seq<char>) -> Seq<
    Seq<char>,
>
    decreases blocks.len(),
{
    if blocks.len() == 0 {
        Seq::empty()
    } else {
        match block_classification(blocks.last(), file, module) {
            Classification::Failed(error) => block_warnings(blocks.drop_last(), file, module).push(
                block_warning(error),
            ),
            _ => block_warnings(blocks.drop_last(), file, module),
        }
    }
}

/// The declarations to be moved among the blocks, in the order of the blocks.
pub open spec fn declarations_of(blocks: Seq<Block>, file: PathBuf, module: Seq<char>) -> Seq<
    MovedBlockView,
>
    decreases blocks.len(),
{
    if blocks.len() == 0 {
        Seq::empty()
    } else {
        match block_classification(blocks[0], file, module) {
            Classification::Built(moved) => seq![moved] + declarations_of(
                blocks.drop_first(),
                file,
                module,
            ),
            _ => declarations_of(blocks.drop_first(), file, module),
        }
    }
}

/// The blocks of a document are worked through in order: the declarations among
/// them are the one that the pipeline hands out first, followed by those among the
/// blocks that come after it; and there is none where the pipeline hands out none.
pub proof fn declarations_in_order(blocks: Seq<Block>, file: PathBuf, module: Seq<char>)
    ensures
        skipped_prefix(blocks, file, module) <= blocks.len(),
        skipped_prefix(blocks, file, module) < blocks.len() ==> {
            let first = skipped_prefix(blocks, file, module) as int;
            &&& block_classification(blocks[first], file, module) is Built
            &&& declarations_of(blocks, file, module) == seq![
                block_classification(blocks[first], file, module)->Built_0,
            ] + declarations_of(blocks.skip(first + 1), file, module)
        },
        skipped_prefix(blocks, file, module) == blocks.len() ==> declarations_of(
            blocks,
            file,
            module,
        ) == Seq::<MovedBlockView>::empty(),
    decreases blocks.len(),
{
    if blocks.len() > 0 {
        let rest = blocks.drop_first();
        if block_classification(blocks[0], file, module) is Built {
            assert(blocks.skip(1) =~= rest);
        } else {
            declarations_in_order(rest, file, module);
            let first = skipped_prefix(rest, file, module) as int;
            if first < rest.len() {
                assert(rest[first] == blocks[first + 1]);
                assert(rest.skip(first + 1) =~= blocks.skip(first + 2));
            }
        }
    }
}

/// A block of another kind is passed over without a warning; a declaration that
/// fails to classify gives exactly one warning.
pub proof fn warnings_of_one_block(block: Block, file: PathBuf, module: Seq<char>)
    ensures
        block_warnings(seq![block], file, module) == match block_classification(
            block,
            file,
            module,
        ) {
            Classification::Failed(error) => seq![block_warning(error)],
            _ => Seq::<Seq<char>>::empty(),
        },
{
    assert(seq![block].drop_last() =~= Seq::<Block>::empty());
    assert(block_warnings(seq![block].drop_last(), file, module) =~= Seq::<Seq<char>>::empty());
}

proof fn lemma_failed_prefix(files: Seq<Result<PathBuf, Error>>, count: nat)
    requires
        count <= files.len(),
        forall|i: int| 0 <= i < count ==> files[i] is Err,
        count < files.len() ==> files[count as int] is Ok,
    ensures
        failed_prefix(files) == count,
    decreases count,
{
    if count > 0 {
        let rest = files.drop_first();
        assert forall|i: int| 0 <= i < count - 1 implies rest[i] is Err by {
            assert(rest[i] == files[i + 1]);
        }
        lemma_failed_prefix(rest, (count - 1) as nat);
    }
}

proof fn lemma_skipped_prefix(blocks: Seq<Block>, file: PathBuf, module: Seq<char>, count: nat)
    requires
        count <= blocks.len(),
        forall|i: int| 0 <= i < count ==> !(block_classification(blocks[i], file, module) is Built),
        count < blocks.len() ==> block_classification(blocks[count as int], file, module) is Built,
    ensures
        skipped_prefix(blocks, file, module) == count,
    decreases count,
{
    if count > 0 {
        let rest = blocks.drop_first();
        assert forall|i: int| 0 <= i < count - 1 implies !(block_classification(
            rest[i],
            file,
            module,
        ) is Built) by {
            assert(rest[i] == blocks[i + 1]);
        }
        lemma_skipped_prefix(rest, file, module, (count - 1) as nat);
    }
}

/// The discovered files that have not been handed out yet.
#[derive(Debug)]
pub struct ParsedFiles {
    files: Vec<Result<PathBuf, Error>>,
    position: usize,
}

impl View for ParsedFiles {
    type V = Seq<Result<PathBuf, Error>>;

    closed spec fn view(&self) -> Seq<Result<PathBuf, Error>> {
        self.files@.skip(self.position as int)
    }
}

impl ParsedFiles {
    #[verifier::type_invariant]
    spec fn position_is_within(self) -> bool {
        self.position <= self.files@.len()
    }

    /// The files of a source directory, given its listing. An entry of the listing
    /// that could not be read is reported to `sink`.
    pub fn new(
        files: TerraformFiles,
        listing: &DirectoryListing,
        sink: &mut WarningSink,
    ) -> (parsed: Self)
        ensures
            parsed@ == discovered(files@, *listing),
            final(sink)@ == old(sink)@ + listing_warnings(*listing),
    {
        let parsed = ParsedFiles { files: files.into_iter(listing, sink), position: 0 };
        assert(parsed@ =~= parsed.files@);
        parsed
    }

    /// Hands out the path of the next file to read, or `None` at the end.
    ///
    /// Discovery errors that come before it are reported to `sink` and passed over.
    pub fn next_file(&mut self, sink: &mut WarningSink) -> (file: Option<PathBuf>)
        ensures
            final(sink)@ == old(sink)@ + discovery_warnings(
                old(self)@.take(failed_prefix(old(self)@) as int),
            ),
            match file {
                Some(path) => {
                    &&& failed_prefix(old(self)@) < old(self)@.len()
                    &&& old(self)@[failed_prefix(old(self)@) as int] == Ok::<PathBuf, Error>(path)
                    &&& final(self)@ == old(self)@.skip(failed_prefix(old(self)@) + 1int)
                },
                None => {
                    &&& failed_prefix(old(self)@) == old(self)@.len()
                    &&& final(self)@ == Seq::<Result<PathBuf, Error>>::empty()
                },
            },
    {
        proof {
            use_type_invariant(&*self);
        }
        let ghost pending = self@;
        let ghost start = self.position as int;
        assert(sink@ + discovery_warnings(pending.take(0)) =~= sink@);
        while self.position < self.files.len()
            invariant
                self.files == old(self).files,
                start == old(self).position,
                pending == old(self)@,
                start <= self.position <= self.files@.len(),
                forall|i: int| 0 <= i < self.position - start ==> pending[i] is Err,
                sink@ == old(sink)@ + discovery_warnings(pending.take(self.position - start)),
            decreases self.files.len() - self.position,
        {
            let ghost count = self.position - start;
            assert(pending[count] == self.files@[self.position as int]);
            assert(pending.take(count + 1).drop_last() =~= pending.take(count));
            match &self.files[self.position] {
                Ok(path) => {
                    let path = path.clone();
                    self.position += 1;
                    proof {
                        lemma_failed_prefix(pending, count as nat);
                        assert(self@ =~= pending.skip(count + 1));
                    }
                    return Some(path);
                },
                Err(error) => {
                    let mut warning = String::from_str("Warning: Failed to discover file: ");
                    let message = error.message();
                    warning.append(message.as_str());
                    sink.warn(warning);
                    assert(sink@ =~= old(sink)@ + discovery_warnings(pending.take(count + 1)));
                },
            }
            self.position += 1;
        }
        proof {
            lemma_failed_prefix(pending, (self.position - start) as nat);
            assert(self@ =~= Seq::<Result<PathBuf, Error>>::empty());
        }
        None
    }

    /// Parses the content that was read from `file`. Where that fails, the failure
    /// is reported to `sink` and the file is passed over.
    pub fn parse(file: PathBuf, content: &FileContent, sink: &mut WarningSink) -> (parsed: Option<
        (PathBuf, Body),
    >)
        ensures
            match parse_outcome(file, *content) {
                Ok(body) => parsed == Some((file, body)) && final(sink)@ == old(sink)@,
                Err(error) => parsed is None && final(sink)@ == old(sink)@.push(
                    parse_warning(file, error),
                ),
            },
    {
        match parse_terraform_file(&file, content) {
            Ok(body) => Some((file, body)),
            Err(error) => {
                let mut warning = String::from_str("Warning: Failed to parse ");
                let shown = display(&file);
                warning.append(shown.as_str());
                warning.append(": ");
                let message = error.message();
                warning.append(message.as_str());
                sink.warn(warning);
                None
            },
        }
    }
}

/// What the caller of the pipeline has to do next.
#[derive(Debug)]
pub enum Step {
    /// A declaration that is to be moved was found.
    Moved(MovedBlock),
    /// The content of this file is needed: read it and hand it to
    /// `load_next_body`.
    Read(PathBuf),
    /// There is nothing left.
    Done,
}

/// The state of the pipeline: the files still to come, and the document that is
/// being worked through.
#[verifier::ext_equal]
pub struct MovedBlocksView {
    /// The discovered files that were not asked for yet.
    pub pending: Seq<Result<PathBuf, Error>>,
    /// The module that the declarations move into.
    pub target_module: Seq<char>,
    /// The file of the current document.
    pub current_file: Option<PathBuf>,
    /// The current document.
    pub document: Option<Body>,
    /// The blocks of the current document that were not classified yet.
    pub blocks: Seq<Block>,
}

impl MovedBlocksView {
    /// The number of blocks that the next step passes over.
    pub open spec fn skipped(self) -> nat {
        skipped_prefix(self.blocks, self.current_file->0, self.target_module)
    }

    /// Whether the current document still holds a declaration to be moved.
    pub open spec fn has_next_block(self) -> bool {
        self.skipped() < self.blocks.len()
    }

    /// The number of discovery errors that come before the next file.
    pub open spec fn failed(self) -> nat {
        failed_prefix(self.pending)
    }

    /// The warnings that the next step reports.
    pub open spec fn next_warnings(self) -> Seq<Seq<char>> {
        if self.has_next_block() {
            block_warnings(
                self.blocks.take(self.skipped() as int),
                self.current_file->0,
                self.target_module,
            )
        } else {
            block_warnings(self.blocks, self.current_file->0, self.target_module)
                + discovery_warnings(self.pending.take(self.failed() as int))
        }
    }

    /// The state after the next step.
    pub open spec fn after_next(self) -> MovedBlocksView {
        if self.has_next_block() {
            MovedBlocksView { blocks: self.blocks.skip(self.skipped() + 1int), ..self }
        } else {
            MovedBlocksView {
                pending: if self.failed() < self.pending.len() {
                    self.pending.skip(self.failed() + 1int)
                } else {
                    Seq::empty()
                },
                target_module: self.target_module,
                current_file: None,
                document: None,
                blocks: Seq::empty(),
            }
        }
    }

    /// Whether `step` is what the next step hands out.
    pub open spec fn next_is(self, step: Step) -> bool {
        match step {
            Step::Moved(moved) => self.has_next_block() && block_classification(
                self.blocks[self.skipped() as int],
                self.current_file->0,
                self.target_module,
            ) == Classification::Built(moved@),
            Step::Read(path) => !self.has_next_block() && self.failed() < self.pending.len()
                && self.pending[self.failed() as int] == Ok::<PathBuf, Error>(path),
            Step::Done => !self.has_next_block() && self.failed() == self.pending.len(),
        }
    }

    /// The state after the content of `file` was handed in.
    pub open spec fn after_load(self, file: PathBuf, content: FileContent) -> MovedBlocksView {
        match parse_outcome(file, content) {
            Ok(body) => MovedBlocksView {
                current_file: Some(file),
                document: Some(body),
                blocks: body_blocks(body),
                ..self
            },
            Err(_) => self,
        }
    }

    /// The warnings that handing in the content of `file` reports.
    pub open spec fn load_warnings(file: PathBuf, content: FileContent) -> Seq<Seq<char>> {
        match parse_outcome(file, content) {
            Ok(_) => Seq::empty(),
            Err(error) => seq![parse_warning(file, error)],
        }
    }
}

/// Pulling the pipeline keeps the order of the document: the declarations among
/// the blocks still to be classified are the one that the next step hands out,
/// followed by those that are left for the steps after it; and where the next
/// step hands out none, there is none.
pub proof fn next_keeps_document_order(state: MovedBlocksView)
    ensures
        state.has_next_block() ==> declarations_of(
            state.blocks,
            state.current_file->0,
            state.target_module,
        ) == seq![
            block_classification(
                state.blocks[state.skipped() as int],
                state.current_file->0,
                state.target_module,
            )->Built_0,
        ] + declarations_of(
            state.after_next().blocks,
            state.after_next().current_file->0,
            state.after_next().target_module,
        ),
        !state.has_next_block() ==> declarations_of(
            state.blocks,
            state.current_file->0,
            state.target_module,
        ) == Seq::<MovedBlockView>::empty(),
{
    declarations_in_order(state.blocks, state.current_file->0, state.target_module);
}

/// A parsed document that is being worked through: its blocks, and how many of
/// them were classified already.
#[derive(Debug)]
struct Document {
    file: PathBuf,
    body: Body,
    blocks: Vec<Block>,
    next: usize,
}

impl Document {
    #[verifier::type_invariant]
    spec fn next_is_within(self) -> bool {
        self.next <= self.blocks@.len()
    }

    /// The blocks that were not classified yet.
    spec fn remaining(self) -> Seq<Block> {
        self.blocks@.skip(self.next as int)
    }
}

/// The pipeline: yields the declarations to be moved, file by file and, within a
/// file, in the order in which they are declared.
#[derive(Debug)]
pub struct MovedBlocks {
    parsed: ParsedFiles,
    module_name: String,
    current: Option<Document>,
}

impl View for MovedBlocks {
    type V = MovedBlocksView;

    closed spec fn view(&self) -> MovedBlocksView {
        MovedBlocksView {
            pending: self.parsed@,
            target_module: self.module_name@,
            current_file: match self.current {
                Some(document) => Some(document.file),
                None => None,
            },
            document: match self.current {
                Some(document) => Some(document.body),
                None => None,
            },
            blocks: match self.current {
                Some(document) => document.remaining(),
                None => Seq::empty(),
            },
        }
    }
}

impl MovedBlocks {
    /// A pipeline over the given files, for declarations that move into the module
    /// `module_name`. No document is loaded yet.
    pub fn new(parsed: ParsedFiles, module_name: String) -> (blocks: Self)
        ensures
            blocks@ == (MovedBlocksView {
                pending: parsed@,
                target_module: module_name@,
                current_file: None,
                document: None,
                blocks: Seq::empty(),
            }),
    {
        MovedBlocks { parsed, module_name, current: None }
    }

    /// Hands the content of `file` to the pipeline. Returns whether a document was
    /// loaded.
    ///
    /// Where the content parses, the parsed document becomes the current one and
    /// its blocks are next to be classified. Where it does not, the failure is
    /// reported to `sink` and the pipeline stays as it is.
    pub fn load_next_body(
        &mut self,
        file: PathBuf,
        content: &FileContent,
        sink: &mut WarningSink,
    ) -> (loaded: bool)
        ensures
            loaded == (parse_outcome(file, *content) is Ok),
            final(self)@ == old(self)@.after_load(file, *content),
            final(sink)@ == old(sink)@ + MovedBlocksView::load_warnings(file, *content),
    {
        match ParsedFiles::parse(file, content, sink) {
            Some((file_path, body)) => {
                let blocks = read_blocks(&body);
                assert(blocks@.skip(0) =~= blocks@);
                self.current = Some(Document { file: file_path, body, blocks, next: 0 });
                assert(sink@ + Seq::<Seq<char>>::empty() =~= sink@);
                true
            },
            None => {
                assert(old(sink)@.push(parse_warning(file, parse_outcome(file, *content)->Err_0))
                    =~= old(sink)@ + MovedBlocksView::load_warnings(file, *content));
                false
            },
        }
    }

    /// Advances the pipeline by one step.
    ///
    /// The blocks of the current document are classified in order. A block of
    /// another kind is passed over in silence, a declaration that fails to classify
    /// is reported to `sink` and passed over, and the first declaration to be moved is handed
    /// out. Where the document is used up it is dropped, and the next file is asked
    /// for, discovery errors before it being reported to `sink`; after the last file
    /// the pipeline is done.
    pub fn next(&mut self, sink: &mut WarningSink) -> (step: Step)
        ensures
            old(self)@.next_is(step),
            final(self)@ == old(self)@.after_next(),
            final(sink)@ == old(sink)@ + old(self)@.next_warnings(),
    {
        let ghost before = self@;
        let ghost file = before.current_file->0;
        let ghost module = before.target_module;
        assert(sink@ + block_warnings(before.blocks.take(0), file, module) =~= sink@);
        match self.current.take() {
            Some(mut document) => {
                proof {
                    use_type_invariant(&document);
                }
                let ghost loaded = document;
                while document.next < document.blocks.len()
                    invariant
                        self.parsed == old(self).parsed,
                        self.module_name == old(self).module_name,
                        self.current is None,
                        old(self).current == Some(loaded),
                        before == old(self)@,
                        file == loaded.file,
                        module == before.target_module,
                        document.file == loaded.file,
                        document.body == loaded.body,
                        document.blocks == loaded.blocks,
                        loaded.next <= document.next <= document.blocks@.len(),
                        forall|i: int|
                            0 <= i < document.next - loaded.next ==> !(block_classification(
                                before.blocks[i],
                                file,
                                module,
                            ) is Built),
                        sink@ == old(sink)@ + block_warnings(
                            before.blocks.take(document.next - loaded.next),
                            file,
                            module,
                        ),
                    decreases document.blocks.len() - document.next,
                {
                    let ghost count = document.next - loaded.next;
                    assert(before.blocks[count] == document.blocks@[document.next as int]);
                    assert(before.blocks.take(count + 1).drop_last() =~= before.blocks.take(count));
                    let index = document.next;
                    document.next += 1;
                    match MovedBlock::from_block(
                        &document.blocks[index],
                        &document.file,
                        self.module_name.as_str(),
                    ) {
                        None => {},
                        Some(Ok(moved)) => {
                            proof {
                                lemma_skipped_prefix(before.blocks, file, module, count as nat);
                                assert(document.remaining() =~= before.blocks.skip(count + 1));
                            }
                            self.current = Some(document);
                            return Step::Moved(moved);
                        },
                        Some(Err(error)) => {
                            let mut warning = String::from_str("Warning: ");
                            let message = error.message();
                            warning.append(message.as_str());
                            sink.warn(warning);
                            assert(sink@ =~= old(sink)@ + block_warnings(
                                before.blocks.take(count + 1),
                                file,
                                module,
                            ));
                        },
                    }
                }
                proof {
                    lemma_skipped_prefix(
                        before.blocks,
                        file,
                        module,
                        (document.next - loaded.next) as nat,
                    );
                    assert(before.blocks.take(document.next - loaded.next) =~= before.blocks);
                }
            },
            None => {},
        }
        let next = self.parsed.next_file(sink);
        assert(sink@ =~= old(sink)@ + before.next_warnings());
        match next {
            Some(path) => Step::Read(path),
            None => Step::Done,
        }
    }
}

/// What a pipeline is composed from: the source directory and the target module.
pub struct MovedBlockBuilderView {
    pub src: PathBuf,
    pub module_name: Seq<char>,
}

/// Composes the pipeline for one source directory and one target module.
#[derive(Debug)]
pub struct MovedBlockBuilder {
    src: PathBuf,
    module_name: String,
}

impl View for MovedBlockBuilder {
    type V = MovedBlockBuilderView;

    closed spec fn view(&self) -> MovedBlockBuilderView {
        MovedBlockBuilderView { src: self.src, module_name: self.module_name@ }
    }
}

impl MovedBlockBuilder {
    /// A builder for the directory `src` and the target module `module_name`.
    pub fn new(src: PathBuf, module_name: String) -> (builder: Self)
        ensures
            builder@ == (MovedBlockBuilderView { src, module_name: module_name@ }),
    {
        MovedBlockBuilder { src, module_name }
    }

    /// The source directory, which the caller lists.
    pub fn src(&self) -> (src: &PathBuf)
        ensures
            *src == self@.src,
    {
        &self.src
    }

    /// The pipeline over the Terraform files of the source directory, given the
    /// listing of that directory. An entry of the listing that could not be read is
    /// reported to `sink`.
    pub fn moved_blocks(self, listing: &DirectoryListing, sink: &mut WarningSink) -> (blocks:
        MovedBlocks)
        ensures
            blocks@ == (MovedBlocksView {
                pending: discovered(self@.src, *listing),
                target_module: self@.module_name,
                current_file: None,
                document: None,
                blocks: Seq::empty(),
            }),
            final(sink)@ == old(sink)@ + listing_warnings(*listing),
    {
        let files = TerraformFiles::new(self.src);
        let parsed = ParsedFiles::new(files, listing, sink);
        MovedBlocks::new(parsed, self.module_name)
    }
}

} // verus!

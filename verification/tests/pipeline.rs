use moved_maker::error::{Error, WarningSink};
use moved_maker::file_discovery::{DirectoryEntry, DirectoryListing};
use moved_maker::moved_block::MovedBlock;
use moved_maker::parser::FileContent;
use moved_maker::pipeline::{MovedBlockBuilder, MovedBlocks, ParsedFiles, Step};
use moved_maker::terraform_files::TerraformFiles;
use moved_maker::to_moved_block::ToMovedBlock;
use std::path::PathBuf;

const SRC: &str = "/work/src";

fn listing_of(files: &[(&str, Option<&str>)]) -> DirectoryListing {
    DirectoryListing::Entries(
        files
            .iter()
            .map(|(name, _)| DirectoryEntry::Found {
                path: PathBuf::from(SRC).join(name),
                is_file: true,
            })
            .collect(),
    )
}

fn content_of(files: &[(&str, Option<&str>)], path: &PathBuf) -> FileContent {
    for (name, text) in files {
        if PathBuf::from(SRC).join(name) == *path {
            return match text {
                Some(text) => FileContent::Text(text.to_string()),
                None => FileContent::Unreadable,
            };
        }
    }
    FileContent::Unreadable
}

fn start(files: &[(&str, Option<&str>)], module: &str, sink: &mut WarningSink) -> MovedBlocks {
    let builder = MovedBlockBuilder::new(PathBuf::from(SRC), module.to_string());
    builder.moved_blocks(&listing_of(files), sink)
}

/// Pulls the next declaration, reading files as the pipeline asks for them.
fn pull(
    blocks: &mut MovedBlocks,
    files: &[(&str, Option<&str>)],
    sink: &mut WarningSink,
) -> Option<MovedBlock> {
    loop {
        match blocks.next(sink) {
            Step::Moved(moved) => return Some(moved),
            Step::Read(path) => {
                let content = content_of(files, &path);
                blocks.load_next_body(path, &content, sink);
            }
            Step::Done => return None,
        }
    }
}

fn collect(files: &[(&str, Option<&str>)], module: &str) -> (Vec<MovedBlock>, Vec<String>) {
    let mut sink = WarningSink::new();
    let mut blocks = start(files, module, &mut sink);
    let mut moved = Vec::new();
    while let Some(block) = pull(&mut blocks, files, &mut sink) {
        moved.push(block);
    }
    (moved, sink.take())
}

#[test]
fn pipeline_test_moved_block_builder_new() {
    let path = PathBuf::from("/tmp");
    let builder = MovedBlockBuilder::new(path, "test".to_string());
    // Just verify it can be constructed
    drop(builder);
}

#[test]
fn pipeline_test_moved_block_builder_moved_blocks() -> Result<(), Error> {
    let files = [(
        "main.tf",
        Some(
            r#"
resource "aws_instance" "web" {}
resource "aws_s3_bucket" "data" {}
"#,
        ),
    )];
    let mut sink = WarningSink::new();
    let mut moved_blocks = start(&files, "compute", &mut sink);
    let first = pull(&mut moved_blocks, &files, &mut sink).expect("Expected first block");
    let second = pull(&mut moved_blocks, &files, &mut sink).expect("Expected second block");
    assert!(pull(&mut moved_blocks, &files, &mut sink).is_none());
    drop(first);
    drop(second);
    Ok(())
}

#[test]
fn pipeline_test_moved_blocks_empty_dir() {
    let files = [];
    let mut sink = WarningSink::new();
    let mut moved_blocks = start(&files, "compute", &mut sink);
    assert!(pull(&mut moved_blocks, &files, &mut sink).is_none());
}

#[test]
fn pipeline_test_moved_blocks_single_resource() -> Result<(), Error> {
    let files = [("main.tf", Some(r#"resource "aws_instance" "web" {}"#))];
    let mut sink = WarningSink::new();
    let mut moved_blocks = start(&files, "compute", &mut sink);
    let moved_block = pull(&mut moved_blocks, &files, &mut sink).expect("Expected a block");
    let block = moved_block.to_block()?;
    assert_eq!(block.ident.value().to_string(), "moved");
    assert!(pull(&mut moved_blocks, &files, &mut sink).is_none());
    Ok(())
}

#[test]
fn pipeline_test_moved_blocks_single_module() -> Result<(), Error> {
    let files = [("main.tf", Some(r#"module "web_server" {}"#))];
    let mut sink = WarningSink::new();
    let mut moved_blocks = start(&files, "a", &mut sink);
    let moved_block = pull(&mut moved_blocks, &files, &mut sink).expect("Expected a block");
    let block = moved_block.to_block()?;
    assert_eq!(block.ident.value().to_string(), "moved");
    assert!(pull(&mut moved_blocks, &files, &mut sink).is_none());
    Ok(())
}

#[test]
fn pipeline_test_moved_blocks_mixed() {
    let files = [(
        "main.tf",
        Some(
            r#"
resource "aws_instance" "web" {}
module "web_server" {}
resource "aws_s3_bucket" "data" {}
"#,
        ),
    )];
    let (moved, _) = collect(&files, "compute");
    assert_eq!(moved.len(), 3);
}

#[test]
fn output_test_moved_block_builder_moved_blocks() {
    let files = [("main.tf", Some(r#"resource "aws_instance" "web" {}"#))];
    let mut sink = WarningSink::new();
    let mut moved_blocks = start(&files, "compute", &mut sink);

    // Should find one resource block
    let moved_block = pull(&mut moved_blocks, &files, &mut sink);
    assert!(moved_block.is_some());
    match moved_block.unwrap() {
        MovedBlock::Resource(r) => {
            assert_eq!(r.resource_type(), "aws_instance");
            assert_eq!(r.resource_name(), "web");
        }
        _ => panic!("Expected Resource variant"),
    }

    // Should be no more blocks
    assert!(pull(&mut moved_blocks, &files, &mut sink).is_none());
}

#[test]
fn output_test_moved_blocks_single_resource() {
    let files = [("main.tf", Some(r#"resource "aws_instance" "web" {}"#))];
    let (moved_blocks, _) = collect(&files, "compute");

    assert_eq!(moved_blocks.len(), 1);
    match &moved_blocks[0] {
        MovedBlock::Resource(r) => {
            assert_eq!(r.resource_type(), "aws_instance");
            assert_eq!(r.resource_name(), "web");
        }
        _ => panic!("Expected Resource variant"),
    }
}

#[test]
fn output_test_moved_blocks_single_module() {
    let files = [("main.tf", Some(r#"module "web_server" {}"#))];
    let (moved_blocks, _) = collect(&files, "a");

    assert_eq!(moved_blocks.len(), 1);
    match &moved_blocks[0] {
        MovedBlock::Module(m) => {
            assert_eq!(m.module_name_local(), "web_server");
        }
        _ => panic!("Expected Module variant"),
    }
}

#[test]
fn output_test_moved_blocks_mixed() {
    let files = [(
        "main.tf",
        Some(
            r#"
resource "aws_instance" "web" {}
module "web_server" {}
"#,
        ),
    )];
    let (moved_blocks, _) = collect(&files, "compute");

    assert_eq!(moved_blocks.len(), 2);
    // Order should be preserved (resource first, then module)
    match &moved_blocks[0] {
        MovedBlock::Resource(r) => {
            assert_eq!(r.resource_type(), "aws_instance");
        }
        _ => panic!("Expected Resource as first block"),
    }
    match &moved_blocks[1] {
        MovedBlock::Module(m) => {
            assert_eq!(m.module_name_local(), "web_server");
        }
        _ => panic!("Expected Module as second block"),
    }
}

fn describe(moved: &MovedBlock) -> String {
    match moved {
        MovedBlock::Resource(r) => format!("resource {} {}", r.resource_type(), r.resource_name()),
        MovedBlock::Module(m) => format!("module {}", m.module_name_local()),
    }
}

#[test]
fn declarations_come_in_the_order_of_the_document() {
    let files = [(
        "main.tf",
        Some(
            "resource \"aws_instance\" \"web\" {}\nmodule \"web_server\" {}\nresource \"aws_s3_bucket\" \"data\" {}\n",
        ),
    )];
    let (moved, warnings) = collect(&files, "compute");
    let described: Vec<String> = moved.iter().map(describe).collect();
    assert_eq!(
        described,
        vec!["resource aws_instance web", "module web_server", "resource aws_s3_bucket data"]
    );
    assert!(warnings.is_empty());
}

#[test]
fn files_come_in_the_order_of_the_listing() {
    let files = [
        ("z.tf", Some("module \"last_name_first\" {}\n")),
        ("a.tf", Some("resource \"aws_instance\" \"web\" {}\nmodule \"db\" {}\n")),
        ("m.tf", Some("")),
        ("b.tf", Some("resource \"aws_s3_bucket\" \"data\" {}\n")),
    ];
    let (moved, warnings) = collect(&files, "compute");
    let described: Vec<String> = moved.iter().map(describe).collect();
    assert_eq!(
        described,
        vec![
            "module last_name_first",
            "resource aws_instance web",
            "module db",
            "resource aws_s3_bucket data"
        ]
    );
    assert!(warnings.is_empty());
}

#[test]
fn other_declarations_are_skipped_in_silence() {
    let files = [(
        "main.tf",
        Some(
            "variable \"region\" {}\nresource \"aws_instance\" \"web\" {}\ndata \"aws_ami\" \"example\" {}\noutput \"id\" {}\nlocals {}\n",
        ),
    )];
    let (moved, warnings) = collect(&files, "compute");
    assert_eq!(moved.len(), 1);
    assert_eq!(describe(&moved[0]), "resource aws_instance web");
    assert!(warnings.is_empty());
}

#[test]
fn malformed_declarations_give_one_warning_each() {
    let files = [(
        "main.tf",
        Some(
            "resource \"aws_instance\" {}\nmodule \"db\" {}\nmodule {}\nresource \"aws_s3_bucket\" \"data\" {}\nresource {}\n",
        ),
    )];
    let (moved, warnings) = collect(&files, "compute");
    let described: Vec<String> = moved.iter().map(describe).collect();
    assert_eq!(described, vec!["module db", "resource aws_s3_bucket data"]);
    assert_eq!(
        warnings,
        vec![
            "Warning: Resource block in /work/src/main.tf has fewer than 2 labels",
            "Warning: Module block in /work/src/main.tf has no labels",
            "Warning: Resource block in /work/src/main.tf has fewer than 2 labels",
        ]
    );
}

#[test]
fn a_file_that_does_not_parse_is_skipped_with_a_warning() {
    let files = [
        ("invalid.tf", Some("resource \"aws_instance\" \"test\" { invalid syntax }")),
        ("valid.tf", Some("resource \"aws_instance\" \"web\" {}\n")),
        ("gone.tf", None),
        ("more.tf", Some("module \"db\" {}\n")),
    ];
    let (moved, warnings) = collect(&files, "compute");
    let described: Vec<String> = moved.iter().map(describe).collect();
    assert_eq!(described, vec!["resource aws_instance web", "module db"]);
    assert_eq!(
        warnings,
        vec![
            "Warning: Failed to parse /work/src/invalid.tf: Failed to parse HCL file: /work/src/invalid.tf",
            "Warning: Failed to parse /work/src/gone.tf: Failed to read file: /work/src/gone.tf",
        ]
    );
}

#[test]
fn every_file_failing_gives_nothing_but_warnings() {
    let files = [("one.tf", Some("{")), ("two.tf", Some("resource \"a\" \"b\" {"))];
    let (moved, warnings) = collect(&files, "compute");
    assert!(moved.is_empty());
    assert_eq!(warnings.len(), 2);
}

#[test]
fn empty_and_comment_only_files_hold_no_declaration() {
    let files = [
        ("empty.tf", Some("")),
        ("comments.tf", Some("# This is a comment\n# Another comment")),
    ];
    let (moved, warnings) = collect(&files, "compute");
    assert!(moved.is_empty());
    assert!(warnings.is_empty());
}

#[test]
fn an_unreadable_directory_gives_one_warning_and_nothing_else() {
    let mut sink = WarningSink::new();
    let builder = MovedBlockBuilder::new(PathBuf::from("/nonexistent/directory"), "m".to_string());
    let mut blocks = builder.moved_blocks(&DirectoryListing::Unreadable, &mut sink);
    assert_eq!(sink.len(), 0);
    assert!(matches!(blocks.next(&mut sink), Step::Done));
    assert_eq!(
        sink.take(),
        vec!["Warning: Failed to discover file: Failed to read directory: /nonexistent/directory"]
    );
    assert!(matches!(blocks.next(&mut sink), Step::Done));
    assert_eq!(sink.len(), 0);
}

#[test]
fn unreadable_entries_are_reported_when_the_pipeline_is_made() {
    let listing = DirectoryListing::Entries(vec![
        DirectoryEntry::Unreadable { message: "permission denied".to_string() },
        DirectoryEntry::Found { path: PathBuf::from("/work/src/main.tf"), is_file: true },
    ]);
    let mut sink = WarningSink::new();
    let builder = MovedBlockBuilder::new(PathBuf::from(SRC), "m".to_string());
    let mut blocks = builder.moved_blocks(&listing, &mut sink);
    assert_eq!(sink.take(), vec!["Warning: Failed to read directory entry: permission denied"]);
    match blocks.next(&mut sink) {
        Step::Read(path) => assert_eq!(path, PathBuf::from("/work/src/main.tf")),
        other => panic!("expected a file to read, got {other:?}"),
    }
}

#[test]
fn the_pipeline_asks_for_one_file_at_a_time() {
    let files = [("a.tf", Some("resource \"x\" \"y\" {}\n")), ("b.tf", Some("module \"z\" {}\n"))];
    let mut sink = WarningSink::new();
    let mut blocks = start(&files, "m", &mut sink);

    let first = match blocks.next(&mut sink) {
        Step::Read(path) => path,
        other => panic!("expected a file to read, got {other:?}"),
    };
    assert_eq!(first, PathBuf::from("/work/src/a.tf"));
    assert!(blocks.load_next_body(first.clone(), &content_of(&files, &first), &mut sink));
    assert!(matches!(blocks.next(&mut sink), Step::Moved(MovedBlock::Resource(_))));

    let second = match blocks.next(&mut sink) {
        Step::Read(path) => path,
        other => panic!("expected a file to read, got {other:?}"),
    };
    assert_eq!(second, PathBuf::from("/work/src/b.tf"));
    assert!(!blocks.load_next_body(second, &FileContent::Unreadable, &mut sink));
    assert!(matches!(blocks.next(&mut sink), Step::Done));
    assert!(matches!(blocks.next(&mut sink), Step::Done));
    assert_eq!(
        sink.take(),
        vec!["Warning: Failed to parse /work/src/b.tf: Failed to read file: /work/src/b.tf"]
    );
}

#[test]
fn a_file_that_is_not_loaded_is_passed_over() {
    let files = [("a.tf", Some("resource \"x\" \"y\" {}\n")), ("b.tf", Some("module \"z\" {}\n"))];
    let mut sink = WarningSink::new();
    let mut blocks = start(&files, "m", &mut sink);
    assert!(matches!(blocks.next(&mut sink), Step::Read(_)));
    match blocks.next(&mut sink) {
        Step::Read(path) => assert_eq!(path, PathBuf::from("/work/src/b.tf")),
        other => panic!("expected the second file, got {other:?}"),
    }
    assert!(matches!(blocks.next(&mut sink), Step::Done));
    assert_eq!(sink.len(), 0);
}

#[test]
fn parsed_files_hands_out_paths_and_parses_content() {
    let listing = DirectoryListing::Entries(vec![
        DirectoryEntry::Found { path: PathBuf::from("/work/src/a.tf"), is_file: true },
        DirectoryEntry::Found { path: PathBuf::from("/work/src/notes.txt"), is_file: true },
        DirectoryEntry::Found { path: PathBuf::from("/work/src/b.tf"), is_file: true },
    ]);
    let mut sink = WarningSink::new();
    let mut parsed = ParsedFiles::new(TerraformFiles::new(PathBuf::from(SRC)), &listing, &mut sink);
    assert_eq!(parsed.next_file(&mut sink), Some(PathBuf::from("/work/src/a.tf")));
    assert_eq!(parsed.next_file(&mut sink), Some(PathBuf::from("/work/src/b.tf")));
    assert_eq!(parsed.next_file(&mut sink), None);
    assert_eq!(parsed.next_file(&mut sink), None);
    assert_eq!(sink.len(), 0);

    let file = PathBuf::from("/work/src/a.tf");
    let text = FileContent::Text("variable \"a\" {}\nmodule \"b\" {}\n".to_string());
    let (path, body) = ParsedFiles::parse(file.clone(), &text, &mut sink).expect("parses");
    assert_eq!(path, file);
    assert_eq!(body.blocks().count(), 2);
    assert_eq!(sink.len(), 0);

    assert!(ParsedFiles::parse(file, &FileContent::Text("= 1".to_string()), &mut sink).is_none());
    assert_eq!(
        sink.take(),
        vec!["Warning: Failed to parse /work/src/a.tf: Failed to parse HCL file: /work/src/a.tf"]
    );
}

#[test]
fn the_sink_keeps_warnings_in_order_until_taken() {
    let mut sink = WarningSink::new();
    assert_eq!(sink.len(), 0);
    sink.warn("first".to_string());
    sink.warn("second".to_string());
    assert_eq!(sink.len(), 2);
    assert_eq!(sink.take(), vec!["first", "second"]);
    assert_eq!(sink.len(), 0);
    assert!(sink.take().is_empty());
}

#[test]
fn labels_that_are_no_identifiers_are_found_but_cannot_be_assembled() {
    let files = [("main.tf", Some("resource \"aws_instance\" \"web server\" {}\n"))];
    let (moved, warnings) = collect(&files, "compute");
    assert_eq!(moved.len(), 1);
    assert!(warnings.is_empty());
    assert!(!moved[0].addresses_parse());
    assert!(moved[0].try_to_block().is_none());
}

#[test]
fn a_document_without_file_name_gives_warnings_and_no_declaration() {
    let mut sink = WarningSink::new();
    let mut blocks = start(&[], "compute", &mut sink);
    let text = FileContent::Text(
        "variable \"a\" {}\nresource \"aws_instance\" \"web\" {}\nresource \"x\" {}\nmodule \"db\" {}\n"
            .to_string(),
    );
    assert!(blocks.load_next_body(PathBuf::from("/"), &text, &mut sink));
    assert!(matches!(blocks.next(&mut sink), Step::Done));
    assert_eq!(
        sink.take(),
        vec![
            "Warning: Path must have filename: /",
            "Warning: Resource block in / has fewer than 2 labels",
            "Warning: Path must have filename: /",
        ]
    );
}

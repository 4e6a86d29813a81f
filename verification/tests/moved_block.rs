use hcl::edit::structure::Body;
use moved_maker::error::{DeclarationKind, Error};
use moved_maker::moved_block::MovedBlock;
use moved_maker::moved_module::MovedModule;
use moved_maker::moved_resource::MovedResource;
use moved_maker::parser::{parse_terraform_file, FileContent};
use std::path::PathBuf;

fn parse(text: &str) -> (PathBuf, Body) {
    let file = PathBuf::from("/work/main.tf");
    let body = parse_terraform_file(&file, &FileContent::Text(text.to_string())).unwrap();
    (file, body)
}

#[test]
fn moved_block_test_moved_block_resource_variant() -> Result<(), Error> {
    let path = PathBuf::from("main.tf");
    let labels = vec!["aws_instance".to_string(), "web".to_string()];
    let resource = MovedResource::new(labels, path, "compute".to_string())?;
    let moved_block = MovedBlock::Resource(resource);
    let block = moved_block.to_block()?;
    assert_eq!(block.ident.value().to_string(), "moved");
    Ok(())
}

#[test]
fn moved_block_test_moved_block_module_variant() -> Result<(), Error> {
    let path = PathBuf::from("main.tf");
    let labels = vec!["web_server".to_string()];
    let module = MovedModule::new(labels, path, "a".to_string())?;
    let moved_block = MovedBlock::Module(module);
    let block = moved_block.to_block()?;
    assert_eq!(block.ident.value().to_string(), "moved");
    Ok(())
}

#[test]
fn moved_block_test_moved_block_from_block_resource() -> Result<(), Error> {
    let (file, body) = parse(r#"resource "aws_instance" "web" {}"#);
    let block = body.blocks().next().expect("Expected a block");

    let result = MovedBlock::from_block(block, &file, "compute");
    assert!(result.is_some());
    let moved_block = result.unwrap()?;

    match moved_block {
        MovedBlock::Resource(r) => {
            assert_eq!(r.resource_type(), "aws_instance");
            assert_eq!(r.resource_name(), "web");
        }
        _ => panic!("Expected Resource variant"),
    }
    Ok(())
}

#[test]
fn moved_block_test_moved_block_from_block_module() -> Result<(), Error> {
    let (file, body) = parse(r#"module "web_server" {}"#);
    let block = body.blocks().next().expect("Expected a block");

    let result = MovedBlock::from_block(block, &file, "a");
    assert!(result.is_some());
    let moved_block = result.unwrap()?;

    match moved_block {
        MovedBlock::Module(m) => {
            assert_eq!(m.module_name_local(), "web_server");
        }
        _ => panic!("Expected Module variant"),
    }
    Ok(())
}

#[test]
fn moved_block_test_moved_block_from_block_invalid_resource() {
    let (file, body) = parse(r#"resource "aws_instance" {}"#);
    let block = body.blocks().next().expect("Expected a block");

    let result = MovedBlock::from_block(block, &file, "compute");
    assert!(result.is_some());
    assert!(result.unwrap().is_err()); // Should return Some(Err)
}

#[test]
fn moved_block_test_moved_block_from_block_invalid_module() {
    let (file, body) = parse(r#"module {}"#);
    let block = body.blocks().next().expect("Expected a block");

    let result = MovedBlock::from_block(block, &file, "a");
    assert!(result.is_some());
    assert!(result.unwrap().is_err()); // Should return Some(Err)
}

#[test]
fn moved_block_test_moved_block_from_block_unsupported_type() {
    let (file, body) = parse(r#"variable "test" {}"#);
    let block = body.blocks().next().expect("Expected a block");

    let result = MovedBlock::from_block(block, &file, "compute");
    assert!(result.is_none()); // Unsupported type should return None
}

#[test]
fn moved_block_test_moved_block_to_block_resource() -> Result<(), Error> {
    let path = PathBuf::from("main.tf");
    let labels = vec!["aws_instance".to_string(), "web".to_string()];
    let resource = MovedResource::new(labels, path, "compute".to_string())?;
    let moved_block = MovedBlock::Resource(resource);
    let block = moved_block.to_block()?;
    assert_eq!(block.ident.value().to_string(), "moved");
    Ok(())
}

#[test]
fn moved_block_test_moved_block_to_block_module() -> Result<(), Error> {
    let path = PathBuf::from("main.tf");
    let labels = vec!["web_server".to_string()];
    let module = MovedModule::new(labels, path, "a".to_string())?;
    let moved_block = MovedBlock::Module(module);
    let block = moved_block.to_block()?;
    assert_eq!(block.ident.value().to_string(), "moved");
    Ok(())
}

#[test]
fn classify_tells_skip_from_failure() {
    let file = PathBuf::from("/work/main.tf");
    for keyword in ["variable", "data", "output", "locals", "Resource", "modules", ""] {
        assert!(MovedBlock::classify(keyword, vec!["a".to_string()], &file, "m").is_none());
        assert!(MovedBlock::classify(keyword, vec![], &file, "m").is_none());
    }

    let failed = MovedBlock::classify("resource", vec!["aws_instance".to_string()], &file, "m");
    let error = failed.unwrap().unwrap_err();
    assert!(matches!(
        &error,
        Error::InvalidLabelArity { kind: DeclarationKind::Resource, source_file: Some(path) }
            if *path == file
    ));
    assert_eq!(error.message(), "Resource block in /work/main.tf has fewer than 2 labels");

    let failed = MovedBlock::classify("resource", vec![], &file, "m");
    assert!(failed.unwrap().is_err());

    let failed = MovedBlock::classify("module", vec![], &file, "m");
    let error = failed.unwrap().unwrap_err();
    assert!(matches!(
        &error,
        Error::InvalidLabelArity { kind: DeclarationKind::Module, source_file: Some(path) }
            if *path == file
    ));
    assert_eq!(error.message(), "Module block in /work/main.tf has no labels");
}

#[test]
fn classify_builds_the_declaration() {
    let file = PathBuf::from("/work/main.tf");
    let labels = vec!["aws_instance".to_string(), "web".to_string(), "more".to_string()];
    match MovedBlock::classify("resource", labels.clone(), &file, "compute") {
        Some(Ok(MovedBlock::Resource(resource))) => {
            assert_eq!(resource.labels(), &labels);
            assert_eq!(resource.resource_type(), "aws_instance");
            assert_eq!(resource.resource_name(), "web");
        }
        other => panic!("expected a resource, got {other:?}"),
    }
    match MovedBlock::classify("module", vec!["db".to_string()], &file, "compute") {
        Some(Ok(MovedBlock::Module(module))) => {
            assert_eq!(module.module_name_local(), "db");
        }
        other => panic!("expected a module, got {other:?}"),
    }
}

#[test]
fn from_block_reads_keyword_and_labels() {
    let (file, body) = parse("resource aws_instance \"web\" {\n  count = 2\n}\n");
    let block = body.blocks().next().unwrap();
    match MovedBlock::from_block(block, &file, "compute") {
        Some(Ok(MovedBlock::Resource(resource))) => {
            assert_eq!(resource.labels(), &["aws_instance".to_string(), "web".to_string()]);
        }
        other => panic!("expected a resource, got {other:?}"),
    }
}

#[test]
fn moved_block_renders_by_its_variant() {
    let file = PathBuf::from("dir/main.tf");
    let resource = MovedBlock::classify(
        "resource",
        vec!["aws_instance".to_string(), "web".to_string()],
        &file,
        "compute",
    )
    .unwrap()
    .unwrap();
    let block = resource.to_block().unwrap();
    assert_eq!(
        Body::builder().block(block).build().to_string(),
        "# From: main.tf\nmoved {\n  from = aws_instance.web\n  to = module.compute.aws_instance.web\n}\n"
    );

    let module = MovedBlock::classify("module", vec!["db".to_string()], &file, "compute")
        .unwrap()
        .unwrap();
    let block = module.to_block().unwrap();
    assert_eq!(
        Body::builder().block(block).build().to_string(),
        "# From: main.tf\nmoved {\n  from = module.db\n  to = module.compute.module.db\n}\n"
    );
}

#[test]
fn moved_block_try_to_block_refuses_unparsable_addresses() {
    let file = PathBuf::from("main.tf");
    let good = MovedBlock::classify(
        "resource",
        vec!["aws_instance".to_string(), "web".to_string()],
        &file,
        "compute",
    )
    .unwrap()
    .unwrap();
    assert!(good.addresses_parse());
    assert_eq!(good.try_to_block().unwrap().unwrap(), good.to_block().unwrap());

    let odd = MovedBlock::classify(
        "resource",
        vec!["aws instance".to_string(), "web".to_string()],
        &file,
        "compute",
    )
    .unwrap()
    .unwrap();
    assert!(!odd.addresses_parse());
    assert!(odd.try_to_block().is_none());

    let odd = MovedBlock::classify("module", vec!["".to_string()], &file, "compute")
        .unwrap()
        .unwrap();
    assert!(!odd.addresses_parse());
    assert!(odd.try_to_block().is_none());
}

#[test]
fn output_test_moved_block_from_block_resource() -> Result<(), Error> {
    let (file, body) = parse(r#"resource "aws_instance" "web" {}"#);
    let block = body.blocks().next().expect("Expected a block");

    let result = MovedBlock::from_block(block, &file, "compute");
    assert!(result.is_some());
    let moved_block = result.unwrap()?;

    match moved_block {
        MovedBlock::Resource(r) => {
            assert_eq!(r.resource_type(), "aws_instance");
            assert_eq!(r.resource_name(), "web");
        }
        _ => panic!("Expected Resource variant"),
    }
    Ok(())
}

#[test]
fn output_test_moved_block_from_block_module() -> Result<(), Error> {
    let (file, body) = parse(r#"module "web_server" {}"#);
    let block = body.blocks().next().expect("Expected a block");

    let result = MovedBlock::from_block(block, &file, "a");
    assert!(result.is_some());
    let moved_block = result.unwrap()?;

    match moved_block {
        MovedBlock::Module(m) => {
            assert_eq!(m.module_name_local(), "web_server");
        }
        _ => panic!("Expected Module variant"),
    }
    Ok(())
}

#[test]
fn output_test_moved_block_from_block_invalid_resource() {
    let (file, body) = parse(r#"resource "aws_instance" {}"#);
    let block = body.blocks().next().expect("Expected a block");

    let result = MovedBlock::from_block(block, &file, "compute");
    assert!(result.is_some());
    assert!(result.unwrap().is_err());
}

#[test]
fn output_test_moved_block_from_block_invalid_module() {
    let (file, body) = parse(r#"module {}"#);
    let block = body.blocks().next().expect("Expected a block");

    let result = MovedBlock::from_block(block, &file, "a");
    assert!(result.is_some());
    assert!(result.unwrap().is_err());
}

#[test]
fn output_test_moved_block_from_block_unsupported_type() {
    let (file, body) = parse(r#"variable "test" {}"#);
    let block = body.blocks().next().expect("Expected a block");

    let result = MovedBlock::from_block(block, &file, "compute");
    assert!(result.is_none());
}

#[test]
fn classify_fails_where_the_path_has_no_file_name() {
    for path in ["/", "dir/..", ""] {
        let file = PathBuf::from(path);
        let labels = vec!["aws_instance".to_string(), "web".to_string()];
        let error = MovedBlock::classify("resource", labels, &file, "compute")
            .expect("a resource is no skip")
            .unwrap_err();
        assert!(matches!(&error, Error::MissingFileName { path } if *path == file));
        assert_eq!(error.message(), format!("Path must have filename: {path}"));

        let error = MovedBlock::classify("module", vec!["db".to_string()], &file, "compute")
            .expect("a module is no skip")
            .unwrap_err();
        assert!(matches!(&error, Error::MissingFileName { path } if *path == file));
    }
}

#[test]
fn classify_tests_the_labels_before_the_path() {
    let file = PathBuf::from("/");
    let error = MovedBlock::classify("resource", vec!["aws_instance".to_string()], &file, "m")
        .unwrap()
        .unwrap_err();
    assert!(matches!(
        error,
        Error::InvalidLabelArity { kind: DeclarationKind::Resource, source_file: Some(_) }
    ));
    let error = MovedBlock::classify("module", vec![], &file, "m").unwrap().unwrap_err();
    assert!(matches!(
        error,
        Error::InvalidLabelArity { kind: DeclarationKind::Module, source_file: Some(_) }
    ));
}

#[test]
fn classify_skips_other_kinds_whatever_the_path() {
    let file = PathBuf::from("/");
    assert!(MovedBlock::classify("variable", vec!["a".to_string()], &file, "m").is_none());
    assert!(MovedBlock::classify("data", vec!["a".to_string(), "b".to_string()], &file, "m")
        .is_none());
}

#[test]
fn from_block_fails_where_the_path_has_no_file_name() {
    let (_, body) = parse("resource \"aws_instance\" \"web\" {}\nmodule \"db\" {}\n");
    let file = PathBuf::from("/");
    for block in body.blocks() {
        let result = MovedBlock::from_block(block, &file, "compute");
        assert!(matches!(result, Some(Err(Error::MissingFileName { .. }))));
    }
}

#[test]
fn a_built_declaration_never_misses_its_file_name() {
    let file = PathBuf::from("deep/down/main.tf");
    let labels = vec!["aws_instance".to_string(), "web".to_string()];
    let moved = MovedBlock::classify("resource", labels, &file, "compute").unwrap().unwrap();
    assert!(moved.to_block().is_ok());
}

#[test]
fn moved_block_hands_out_its_file_and_expressions() {
    let file = PathBuf::from("dir/main.tf");
    let moved = MovedBlock::classify("module", vec!["db".to_string()], &file, "compute")
        .unwrap()
        .unwrap();
    assert_eq!(moved.file_path(), &file);
    let (from, to) = moved.try_expressions().unwrap();
    assert_eq!(from.to_string().trim_start(), "module.db");
    assert_eq!(to.to_string().trim_start(), "module.compute.module.db");

    let odd = MovedBlock::classify("module", vec!["d b".to_string()], &file, "compute")
        .unwrap()
        .unwrap();
    assert_eq!(odd.try_expressions(), Err("module.d b".to_string()));
}

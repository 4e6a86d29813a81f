//! Generates `moved` blocks for Terraform resources and modules that are
//! relocated into a target module.

pub mod address;
pub mod cli;
pub mod document;
pub mod error;
pub mod file_discovery;
pub mod moved_block;
pub mod moved_module;
pub mod moved_resource;
pub mod output;
pub mod parser;
pub mod pipeline;
pub mod paths;
pub mod terraform_files;
pub mod text;
pub mod to_moved_block;

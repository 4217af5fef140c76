//! Scaffolding logic for a Rust `api` backend: identifier naming, the files
//! that `new domain`, `new extractor` and `init` create, the edits they make to
//! `mod.rs` files, and where `self-update` finds its release.

pub mod text;
pub mod naming;
pub mod modfile;
pub mod templates;
pub mod scaffold;
pub mod extractor;
pub mod domain;
pub mod init;
pub mod updater;
pub mod archive;
pub mod repo_root;
pub mod cli;

//! Inserting a comment-prefixed notice at the top of source files, and taking
//! it away again.
//!
//! The library holds the rules: how a template becomes a header block, which
//! files are eligible, when the block counts as present, and what a file
//! holds after the block was added or removed. Reading and writing files and
//! walking the directory tree are left to the caller, which feeds what it
//! found to the state machine in [`run`].

pub mod bytes;
pub mod error;
pub mod extension;
pub mod header;
pub mod laws;
pub mod rewrite;
pub mod run;
pub mod trim;

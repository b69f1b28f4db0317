//! A bootstrapping and execution harness for a content-addressed actor VM:
//! install built-in actor code, assemble a bootstrap state tree, freeze it
//! into an executable handle, and build messages against it.

pub mod bench;
pub mod builder;
pub mod content;
pub mod encoding;
pub mod error;
pub mod id_map;
pub mod lemmas;
pub mod manifest;
pub mod registry;
pub mod state_tree;
pub mod types;
pub mod wrangler;

//! Turns the declarations of a foreign object model into wrapper source text.
//!
//! The declarations come as a parsed source file ([`syntax::SourceFile`]). They
//! are gathered into a [`ParseTree`]: type aliases, structs with their data
//! fields and method slots, enums and global functions. From the tree the text
//! of the wrappers is written: see [`generate_bindings`].

pub mod bases;
pub mod blocks;
pub mod classify;
pub mod decl;
pub mod driver;
pub mod emit;
pub mod error;
pub mod methods;
pub mod names;
pub mod order;
pub mod syntax;
pub mod table;
pub mod text;
pub mod tree;
pub mod types;
pub mod writer;

pub use driver::{generate_bindings, try_generate_bindings};
pub use error::Unrecognized;
pub use tree::ParseTree;

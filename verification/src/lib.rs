//! Code generation for JPP, a small imperative language.
//!
//! A JPP program arrives here as a parse tree of tagged nodes ([`Node`]) and
//! leaves as the text of one C translation unit. Every translator is a
//! function from a tree to text with a contract that pins its result to a
//! specification function over the tree, and a malformed tree is answered
//! with a [`Violation`] instead of a panic.

pub mod artifacts;
pub mod codegen;
pub mod conformance;
pub mod laws;
pub mod translation;
pub mod tree;
pub mod tree_printer;
pub mod violation;

pub use codegen::generate_c_code;
pub use tree::{Node, NodeKind};
pub use tree_printer::print_parse_tree;
pub use violation::Violation;

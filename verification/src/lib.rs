//! The analysis front end of a compiler for an IEC 61131-3 style control
//! language: the syntax tree, a traversal engine over it, and the semantic
//! rules built on that engine.
//!
//! A tree is described by the sequence of nodes that it offers to a visitor,
//! in document order, and by whether its dispatch hands back what the last
//! of them returned. Every contract of the traversal engine is stated over
//! these two.
pub mod accept_common;
pub mod accept_textual;
pub mod acceptor;
pub mod common;
pub mod common_sfc;
pub mod id;
pub mod node;
pub mod rule_use_declared_enumerated_value;
pub mod textual;
pub mod traversal;
pub mod visitor;

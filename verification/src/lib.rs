//! Verified core of a language server for Solidity-style smart contracts.
//!
//! The crate converts between the byte-offset positions used by a compiler
//! front end and the zero-based line/column positions used by an editor
//! protocol, translates compiler diagnostics into editor-facing diagnostics,
//! and builds a flat span index over a resolved program tree that answers
//! point ("hover") queries. All of it is specified and proved with Verus;
//! the unverified process glue (transport, file access, the compiler call)
//! lives outside this crate and exchanges plain values with it.

pub mod diagnostics;
pub mod index;
pub mod position;
pub mod session;

//! Parse-tree model and pretty-printer for Solidity source units.
//!
//! The crate holds the language-independent data model of a parsed Solidity
//! source unit — source units, contracts, functions, statements,
//! expressions, inline-assembly Yul, and the other surface constructs —
//! together with the operations on it: uniform source-location accessors, a
//! pretty-printer that lays a tree out as reparseable Solidity text, and
//! builders that synthesise fresh fragments marked with the `Codegen`
//! provenance location.

pub mod loc;
pub mod pt;
pub mod eq;
pub mod doc;
pub mod print;
pub mod codegen;

pub use doc::RENDER_WIDTH;

//! A registry of documents held as multi-asset tokens.
//!
//! The registry keeps one record per document: its owner, title, roster of
//! members and a single current version. Token accounting lives in an outside
//! multi-asset ledger; the registry decides which ledger calls an operation
//! needs, and commits its own state only once the embedder reports that those
//! calls went through.
pub mod types;
pub mod ledger;
pub mod registry;
pub mod laws;

//! Builds requirements-interchange documents in memory and puts them on the wire as XML.
//!
//! `req_if` holds the document model: the header, the built-in catalogue of types, the
//! requirements, and the specifications with their outlines. `xml` holds the tree that a
//! document is mapped to and the writer that turns a tree into bytes. `error` holds what can
//! go wrong.

pub mod error;
pub mod req_if;
pub mod xml;

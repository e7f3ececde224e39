//! Member-notification configuration and rendering.
//!
//! A guild administrator builds a templated "join" or "leave" announcement
//! out of text fields and media references, one partial update at a time.
//! This crate holds the verified core of that feature: the tri-state
//! partial-update merge, the orphaned-file accounting, the record store
//! semantics, the acquisition session with its rollback guarantee, and the
//! template renderer with placeholder substitution.
//!
//! Everything that touches the network, the disk or the database lives
//! outside this crate; the functions here take and return plain values.

pub mod text;

pub mod ids;

pub mod template;

pub mod media;

pub mod tristate;

pub mod config;

pub mod request;

pub mod merge;

pub mod store;

pub mod resolve;

pub mod render;

pub mod orchestrate;

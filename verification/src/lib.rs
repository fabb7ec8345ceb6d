//! Typed queries for an Apache Druid cluster, the JSON they travel as, and
//! the answers that come back.
//!
//! - [`query`] holds the query language: the kinds of query and what they
//!   are made of. Every type has a mathematical model, a wire form stated
//!   over the model, a statement of what reads as a value of the type, and
//!   the proof that what was written reads back as the same value.
//!   [`query::response`] holds the answers of the engine.
//! - [`json`] holds JSON values and their model; [`text`] reads and writes
//!   JSON text with `serde_json`; [`serialization`] holds the readers for
//!   members that do not always come as they are declared.
//! - [`connection`] picks the broker for each request.
//! - [`client`] prepares each request and judges each reply. It does not
//!   touch the network: what it prepares is for something else to send.

pub mod client;
pub mod connection;
pub mod json;
pub mod query;
pub mod serialization;
pub mod string_map;
pub mod text;

//! Builds syndication feeds for comics hosted on the Manga Cross catalog.
//!
//! The library holds the verified core of the tool: the data model for
//! comics and episodes, the transform from a comic record to a feed
//! document, and the pure part of the per-target pipeline with its
//! partial-failure aggregation. Network and filesystem work is left to
//! the surrounding application, which hands the results in as plain
//! values.

pub mod config;
pub mod feed;
pub mod laws;
pub mod model;
pub mod numeral;
pub mod pipeline;
pub mod transform;

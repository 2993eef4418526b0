//! A verified core for a GPU metrics exporter.
//!
//! The library parses the comma-separated output of a GPU query tool into
//! typed per-device samples, stores the values in a registry of labeled
//! gauges, and renders the registry in the text exposition format that a
//! metrics scraper expects.  All parsing, registry bookkeeping and rendering
//! logic lives here and is verified; process invocation and HTTP serving
//! stay outside.

pub mod chars;
pub mod exporter;
pub mod laws;
pub mod num;
pub mod registry;
pub mod render;
pub mod sample;
pub mod tokens;
pub mod value;

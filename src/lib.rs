//! Orchestration core of a texture conversion tool: output path resolution,
//! output kind classification, footer metadata rewriting and reporting, and
//! the decisions of a single conversion request.
pub mod footer;
pub mod kind;
pub mod paths;
pub mod request;
pub mod settings;
pub mod text;

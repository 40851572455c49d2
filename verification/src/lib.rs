//! A layered-architecture scaffolding engine.
//!
//! Given a feature name, the crate derives its name variants, lays out a
//! fixed four-layer directory tree with aggregator files, renders a fixed set
//! of named templates against the name variants, and maps every rendered
//! template to its destination path. The crate is pure: it returns the
//! directories and `(path, content)` pairs to create; persisting them is the
//! caller's concern.
pub mod generate;
pub mod names;
pub mod registry;
pub mod render;
pub mod schema;
pub mod text;
pub mod translations;

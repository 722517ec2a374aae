//! The logic of the edge command-line tool: configuration, validation and formatting.
pub mod config;
pub mod keys;
pub mod validate;
pub mod scan;
pub mod format;
pub mod args;
pub mod plan;
pub mod order;
pub mod scaffold;
pub mod summary;

//! Where a desktop application keeps its single-file database.
//!
//! The library decides which directory holds the database file, what the
//! side configuration that remembers the user's choice looks like, and which
//! file operations move the database when that choice changes. It never
//! touches the disk itself: callers hand in what they observed and carry out
//! the steps of the plan they get back.

pub mod backup;
pub mod config;
pub mod error;
pub mod file_manager;
pub mod filename;
pub mod json;
pub mod migration;
pub mod paths;
pub mod plan;
pub mod resolver;


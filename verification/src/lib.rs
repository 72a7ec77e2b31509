//! Persistence core of a single-note sticky editor: where the note's file
//! lives, how it is opened and locked, and how the text goes to and from
//! bytes on disk.

pub mod config;
pub mod error;
pub mod file;
pub mod lifecycle;
pub mod load;
pub mod location;
pub mod text;

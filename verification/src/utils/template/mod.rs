//! Fixed texts that Zork++ generates files from.
pub mod resources;

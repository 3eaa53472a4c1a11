//! Helpers shared by the parts of Zork++.
pub mod constants;
pub mod errors;
pub mod host;
pub mod template;
pub mod text;

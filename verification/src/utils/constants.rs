//! Names that Zork++ fixes.
use vstd::prelude::*;

verus! {

/// The file that holds the project description, in the project's root.
pub const CONFIG_FILE_NAME: &'static str = "zork.toml";

/// The directory that receives the build's output where the project
/// description names none.
pub const DEFAULT_OUTPUT_DIR: &'static str = "out";

} // verus!

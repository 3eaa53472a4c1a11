//! The `[build]` table of the project description.
use vstd::prelude::*;

verus! {

/// The `[build]` table: where the build puts what it generates.
#[derive(Clone, Copy, Debug)]
pub struct BuildAttribute<'a> {
    pub output_dir: Option<&'a str>,
}

} // verus!

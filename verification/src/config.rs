//! The run configuration the orchestrator consumes: the locators to
//! process, the output folder, and whether existing artifacts are
//! rebuilt. Parsing a command line into these plain values happens
//! outside; the orchestrator takes them through this struct only — no
//! ambient state.

use vstd::prelude::*;

verus! {

/// One run's configuration.
#[derive(Debug, Clone)]
pub struct Config {
    /// Forces a rebuild even where an output artifact already exists.
    pub recompile: bool,
    /// The repository locators to process.
    pub repos: Vec<String>,
    /// The output directory for built artifacts.
    pub mod_folder: String,
}

impl Config {
    /// Bundles the given plain values into a configuration.
    pub fn new(recompile: bool, repos: Vec<String>, mod_folder: String) -> (r: Self)
        ensures
            r.recompile == recompile,
            r.repos == repos,
            r.mod_folder == mod_folder,
    {
        Self { recompile, repos, mod_folder }
    }
}

} // verus!

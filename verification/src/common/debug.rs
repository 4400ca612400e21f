//! Debug configuration for experiment output.

use vstd::prelude::*;

verus! {

/// Configuration for debug output during experiments.
#[derive(Debug, Clone)]
pub struct DebugConfig {
    /// Whether to print verbose progress messages.
    pub verbose: bool,
    /// Whether to show timing information.
    pub show_timings: bool,
}

impl Default for DebugConfig {
    /// The default configuration is verbose with timings.
    fn default() -> (r: Self)
        ensures
            r.verbose,
            r.show_timings,
    {
        DebugConfig { verbose: true, show_timings: true }
    }
}

impl DebugConfig {
    /// Create a new debug config with default settings (verbose with timings).
    pub fn new() -> (r: Self)
        ensures
            r.verbose,
            r.show_timings,
    {
        DebugConfig { verbose: true, show_timings: true }
    }

    /// Create a quiet config (no output).
    pub fn quiet() -> (r: Self)
        ensures
            !r.verbose,
            !r.show_timings,
    {
        DebugConfig { verbose: false, show_timings: false }
    }

    /// Set verbose output.
    pub fn with_verbose(self, verbose: bool) -> (r: Self)
        ensures
            r.verbose == verbose,
            r.show_timings == self.show_timings,
    {
        DebugConfig { verbose, show_timings: self.show_timings }
    }

    /// Set timing output.
    pub fn with_timings(self, show_timings: bool) -> (r: Self)
        ensures
            r.verbose == self.verbose,
            r.show_timings == show_timings,
    {
        DebugConfig { verbose: self.verbose, show_timings }
    }
}

} // verus!

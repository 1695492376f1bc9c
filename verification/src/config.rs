//! Logging configuration for the host loop: an explicit value handed to
//! whoever runs the machine, in place of ambient process-wide state.

use vstd::prelude::*;

verus! {

/// Host-loop configuration: whether per-instruction tracing is emitted.
#[derive(Clone, Copy, PartialEq, Eq, Structural, Debug)]
pub struct EmuConfig {
    pub verbose: bool,
}

impl EmuConfig {
    /// Tracing starts disabled.
    pub fn new() -> (r: EmuConfig)
        ensures
            !r.verbose,
    {
        EmuConfig { verbose: false }
    }
}

/// Turns per-instruction tracing on.
pub fn set_verbose(config: &mut EmuConfig)
    ensures
        final(config).verbose,
{
    config.verbose = true;
}

} // verus!

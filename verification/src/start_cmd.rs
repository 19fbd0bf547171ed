//! The `start` command's flags and the phase decisions taken from them.
//!
//! Argument parsing, logging setup and the mining loop itself belong to the
//! surrounding program; this module only fixes what the flags mean.

use vstd::prelude::*;

verus! {

/// Flags of the `start` command.
#[derive(Clone, Copy, Debug, PartialEq, Eq, Structural)]
pub struct StartCmd {
    /// Start but don't mine; only resubmit the backlog of proofs.
    pub backlog_only: bool,
    /// Skip backlog processing entirely.
    pub skip_backlog: bool,
    /// Only submit one backlog item per proof mined (rate limiter when the
    /// backlog or the hardware exceeds the per-epoch proof ceiling).
    pub delay_backlog: bool,
}

impl StartCmd {
    /// Whether the backlog reconciler runs before steady-state mining.
    pub fn should_process_backlog(&self) -> (r: bool)
        ensures
            r == !self.skip_backlog,
    {
        !self.skip_backlog
    }

    /// Whether steady-state mining runs after the backlog phase.
    pub fn should_mine(&self) -> (r: bool)
        ensures
            r == !self.backlog_only,
    {
        !self.backlog_only
    }
}

impl Default for StartCmd {
    /// All flags off: process the backlog, then mine.
    fn default() -> (cmd: Self)
        ensures
            !cmd.backlog_only,
            !cmd.skip_backlog,
            !cmd.delay_backlog,
    {
        StartCmd { backlog_only: false, skip_backlog: false, delay_backlog: false }
    }
}

} // verus!

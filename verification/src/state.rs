//! Shared focus state and refresh-request discriminators.
use vstd::prelude::*;

verus! {

/// The focus state: which metric category is currently of interest.
///
/// Exactly one value holds at a time. It is written by an external actor and
/// read by every poller at the start of each cycle; `ShuttingDown` is
/// terminal and never reverts.
#[derive(Debug, Clone, Copy, PartialEq, Eq, Structural)]
pub enum AppState {
    Meta,
    Cpu,
    Disk,
    Processes,
    Network,
    Sockets,
    Memory,
    ShuttingDown,
}

impl Default for AppState {
    /// Before any external actor writes the focus state, it reads `Meta`.
    fn default() -> (r: AppState)
        ensures
            r == AppState::Meta,
    {
        AppState::Meta
    }
}

/// A refresh request: names which snapshot substructure the broker must
/// refresh, plus the one-time `Init` publish and the terminal `ShuttingDown`.
#[derive(Debug, Clone, Copy, PartialEq, Eq, Structural)]
pub enum Kind {
    Init,
    Cpu,
    Disk,
    Net,
    Proc,
    Memory,
    ShuttingDown,
}

} // verus!

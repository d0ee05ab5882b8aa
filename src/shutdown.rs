//! The shutdown coordinator's decision on an operator interrupt.
//!
//! The caller atomically sets the shared shutdown flag and hands in whether
//! it was already set; it then performs the signals that come back.
use vstd::prelude::*;

verus! {

/// What an interrupt has to set in motion.
#[derive(Clone, Copy, Debug, PartialEq, Eq, Structural)]
pub struct ShutdownSignals {
    /// Wake the countdown controller, so that it sees the flag even when idle.
    pub wake_controller: bool,
    /// Tell the metrics server to stop.
    pub stop_metrics_server: bool,
}

/// The signals of an interrupt that finds the shutdown flag at `already_requested`:
/// all of them the first time, none after.
pub open spec fn interrupt_signals_spec(already_requested: bool) -> ShutdownSignals {
    ShutdownSignals { wake_controller: !already_requested, stop_metrics_server: !already_requested }
}

/// Decides what an interrupt sets in motion. Only the interrupt that first
/// sets the shutdown flag signals the controller and the metrics server.
pub fn interrupt_signals(already_requested: bool) -> (r: ShutdownSignals)
    ensures
        r == interrupt_signals_spec(already_requested),
{
    let first = !already_requested;
    ShutdownSignals { wake_controller: first, stop_metrics_server: first }
}

/// The coordinator fires once: the first interrupt signals both the
/// controller and the metrics server, and any interrupt after it, which
/// finds the flag already set, signals nothing.
pub proof fn lemma_fires_once()
    ensures
        interrupt_signals_spec(false) == (ShutdownSignals {
            wake_controller: true,
            stop_metrics_server: true,
        }),
        interrupt_signals_spec(true) == (ShutdownSignals {
            wake_controller: false,
            stop_metrics_server: false,
        }),
{
}

} // verus!

//! Monitoring of an espresso machine's serial telemetry: decoding of its
//! protocol lines, metrics gauges of the latest reading, detection of the
//! pump's rising edge, and the countdown controller that drives the display
//! while the pump runs.
use vstd::prelude::*;

pub mod countdown;
pub mod decode;
pub mod framing;
pub mod ingest;
pub mod metrics;
pub mod shutdown;

pub use countdown::{step, ControllerEvent, ControllerState, DisplayAction, PumpFlags, Transition};
pub use decode::{decode, DecodeError, MachineMode, TelemetryReading};
pub use framing::{find_newline, take_line, FrameError};
pub use ingest::{parse_line_and_update_metrics, IngestTracker};
pub use metrics::{MaraXMetrics, MetricsError, MetricsSnapshot, Quantity};
pub use shutdown::{interrupt_signals, ShutdownSignals};

verus! {

} // verus!

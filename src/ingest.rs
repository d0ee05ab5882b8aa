//! The ingest step: one line from the serial transport is decoded, its
//! reading is written to the metrics, and a rising edge of the pump flag
//! is reported so that the caller can signal the countdown controller.
use vstd::prelude::*;
use vstd::string::StringSliceAdditionalSpecFns;

use crate::decode::{decode, decode_bytes, DecodeError};
use crate::metrics::{snapshot_of, MaraXMetrics};

verus! {

/// Whether a pump reading of `pump_on`, after one of `previous`, is a
/// rising edge (off, then on).
pub open spec fn rising_edge(previous: bool, pump_on: bool) -> bool {
    pump_on && !previous
}

/// The pump flag last seen, after `readings` followed a last-known `previous`.
pub open spec fn last_seen(previous: bool, readings: Seq<bool>) -> bool {
    if readings.len() == 0 {
        previous
    } else {
        readings.last()
    }
}

/// How many start signals a run of pump readings gives, after a last-known
/// `previous`.
pub open spec fn signal_count(previous: bool, readings: Seq<bool>) -> nat
    decreases readings.len(),
{
    if readings.len() == 0 {
        0
    } else {
        signal_count(previous, readings.drop_last()) + if rising_edge(
            last_seen(previous, readings.drop_last()),
            readings.last(),
        ) {
            1nat
        } else {
            0nat
        }
    }
}

/// Decodes `line` and, when it decodes, writes every field of the reading to
/// `metrics` and returns whether the pump is on. A line that does not decode
/// leaves `metrics` as it was.
pub fn parse_line_and_update_metrics(
    line: &str,
    metrics: &mut MaraXMetrics,
) -> (r: Result<bool, DecodeError>)
    ensures
        match decode_bytes(line.spec_bytes()) {
            Ok(reading) => r == Ok::<bool, DecodeError>(reading.pump_on)
                && final(metrics)@ == snapshot_of(reading),
            Err(e) => r == Err::<bool, DecodeError>(e) && final(metrics)@ == old(metrics)@,
        },
        final(metrics).names() == old(metrics).names(),
{
    match decode(line) {
        Ok(reading) => {
            metrics.record(&reading);
            Ok(reading.pump_on)
        },
        Err(e) => Err(e),
    }
}

/// The pump flag of the last decoded line, for detecting rising edges.
pub struct IngestTracker {
    pub previous_pump_on: bool,
}

impl IngestTracker {
    /// A tracker that has seen the pump off.
    pub fn new() -> (r: Self)
        ensures
            !r.previous_pump_on,
    {
        IngestTracker { previous_pump_on: false }
    }

    /// Notes a pump reading and returns whether it is a rising edge.
    pub fn observe(&mut self, pump_on: bool) -> (edge: bool)
        ensures
            edge == rising_edge(old(self).previous_pump_on, pump_on),
            final(self).previous_pump_on == pump_on,
    {
        let edge = pump_on && !self.previous_pump_on;
        self.previous_pump_on = pump_on;
        edge
    }

    /// Handles one line: decodes it, writes the reading to `metrics` and
    /// returns whether a countdown session should be signalled, that is
    /// whether the pump went from off to on. A line that does not decode
    /// gives its error and changes neither the tracker nor the metrics.
    pub fn ingest(
        &mut self,
        line: &str,
        metrics: &mut MaraXMetrics,
    ) -> (r: Result<bool, DecodeError>)
        ensures
            match decode_bytes(line.spec_bytes()) {
                Ok(reading) => r == Ok::<bool, DecodeError>(
                    rising_edge(old(self).previous_pump_on, reading.pump_on),
                ) && final(self).previous_pump_on == reading.pump_on
                    && final(metrics)@ == snapshot_of(reading),
                Err(e) => r == Err::<bool, DecodeError>(e)
                    && final(self).previous_pump_on == old(self).previous_pump_on
                    && final(metrics)@ == old(metrics)@,
            },
            final(metrics).names() == old(metrics).names(),
    {
        match parse_line_and_update_metrics(line, metrics) {
            Ok(pump_on) => Ok(self.observe(pump_on)),
            Err(e) => Err(e),
        }
    }
}

/// While the pump stays on, only its first reading can signal a session:
/// a run of "on" readings gives one start signal after the pump was seen
/// off, and none after it was already seen on.
pub proof fn lemma_one_signal_per_rising_edge(previous: bool, readings: Seq<bool>)
    requires
        readings.len() > 0,
        forall|i: int| 0 <= i < readings.len() ==> #[trigger] readings[i],
    ensures
        signal_count(previous, readings) == if previous {
            0nat
        } else {
            1nat
        },
    decreases readings.len(),
{
    let prefix = readings.drop_last();
    if prefix.len() > 0 {
        assert forall|i: int| 0 <= i < prefix.len() implies #[trigger] prefix[i] by {
            assert(readings[i]);
        }
        lemma_one_signal_per_rising_edge(previous, prefix);
        assert(prefix.last() == readings[prefix.len() - 1]);
    } else {
        assert(signal_count(previous, prefix) == 0);
    }
    assert(readings.last() == readings[readings.len() - 1]);
}

} // verus!

//! The metrics registry: the latest value of each published quantity, held
//! in prometheus integer gauges that a metrics server reads on demand.
use prometheus::{IntGauge, Opts, Registry};
use vstd::prelude::*;

use crate::decode::{MachineMode, TelemetryReading};

verus! {

/// A prometheus integer gauge. Clones of it that a registry holds share
/// its value. The gauge is held in a private field, as Verus does not take a
/// declaration of prometheus's `GenericGauge`, whose parameter is bounded by
/// prometheus's `Atomic` trait.
#[verifier::external_body]
pub struct Gauge {
    inner: IntGauge,
}

#[verifier::external_type_specification]
#[verifier::external_body]
pub struct ExRegistry(Registry);

#[verifier::external_type_specification]
#[verifier::external_body]
pub struct ExPrometheusError(prometheus::Error);

/// The value that an integer gauge holds.
pub uninterp spec fn gauge_reading(g: Gauge) -> i64;

/// The metric name that a gauge is published under.
pub uninterp spec fn gauge_name(g: Gauge) -> Seq<char>;

/// Whether `c` may start a metric name: `[a-zA-Z_:]`.
pub open spec fn metric_name_start(c: char) -> bool {
    ('a' <= c && c <= 'z') || ('A' <= c && c <= 'Z') || c == '_' || c == ':'
}

/// Whether `c` may stand later in a metric name: `[a-zA-Z0-9_:]`.
pub open spec fn metric_name_char(c: char) -> bool {
    metric_name_start(c) || ('0' <= c && c <= '9')
}

/// Whether `s` is a valid prometheus metric name: one start character, then
/// any number of name characters.
pub open spec fn valid_metric_name(s: Seq<char>) -> bool {
    s.len() > 0 && metric_name_start(s[0]) && forall|i: int|
        1 <= i < s.len() ==> metric_name_char(#[trigger] s[i])
}

/// Relies on prometheus's `Opts::new` and `GenericGauge::with_opts`. With no
/// namespace, subsystem or labels, the gauge's description fails only on an
/// empty help text or an invalid metric name (`Desc::new`); a gauge that is
/// made starts at zero and is published under `name`.
#[verifier::external_body]
fn new_gauge(name: &str, help: &str) -> (r: Result<Gauge, prometheus::Error>)
    ensures
        r is Ok <==> (help@.len() > 0 && valid_metric_name(name@)),
        r is Ok ==> gauge_reading(r->Ok_0) == 0,
        r is Ok ==> gauge_name(r->Ok_0) == name@,
{
    match IntGauge::with_opts(Opts::new(name, help)) {
        Ok(inner) => Ok(Gauge { inner }),
        Err(e) => Err(e),
    }
}

/// Relies on prometheus's `GenericGauge::set`: the gauge then holds `v`; its
/// description, and so its name, is left as it was.
#[verifier::external_body]
fn set_gauge(g: &mut Gauge, v: i64)
    ensures
        gauge_reading(*final(g)) == v,
        gauge_name(*final(g)) == gauge_name(*old(g)),
{
    g.inner.set(v)
}

/// Relies on prometheus's `GenericGauge::get`: the value that the gauge holds.
#[verifier::external_body]
fn read_gauge(g: &Gauge) -> (r: i64)
    ensures
        r == gauge_reading(*g),
{
    g.inner.get()
}

/// Relies on prometheus's `Registry::register`, handed a handle that shares
/// the gauge's value, so that the registry reports what the gauge holds.
#[verifier::external_body]
fn register_gauge(registry: &Registry, g: &Gauge) -> (r: Result<(), prometheus::Error>) {
    registry.register(Box::new(g.inner.clone()))
}

/// One published quantity.
#[derive(Clone, Copy, Debug, PartialEq, Eq, Structural)]
pub enum Quantity {
    MachineMode,
    SteamTemperature,
    TargetSteamTemperature,
    HxTemperature,
    CountdownBoostMode,
    HeatingElementOn,
    PumpOn,
}

/// The values of all published quantities at one moment.
#[derive(Clone, Copy, Debug, PartialEq, Eq, Structural)]
pub struct MetricsSnapshot {
    pub machine_mode: i64,
    pub steam_temperature: i64,
    pub target_steam_temperature: i64,
    pub hx_temperature: i64,
    pub countdown_boost_mode: i64,
    pub heating_element_on: i64,
    pub pump_on: i64,
}

/// Why the gauges could not be made or registered.
#[derive(Clone, Copy, Debug, PartialEq, Eq, Structural)]
pub enum MetricsError {
    /// prometheus refused to make a gauge.
    GaugeCreation,
    /// prometheus refused to register a gauge.
    Registration,
}

/// The snapshot in which every quantity is zero.
pub open spec fn zero_snapshot() -> MetricsSnapshot {
    MetricsSnapshot {
        machine_mode: 0,
        steam_temperature: 0,
        target_steam_temperature: 0,
        hx_temperature: 0,
        countdown_boost_mode: 0,
        heating_element_on: 0,
        pump_on: 0,
    }
}

/// The value of quantity `q` in `s`.
pub open spec fn field_of(s: MetricsSnapshot, q: Quantity) -> i64 {
    match q {
        Quantity::MachineMode => s.machine_mode,
        Quantity::SteamTemperature => s.steam_temperature,
        Quantity::TargetSteamTemperature => s.target_steam_temperature,
        Quantity::HxTemperature => s.hx_temperature,
        Quantity::CountdownBoostMode => s.countdown_boost_mode,
        Quantity::HeatingElementOn => s.heating_element_on,
        Quantity::PumpOn => s.pump_on,
    }
}

/// `s` with quantity `q` set to `v` and every other quantity kept.
pub open spec fn with_field(s: MetricsSnapshot, q: Quantity, v: i64) -> MetricsSnapshot {
    match q {
        Quantity::MachineMode => MetricsSnapshot { machine_mode: v, ..s },
        Quantity::SteamTemperature => MetricsSnapshot { steam_temperature: v, ..s },
        Quantity::TargetSteamTemperature => MetricsSnapshot { target_steam_temperature: v, ..s },
        Quantity::HxTemperature => MetricsSnapshot { hx_temperature: v, ..s },
        Quantity::CountdownBoostMode => MetricsSnapshot { countdown_boost_mode: v, ..s },
        Quantity::HeatingElementOn => MetricsSnapshot { heating_element_on: v, ..s },
        Quantity::PumpOn => MetricsSnapshot { pump_on: v, ..s },
    }
}

/// The gauge value of a machine mode: 1 for coffee, 0 for steam.
pub open spec fn mode_value(m: MachineMode) -> i64 {
    match m {
        MachineMode::Coffee => 1,
        MachineMode::Steam => 0,
    }
}

/// The gauge value of a flag: 1 for on, 0 for off.
pub open spec fn flag_value(b: bool) -> i64 {
    if b {
        1
    } else {
        0
    }
}

/// What the gauges show once `r` has been written to all of them.
pub open spec fn snapshot_of(r: TelemetryReading) -> MetricsSnapshot {
    MetricsSnapshot {
        machine_mode: mode_value(r.machine_mode),
        steam_temperature: r.steam_temperature,
        target_steam_temperature: r.target_steam_temperature,
        hx_temperature: r.hx_temperature,
        countdown_boost_mode: r.countdown_boost_mode,
        heating_element_on: flag_value(r.heating_element_on),
        pump_on: flag_value(r.pump_on),
    }
}

/// The gauges of the published quantities.
pub struct MaraXMetrics {
    pub machine_mode: Gauge,
    pub steam_temperature: Gauge,
    pub target_steam_temperature: Gauge,
    pub hx_temperature: Gauge,
    pub countdown_boost_mode: Gauge,
    pub heating_element_on: Gauge,
    pub pump_on: Gauge,
}

impl View for MaraXMetrics {
    type V = MetricsSnapshot;

    open spec fn view(&self) -> MetricsSnapshot {
        MetricsSnapshot {
            machine_mode: gauge_reading(self.machine_mode),
            steam_temperature: gauge_reading(self.steam_temperature),
            target_steam_temperature: gauge_reading(self.target_steam_temperature),
            hx_temperature: gauge_reading(self.hx_temperature),
            countdown_boost_mode: gauge_reading(self.countdown_boost_mode),
            heating_element_on: gauge_reading(self.heating_element_on),
            pump_on: gauge_reading(self.pump_on),
        }
    }
}

fn make_gauge(name: &str, help: &str) -> (r: Result<Gauge, MetricsError>)
    ensures
        r is Ok <==> (help@.len() > 0 && valid_metric_name(name@)),
        r is Ok ==> gauge_reading(r->Ok_0) == 0,
        r is Ok ==> gauge_name(r->Ok_0) == name@,
        r is Err ==> r->Err_0 == MetricsError::GaugeCreation,
{
    match new_gauge(name, help) {
        Ok(g) => Ok(g),
        Err(_) => Err(MetricsError::GaugeCreation),
    }
}

fn register_one(registry: &Registry, g: &Gauge) -> (r: Result<(), MetricsError>)
    ensures
        r is Err ==> r->Err_0 == MetricsError::Registration,
{
    match register_gauge(registry, g) {
        Ok(()) => Ok(()),
        Err(_) => Err(MetricsError::Registration),
    }
}

/// The metric names of the quantities, in the order of `MaraXMetrics`'s fields.
pub open spec fn published_names() -> Seq<Seq<char>> {
    seq![
        "MachineMode"@,
        "SteamTemperature"@,
        "TargetSteamTemperature"@,
        "HXTemperature"@,
        "CountdownBoostMode"@,
        "HeatingElementOn"@,
        "PumpOn"@,
    ]
}

impl MaraXMetrics {
    /// The metric names of the gauges, in the order of the fields.
    pub open spec fn names(&self) -> Seq<Seq<char>> {
        seq![
            gauge_name(self.machine_mode),
            gauge_name(self.steam_temperature),
            gauge_name(self.target_steam_temperature),
            gauge_name(self.hx_temperature),
            gauge_name(self.countdown_boost_mode),
            gauge_name(self.heating_element_on),
            gauge_name(self.pump_on),
        ]
    }

    /// Makes the seven gauges, each holding zero, under the names of
    /// `published_names`. All names and help texts are valid, so this succeeds.
    pub fn new() -> (r: Result<Self, MetricsError>)
        ensures
            r is Ok,
            r->Ok_0@ == zero_snapshot(),
            r->Ok_0.names() == published_names(),
    {
        proof {
            reveal_strlit("MachineMode");
            reveal_strlit("SteamTemperature");
            reveal_strlit("TargetSteamTemperature");
            reveal_strlit("HXTemperature");
            reveal_strlit("CountdownBoostMode");
            reveal_strlit("HeatingElementOn");
            reveal_strlit("PumpOn");
            reveal_strlit("Machine mode: coffee (1) or steam (0)");
            reveal_strlit("Boiler steam temperature");
            reveal_strlit("Boiler target steam temperature");
            reveal_strlit("Heat exchanger temperature");
            reveal_strlit("Countdown for exiting boost mode");
            reveal_strlit("Heating element on (1) or off (0)");
            reveal_strlit("Pump on (1) or off (0)");
        }
        let machine_mode = make_gauge("MachineMode", "Machine mode: coffee (1) or steam (0)")?;
        let steam_temperature = make_gauge("SteamTemperature", "Boiler steam temperature")?;
        let target_steam_temperature = make_gauge(
            "TargetSteamTemperature",
            "Boiler target steam temperature",
        )?;
        let hx_temperature = make_gauge("HXTemperature", "Heat exchanger temperature")?;
        let countdown_boost_mode = make_gauge(
            "CountdownBoostMode",
            "Countdown for exiting boost mode",
        )?;
        let heating_element_on = make_gauge(
            "HeatingElementOn",
            "Heating element on (1) or off (0)",
        )?;
        let pump_on = make_gauge("PumpOn", "Pump on (1) or off (0)")?;
        Ok(
            MaraXMetrics {
                machine_mode,
                steam_temperature,
                target_steam_temperature,
                hx_temperature,
                countdown_boost_mode,
                heating_element_on,
                pump_on,
            },
        )
    }

    /// Registers all seven gauges with `registry`, in the order of the
    /// fields, stopping at the first that prometheus refuses.
    pub fn register(&self, registry: &Registry) -> (r: Result<(), MetricsError>)
        ensures
            r is Err ==> r->Err_0 == MetricsError::Registration,
    {
        register_one(registry, &self.machine_mode)?;
        register_one(registry, &self.steam_temperature)?;
        register_one(registry, &self.target_steam_temperature)?;
        register_one(registry, &self.hx_temperature)?;
        register_one(registry, &self.countdown_boost_mode)?;
        register_one(registry, &self.heating_element_on)?;
        register_one(registry, &self.pump_on)
    }

    /// Writes `v` to quantity `q`; the other quantities keep their values,
    /// and every gauge keeps its name.
    pub fn set(&mut self, q: Quantity, v: i64)
        ensures
            final(self)@ == with_field(old(self)@, q, v),
            final(self).names() == old(self).names(),
    {
        match q {
            Quantity::MachineMode => set_gauge(&mut self.machine_mode, v),
            Quantity::SteamTemperature => set_gauge(&mut self.steam_temperature, v),
            Quantity::TargetSteamTemperature => set_gauge(&mut self.target_steam_temperature, v),
            Quantity::HxTemperature => set_gauge(&mut self.hx_temperature, v),
            Quantity::CountdownBoostMode => set_gauge(&mut self.countdown_boost_mode, v),
            Quantity::HeatingElementOn => set_gauge(&mut self.heating_element_on, v),
            Quantity::PumpOn => set_gauge(&mut self.pump_on, v),
        }
    }

    /// The current value of quantity `q`.
    pub fn get(&self, q: Quantity) -> (r: i64)
        ensures
            r == field_of(self@, q),
    {
        match q {
            Quantity::MachineMode => read_gauge(&self.machine_mode),
            Quantity::SteamTemperature => read_gauge(&self.steam_temperature),
            Quantity::TargetSteamTemperature => read_gauge(&self.target_steam_temperature),
            Quantity::HxTemperature => read_gauge(&self.hx_temperature),
            Quantity::CountdownBoostMode => read_gauge(&self.countdown_boost_mode),
            Quantity::HeatingElementOn => read_gauge(&self.heating_element_on),
            Quantity::PumpOn => read_gauge(&self.pump_on),
        }
    }

    /// The current values of all quantities.
    pub fn snapshot(&self) -> (r: MetricsSnapshot)
        ensures
            r == self@,
    {
        MetricsSnapshot {
            machine_mode: read_gauge(&self.machine_mode),
            steam_temperature: read_gauge(&self.steam_temperature),
            target_steam_temperature: read_gauge(&self.target_steam_temperature),
            hx_temperature: read_gauge(&self.hx_temperature),
            countdown_boost_mode: read_gauge(&self.countdown_boost_mode),
            heating_element_on: read_gauge(&self.heating_element_on),
            pump_on: read_gauge(&self.pump_on),
        }
    }

    /// Writes every field of `reading` to its gauge.
    pub fn record(&mut self, reading: &TelemetryReading)
        ensures
            final(self)@ == snapshot_of(*reading),
            final(self).names() == old(self).names(),
    {
        let mode: i64 = match reading.machine_mode {
            MachineMode::Coffee => 1,
            MachineMode::Steam => 0,
        };
        self.set(Quantity::MachineMode, mode);
        self.set(Quantity::SteamTemperature, reading.steam_temperature);
        self.set(Quantity::TargetSteamTemperature, reading.target_steam_temperature);
        self.set(Quantity::HxTemperature, reading.hx_temperature);
        self.set(Quantity::CountdownBoostMode, reading.countdown_boost_mode);
        self.set(Quantity::HeatingElementOn, if reading.heating_element_on { 1 } else { 0 });
        self.set(Quantity::PumpOn, if reading.pump_on { 1 } else { 0 });
    }
}

/// Last write wins, field by field: after `v` is written to `q`, reading `q`
/// gives `v`, and every other quantity reads as it did before the write.
pub proof fn lemma_last_write_wins(s: MetricsSnapshot, q: Quantity, v: i64, other: Quantity)
    ensures
        field_of(with_field(s, q, v), q) == v,
        other != q ==> field_of(with_field(s, q, v), other) == field_of(s, other),
{
}

} // verus!

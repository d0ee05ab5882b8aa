use marax_monitor::{
    find_newline, parse_line_and_update_metrics, take_line, FrameError, DecodeError, IngestTracker, MaraXMetrics,
    MetricsError, MetricsSnapshot, Quantity,
};

fn zero() -> MetricsSnapshot {
    MetricsSnapshot {
        machine_mode: 0,
        steam_temperature: 0,
        target_steam_temperature: 0,
        hx_temperature: 0,
        countdown_boost_mode: 0,
        heating_element_on: 0,
        pump_on: 0,
    }
}

#[test]
fn new_metrics_are_zero() {
    let m = MaraXMetrics::new().unwrap();
    assert_eq!(m.snapshot(), zero());
}

#[test]
fn decoded_line_updates_every_gauge() {
    let mut m = MaraXMetrics::new().unwrap();
    let r = parse_line_and_update_metrics("C1.19,116,124,095,0560,1,1", &mut m);
    assert_eq!(r, Ok(true));
    assert_eq!(
        m.snapshot(),
        MetricsSnapshot {
            machine_mode: 1,
            steam_temperature: 116,
            target_steam_temperature: 124,
            hx_temperature: 95,
            countdown_boost_mode: 560,
            heating_element_on: 1,
            pump_on: 1,
        }
    );
}

#[test]
fn bad_line_leaves_metrics_unchanged() {
    let mut m = MaraXMetrics::new().unwrap();
    parse_line_and_update_metrics("V1.00,100,100,090,0000,1,0", &mut m).unwrap();
    let before = m.snapshot();
    assert_eq!(before.machine_mode, 0);
    let r = parse_line_and_update_metrics("C1.00,101,100,090,0000,1,5", &mut m);
    assert_eq!(r, Err(DecodeError::InvalidBoolean));
    assert_eq!(m.snapshot(), before);
}

#[test]
fn last_write_wins_per_field() {
    let mut m = MaraXMetrics::new().unwrap();
    m.set(Quantity::SteamTemperature, 110);
    m.set(Quantity::HxTemperature, 93);
    m.set(Quantity::SteamTemperature, 120);
    assert_eq!(m.get(Quantity::SteamTemperature), 120);
    assert_eq!(m.get(Quantity::HxTemperature), 93);
    assert_eq!(m.get(Quantity::PumpOn), 0);
}

#[test]
fn registered_gauges_are_gathered() {
    let m = MaraXMetrics::new().unwrap();
    let registry = prometheus::Registry::new();
    assert_eq!(m.register(&registry), Ok(()));
    assert_eq!(registry.gather().len(), 7);
    assert_eq!(m.register(&registry), Err(MetricsError::Registration));
}

#[test]
fn rising_edge_signals_once() {
    let mut m = MaraXMetrics::new().unwrap();
    let mut t = IngestTracker::new();
    let lines = [
        "C1.19,116,124,095,0560,0,0",
        "C1.19,116,124,095,0560,0,1",
        "C1.19,116,124,095,0560,0,1",
        "garbage",
        "C1.19,116,124,095,0560,0,1",
        "C1.19,116,124,095,0560,0,0",
        "C1.19,116,124,095,0560,0,1",
    ];
    let signals: Vec<bool> = lines
        .iter()
        .map(|l| t.ingest(l, &mut m).unwrap_or(false))
        .collect();
    assert_eq!(signals, vec![false, true, false, false, false, false, true]);
    assert!(t.previous_pump_on);
}

#[test]
fn observe_reports_only_rising_edges() {
    let mut t = IngestTracker::new();
    assert!(!t.observe(false));
    assert!(t.observe(true));
    assert!(!t.observe(true));
    assert!(!t.observe(false));
    assert!(t.observe(true));
}

#[test]
fn finds_first_newline() {
    assert_eq!(find_newline(b"abc\ndef\n"), Some(3));
    assert_eq!(find_newline(b"\n"), Some(0));
    assert_eq!(find_newline(b"abc"), None);
    assert_eq!(find_newline(b""), None);
}

#[test]
fn takes_first_line_without_terminator() {
    let mut buf = bytes::BytesMut::from(&b"C1.19,116,124,095,0560,0,0\r\nV1.00"[..]);
    assert_eq!(take_line(&mut buf), Ok(Some("C1.19,116,124,095,0560,0,0".to_string())));
    assert_eq!(&buf[..], b"V1.00");
    assert_eq!(take_line(&mut buf), Ok(None));
    assert_eq!(&buf[..], b"V1.00");
}

#[test]
fn takes_lines_one_at_a_time() {
    let mut buf = bytes::BytesMut::from(&b"a\n\nb\r\n"[..]);
    assert_eq!(take_line(&mut buf), Ok(Some("a".to_string())));
    assert_eq!(take_line(&mut buf), Ok(Some("".to_string())));
    assert_eq!(take_line(&mut buf), Ok(Some("b".to_string())));
    assert_eq!(take_line(&mut buf), Ok(None));
    assert!(buf.is_empty());
}

#[test]
fn invalid_utf8_line_is_dropped_with_error() {
    let mut buf = bytes::BytesMut::from(&b"\xff\xfe\nok\n"[..]);
    assert_eq!(take_line(&mut buf), Err(FrameError::InvalidUtf8));
    assert_eq!(&buf[..], b"ok\n");
    assert_eq!(take_line(&mut buf), Ok(Some("ok".to_string())));
}

#[test]
fn failed_lines_leave_fresh_gauges_at_zero() {
    let lines = [
        ("C1.19,116,124,095,0560,0", DecodeError::FieldCount),
        ("C1.19,116,124,095,0560,0,0,0", DecodeError::FieldCount),
        ("", DecodeError::FieldCount),
        ("X1.00,100,100,090,0000,0,0", DecodeError::UnknownMode),
        ("C1.00,100,100,090,0000,2,0", DecodeError::InvalidBoolean),
        ("C1.00,abc,100,090,0000,0,0", DecodeError::Numeric),
        ("C1.00,100,100,090,99999999999999999999,0,0", DecodeError::Numeric),
        ("C1.00,100, 100,090,0000,0,0", DecodeError::Numeric),
        (",100,100,090,0000,0,0", DecodeError::EmptyMode),
    ];
    for (line, err) in lines.iter() {
        let mut m = MaraXMetrics::new().unwrap();
        assert_eq!(parse_line_and_update_metrics(line, &mut m), Err(*err), "line {:?}", line);
        assert_eq!(m.snapshot(), zero(), "line {:?}", line);
    }
}

#[test]
fn steam_and_negative_lines_update_fresh_gauges() {
    let mut m = MaraXMetrics::new().unwrap();
    assert_eq!(parse_line_and_update_metrics("V1.00,100,100,090,0000,1,1", &mut m), Ok(true));
    assert_eq!(
        m.snapshot(),
        MetricsSnapshot {
            machine_mode: 0,
            steam_temperature: 100,
            target_steam_temperature: 100,
            hx_temperature: 90,
            countdown_boost_mode: 0,
            heating_element_on: 1,
            pump_on: 1,
        }
    );
    let mut n = MaraXMetrics::new().unwrap();
    assert_eq!(parse_line_and_update_metrics("V9,-5,0,-1,-20,0,1", &mut n), Ok(true));
    assert_eq!(
        n.snapshot(),
        MetricsSnapshot {
            machine_mode: 0,
            steam_temperature: -5,
            target_steam_temperature: 0,
            hx_temperature: -1,
            countdown_boost_mode: -20,
            heating_element_on: 0,
            pump_on: 1,
        }
    );
}

#[test]
fn registry_reports_the_seven_named_gauges_and_last_writes() {
    let mut m = MaraXMetrics::new().unwrap();
    let registry = prometheus::Registry::new();
    m.register(&registry).unwrap();
    m.set(Quantity::HxTemperature, 91);
    m.set(Quantity::HxTemperature, 94);
    let families = registry.gather();
    let mut names: Vec<String> = families.iter().map(|f| f.get_name().to_string()).collect();
    names.sort();
    let mut expected = vec![
        "MachineMode", "SteamTemperature", "TargetSteamTemperature", "HXTemperature",
        "CountdownBoostMode", "HeatingElementOn", "PumpOn",
    ];
    expected.sort();
    assert_eq!(names, expected);
    for f in families.iter() {
        let v = f.get_metric()[0].get_gauge().get_value();
        let want = if f.get_name() == "HXTemperature" { 94.0 } else { 0.0 };
        assert_eq!(v, want, "metric {}", f.get_name());
    }
}

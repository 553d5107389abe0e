use hms2mqtt::config::SerialAlias;
use hms2mqtt::projection::Metric;
use hms2mqtt::telemetry::{HMSStateResponse, InverterState, PortState};

fn as_f32(m: Metric) -> f32 {
    m.raw as f32 / m.divisor as f32
}

fn record(serial: &str) -> HMSStateResponse {
    let mut r = HMSStateResponse::default();
    r.dtu_sn = serial.to_string();
    r
}

fn lookup(topics: &[(String, Metric)], path: &str) -> Metric {
    for (t, m) in topics {
        if t == path {
            return *m;
        }
    }
    panic!("no entry for {path}");
}

#[test]
fn scaling_of_current_power_and_grid_freq() {
    let mut r = record("SN1");
    r.pv_current_power = 1234;
    r.inverter_state.push(InverterState {
        inv_id: 7,
        grid_voltage: 2301,
        grid_freq: 5000,
        temperature: 250,
    });
    let topics = r.get_topics(None, &Vec::new());
    assert_eq!(as_f32(lookup(&topics, "dtu/SN1/current_power")), 123.4);
    assert_eq!(as_f32(lookup(&topics, "dtu/SN1/inverter/7/grid_freq")), 50.0);
    assert_eq!(as_f32(lookup(&topics, "dtu/SN1/inverter/7/grid_voltage")), 230.1);
    assert_eq!(as_f32(lookup(&topics, "dtu/SN1/inverter/7/temperature")), 25.0);
}

#[test]
fn alias_replaces_serial_in_device_segment() {
    let aliases = vec![SerialAlias { serial: "SN123".to_string(), alias: "roof-east".to_string() }];
    let r = record("SN123");
    let topics = r.get_topics(None, &aliases);
    assert!(topics.iter().all(|(t, _)| t.starts_with("dtu/roof-east/")));
    assert_eq!(as_f32(lookup(&topics, "dtu/roof-east/daily_yield")), 0.0);
}

#[test]
fn absent_serial_is_used_verbatim() {
    let aliases = vec![SerialAlias { serial: "SN123".to_string(), alias: "roof-east".to_string() }];
    let r = record("SN999");
    let topics = r.get_topics(None, &aliases);
    assert!(topics.iter().all(|(t, _)| t.starts_with("dtu/SN999/")));
}

#[test]
fn later_alias_entry_wins() {
    let aliases = vec![
        SerialAlias { serial: "SN1".to_string(), alias: "first".to_string() },
        SerialAlias { serial: "SN1".to_string(), alias: "second".to_string() },
    ];
    let r = record("SN1");
    let topics = r.get_topics(None, &aliases);
    assert!(topics.iter().all(|(t, _)| t.starts_with("dtu/second/")));
}

#[test]
fn prefix_is_prepended() {
    let r = record("SN1");
    let topics = r.get_topics(Some("solar"), &Vec::new());
    assert!(topics.iter().all(|(t, _)| t.starts_with("solar/dtu/SN1/")));
}

#[test]
fn one_port_end_to_end() {
    let mut r = record("SN1");
    r.port_state.push(PortState {
        pv_port: 0,
        pv_vol: 2400,
        pv_cur: 150,
        pv_power: 3000,
        pv_energy_total: 500,
        pv_daily_yield: 120,
    });
    let topics = r.get_topics(None, &Vec::new());
    assert_eq!(as_f32(lookup(&topics, "dtu/SN1/port/0/voltage")), 240.0);
    assert_eq!(as_f32(lookup(&topics, "dtu/SN1/port/0/curr")), 1.5);
    assert_eq!(as_f32(lookup(&topics, "dtu/SN1/port/0/power")), 300.0);
    assert_eq!(as_f32(lookup(&topics, "dtu/SN1/port/0/energy")), 500.0);
    assert_eq!(as_f32(lookup(&topics, "dtu/SN1/port/0/daily_yield")), 120.0);
}

#[test]
fn record_level_entries() {
    let mut r = record("SN1");
    r.time = 1700000000;
    r.pv_daily_yield = 4321;
    let topics = r.get_topics(None, &Vec::new());
    // local time is published unscaled, as raw epoch seconds
    assert_eq!(as_f32(lookup(&topics, "dtu/SN1/inverter_local_time")), 1700000000.0);
    assert_eq!(as_f32(lookup(&topics, "dtu/SN1/daily_yield")), 4321.0);
    assert_eq!(topics.len(), 3);
}

#[test]
fn negative_temperature_scales_below_zero() {
    let mut r = record("SN1");
    r.inverter_state.push(InverterState {
        inv_id: 0,
        grid_voltage: 0,
        grid_freq: 0,
        temperature: -55,
    });
    let topics = r.get_topics(None, &Vec::new());
    assert_eq!(as_f32(lookup(&topics, "dtu/SN1/inverter/0/temperature")), -5.5);
}

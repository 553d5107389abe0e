use hms2mqtt::failure::Failure;
use hms2mqtt::inverter::{FakeInverter, HMSInverter, InverterRequest, NetworkState, RealDataResDTO};

/// A complete response payload: serial "SN1", time 300, current power 1234,
/// daily yield 567, one micro-inverter (id 1, voltage 2301, freq 5000,
/// temperature 250) and one port (id 0, voltage 2400, current 150, power
/// 3000, energy 500, daily yield 120).
fn sample_payload() -> Vec<u8> {
    vec![
        0x0a, 0x03, b'S', b'N', b'1', // serial
        0x10, 0xac, 0x02, // time
        0x18, 0xd2, 0x09, // current power
        0x20, 0xb7, 0x04, // daily yield
        0x2a, 0x0b, 0x08, 0x01, 0x10, 0xfd, 0x11, 0x18, 0x88, 0x27, 0x20, 0xfa,
        0x01, // micro-inverter
        0x32, 0x10, 0x08, 0x00, 0x10, 0xe0, 0x12, 0x18, 0x96, 0x01, 0x20, 0xb8, 0x17, 0x28, 0xf4,
        0x03, 0x30, 0x78, // port
    ]
}

fn sample_response() -> Vec<u8> {
    let mut raw = vec![0u8; 10];
    raw.extend_from_slice(&sample_payload());
    raw
}

#[test]
fn read_data_request_is_payload_less() {
    let request = RealDataResDTO {};
    assert!(request.to_bytes().is_empty());
    assert_eq!(request.get_cmd(), (0xa3, 0x03));
}

#[test]
fn fresh_client_state() {
    let inv = HMSInverter::new("example-host");
    assert_eq!(inv.state(), NetworkState::Unknown);
}

#[test]
fn sequence_advances_every_attempt() {
    let mut inv = HMSInverter::new("example-host");
    let first = inv.prepare_request();
    assert_eq!(&first[4..6], &[0x00, 0x01]);
    let second = inv.prepare_request();
    assert_eq!(&second[4..6], &[0x00, 0x02]);
}

#[test]
fn sequence_wraps_after_full_cycle() {
    let mut inv = HMSInverter::new("example-host");
    let first = inv.prepare_request();
    for _ in 0..65535 {
        inv.prepare_request();
    }
    let again = inv.prepare_request();
    assert_eq!(&first[4..6], &again[4..6]);
}

#[test]
fn connect_failure_goes_offline_with_no_record() {
    let mut inv = HMSInverter::new("example-host");
    inv.prepare_request();
    let r = inv.update_state(Err(Failure::Connect));
    assert!(r.is_none());
    assert_eq!(inv.state(), NetworkState::Offline);
}

#[test]
fn truncated_response_goes_offline_with_no_record() {
    let mut inv = HMSInverter::new("example-host");
    inv.prepare_request();
    let r = inv.update_state(Ok(vec![0x48, 0x4d, 0xa3]));
    assert!(r.is_none());
    assert_eq!(inv.state(), NetworkState::Offline);
}

#[test]
fn malformed_payload_goes_offline_with_no_record() {
    let mut inv = HMSInverter::new("example-host");
    inv.prepare_request();
    let mut raw = vec![0u8; 10];
    raw.extend_from_slice(&[0x0a, 0xff]); // truncated length-delimited field
    let r = inv.update_state(Ok(raw));
    assert!(r.is_none());
    assert_eq!(inv.state(), NetworkState::Offline);
}

#[test]
fn good_response_goes_online_with_record() {
    let mut inv = HMSInverter::new("example-host");
    inv.prepare_request();
    let r = inv.update_state(Ok(sample_response())).expect("record");
    assert_eq!(inv.state(), NetworkState::Online);
    assert_eq!(r.dtu_sn, "SN1");
    assert_eq!(r.time, 300);
    assert_eq!(r.pv_current_power, 1234);
    assert_eq!(r.pv_daily_yield, 567);
    assert_eq!(r.inverter_state.len(), 1);
    assert_eq!(r.inverter_state[0].inv_id, 1);
    assert_eq!(r.inverter_state[0].grid_voltage, 2301);
    assert_eq!(r.inverter_state[0].grid_freq, 5000);
    assert_eq!(r.inverter_state[0].temperature, 250);
    assert_eq!(r.port_state.len(), 1);
    assert_eq!(r.port_state[0].pv_port, 0);
    assert_eq!(r.port_state[0].pv_vol, 2400);
    assert_eq!(r.port_state[0].pv_cur, 150);
    assert_eq!(r.port_state[0].pv_power, 3000);
    assert_eq!(r.port_state[0].pv_energy_total, 500);
    assert_eq!(r.port_state[0].pv_daily_yield, 120);
}

#[test]
fn recovery_after_failure() {
    let mut inv = HMSInverter::new("example-host");
    inv.prepare_request();
    assert!(inv.update_state(Err(Failure::Read)).is_none());
    assert_eq!(inv.state(), NetworkState::Offline);
    inv.prepare_request();
    assert!(inv.update_state(Ok(sample_response())).is_some());
    assert_eq!(inv.state(), NetworkState::Online);
}

#[test]
fn transitions_logged_only_on_change() {
    let mut inv = HMSInverter::new("example-host");
    // outcomes: fail, fail, success, success, fail
    let outcomes = [
        NetworkState::Offline,
        NetworkState::Offline,
        NetworkState::Online,
        NetworkState::Online,
        NetworkState::Offline,
    ];
    let mut logged = 0;
    for new_state in outcomes {
        if inv.set_state(new_state) {
            logged += 1;
        }
    }
    assert_eq!(logged, 3);
}

#[test]
fn fake_inverter_returns_configured_serial() {
    let mut fake = FakeInverter { sn: "FAKE42".to_string() };
    let r = fake.update_state(Err(Failure::Connect)).expect("record");
    assert_eq!(r.dtu_sn, "FAKE42");
    assert_eq!(r.time, 0);
    assert_eq!(r.pv_current_power, 0);
    assert!(r.inverter_state.is_empty());
    assert!(r.port_state.is_empty());
}

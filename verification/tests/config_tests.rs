use hms2mqtt::config::{
    default_client_id, default_topic, default_update_interval, resolve_serial, SerialAlias,
};
use hms2mqtt::telemetry::decode_response;
use hms2mqtt::failure::Failure;

#[test]
fn default_values() {
    assert_eq!(default_topic(), "hms800wt2");
    assert_eq!(default_update_interval(), 30500);
}

#[test]
fn client_id_has_prefix_and_random_suffix() {
    let id = default_client_id();
    assert!(id.starts_with("hms-mqtt-"));
    assert_eq!(id.len(), 14);
    assert!(id[9..].chars().all(|c| c.is_ascii_alphanumeric()));
}

#[test]
fn resolve_serial_prefers_alias() {
    let aliases = vec![
        SerialAlias { serial: "123".to_string(), alias: "test_alias".to_string() },
        SerialAlias { serial: "456".to_string(), alias: "other".to_string() },
    ];
    assert_eq!(resolve_serial(&aliases, &"123".to_string()), "test_alias");
    assert_eq!(resolve_serial(&aliases, &"456".to_string()), "other");
    assert_eq!(resolve_serial(&aliases, &"789".to_string()), "789");
    assert_eq!(resolve_serial(&Vec::new(), &"123".to_string()), "123");
}

#[test]
fn empty_payload_decodes_to_default_record() {
    let r = decode_response(&Vec::new()).expect("empty record");
    assert_eq!(r.dtu_sn, "");
    assert_eq!(r.time, 0);
    assert!(r.inverter_state.is_empty());
    assert!(r.port_state.is_empty());
}

#[test]
fn non_ascii_serial_is_a_decode_failure() {
    // length-delimited serial field holding a non-ASCII byte
    let payload: Vec<u8> = vec![0x0a, 0x01, 0xc3];
    assert_eq!(decode_response(&payload).unwrap_err(), Failure::Decode);
}

#[test]
fn unknown_fields_are_skipped() {
    // field 9 as varint, field 8 as length-delimited chunk, then the serial
    let payload: Vec<u8> = vec![0x48, 0x2a, 0x42, 0x02, 0xff, 0xfe, 0x0a, 0x02, b'o', b'k'];
    let r = decode_response(&payload).expect("record");
    assert_eq!(r.dtu_sn, "ok");
}

#[test]
fn later_scalar_field_overwrites_earlier() {
    // time set twice: 5 then 6
    let payload: Vec<u8> = vec![0x10, 0x05, 0x10, 0x06];
    let r = decode_response(&payload).expect("record");
    assert_eq!(r.time, 6);
}

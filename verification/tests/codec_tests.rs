use hms2mqtt::codec::{encode_request, extract_payload};
use hms2mqtt::failure::Failure;

#[test]
fn frame_layout_and_checksum() {
    let payload: Vec<u8> = b"123456789".to_vec();
    let frame = encode_request(&payload, 7);
    // magic marker and command opcode
    assert_eq!(&frame[0..2], b"HM");
    assert_eq!(&frame[2..4], b"\xa3\x03");
    // big-endian sequence
    assert_eq!(&frame[4..6], &[0x00, 0x07]);
    // CRC-16/MODBUS of "123456789" is 0x4b37
    assert_eq!(&frame[6..8], &[0x4b, 0x37]);
    // total length = payload length + 10
    assert_eq!(&frame[8..10], &[0x00, 0x13]);
    assert_eq!(&frame[10..], payload.as_slice());
}

#[test]
fn empty_payload_frame() {
    let payload: Vec<u8> = Vec::new();
    let frame = encode_request(&payload, 0xabcd);
    assert_eq!(frame.len(), 10);
    assert_eq!(&frame[4..6], &[0xab, 0xcd]);
    // total length still counts the header
    assert_eq!(&frame[8..10], &[0x00, 0x0a]);
}

#[test]
fn checksum_is_deterministic() {
    let payload: Vec<u8> = b"telemetry request".to_vec();
    let first = encode_request(&payload, 1);
    let second = encode_request(&payload, 1);
    assert_eq!(first, second);
}

#[test]
fn single_byte_corruption_changes_checksum() {
    let payload: Vec<u8> = b"123456789".to_vec();
    let reference = encode_request(&payload, 1);
    for i in 0..payload.len() {
        let mut corrupted = payload.clone();
        corrupted[i] ^= 0x01;
        let frame = encode_request(&corrupted, 1);
        assert_ne!(&frame[6..8], &reference[6..8]);
    }
}

#[test]
fn short_response_is_decode_failure() {
    for n in 0..10usize {
        let raw: Vec<u8> = vec![0u8; n];
        assert_eq!(extract_payload(&raw), Err(Failure::Decode));
    }
}

#[test]
fn payload_starts_at_offset_ten() {
    let mut raw: Vec<u8> = vec![0u8; 10];
    raw.extend_from_slice(b"body");
    assert_eq!(extract_payload(&raw), Ok(b"body".to_vec()));
    let exact: Vec<u8> = vec![1u8; 10];
    assert_eq!(extract_payload(&exact), Ok(Vec::new()));
}

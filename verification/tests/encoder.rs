use tempsys::encoder::{encode, MANUFACTURER_ID, PAYLOAD_LEN, PAYLOAD_VERSION};

#[test]
fn payload_has_fixed_layout() {
    let payload = encode(7, 3000, 2500);
    assert_eq!(payload.len(), PAYLOAD_LEN);
    assert_eq!(&payload[0..2], &[0xff, 0xff]); // manufacturer id
    assert_eq!(payload[2], PAYLOAD_VERSION);
    assert_eq!(payload[3], 7); // sequence counter
    assert_eq!(&payload[4..6], &3000i16.to_be_bytes()); // voltage
    assert_eq!(&payload[6..8], &2500i16.to_be_bytes()); // temperature
}

#[test]
fn payload_constants() {
    assert_eq!(MANUFACTURER_ID, 0xffff);
    assert_eq!(PAYLOAD_VERSION, 0x01);
}

#[test]
fn negative_values_encode_as_big_endian_twos_complement() {
    let payload = encode(0, -1, -25);
    assert_eq!(&payload[4..6], &[0xff, 0xff]);
    assert_eq!(&payload[6..8], &[0xff, 0xe7]);
}

#[test]
fn extreme_values_encode_exactly() {
    let payload = encode(255, i16::MIN, i16::MAX);
    assert_eq!(payload[3], 255);
    assert_eq!(&payload[4..6], &[0x80, 0x00]);
    assert_eq!(&payload[6..8], &[0x7f, 0xff]);
}

#[test]
fn distinct_inputs_give_distinct_payloads() {
    let base = encode(1, 2, 3);
    assert_ne!(base, encode(2, 2, 3));
    assert_ne!(base, encode(1, 3, 3));
    assert_ne!(base, encode(1, 2, 4));
}

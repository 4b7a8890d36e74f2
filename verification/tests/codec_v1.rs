use secadora::pzemv1::{
    parse_current_response, parse_power_response, parse_voltage_response, read_current_request,
    read_power_request, read_voltage_request, response_checksum_ok, wrapping_checksum,
};

#[test]
fn additive_checksum_works() {
    assert_eq!(wrapping_checksum(&[0xB0, 0xC0, 0xA8, 0x01, 0x01]), 0x1A);
    assert_eq!(wrapping_checksum(&[]), 0);
    assert_eq!(wrapping_checksum(&[0xFF, 0x02]), 0x01); // wraps
}

#[test]
fn request_packets_carry_their_checksums() {
    let v = read_voltage_request();
    assert_eq!(v, vec![0xB0, 0xC0, 0xA8, 0x01, 0x01, 0x00, 0x1A]);
    assert!(response_checksum_ok(&v));
    let c = read_current_request();
    assert_eq!(c, vec![0xB1, 0xC0, 0xA8, 0x01, 0x01, 0x00, 0x1B]);
    assert!(response_checksum_ok(&c));
    let p = read_power_request();
    assert_eq!(p, vec![0xB2, 0xC0, 0xA8, 0x01, 0x01, 0x00, 0x1C]);
    assert!(response_checksum_ok(&p));
}

#[test]
fn tampered_packet_fails_checksum() {
    let mut v = read_voltage_request();
    v[2] ^= 0xFF;
    assert!(!response_checksum_ok(&v));
}

#[test]
fn field_parsers_scale_correctly() {
    // 220 V integer part, 5 tenths: 220.5 V = 2205 decivolts
    let resp: Vec<u8> = vec![0xA0, 0, 220, 5, 0, 0, 0];
    assert_eq!(parse_voltage_response(&resp), 2205);
    // 12 A integer part, 3 tenths: 12.3 A = 123 deciamperes
    let resp: Vec<u8> = vec![0xA1, 0, 12, 3, 0, 0, 0];
    assert_eq!(parse_current_response(&resp), 123);
    // power: low byte third on the wire, high byte second
    let resp: Vec<u8> = vec![0xA2, 0x02, 0x58, 0, 0, 0, 0];
    assert_eq!(parse_power_response(&resp), 600);
}

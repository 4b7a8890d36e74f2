use secadora::pzemv3::{
    append_crc, build_read_request, build_reset_energy_request, crc_is_valid, crc_write,
    decode_read_response, decode_reset_ack, encode_read_response, Data, DeviceError,
};

#[test]
fn crc_work() {
    let correct_message_with_crc: Vec<u8> = vec![
        0x01, 0x4, 0x14, 0x4, 0xEB, 0, 0, 0, 0, 0, 0, 0, 0, 0, 2, 0, 0, 2, 0x57, 0, 0, 0, 0, 0x18,
        0xB8,
    ];
    assert!(crc_is_valid(&correct_message_with_crc));
    let mut msg: Vec<u8> = vec![
        0x01, 0x4, 0x14, 0x4, 0xEB, 0, 0, 0, 0, 0, 0, 0, 0, 0, 2, 0, 0, 2, 0x57, 0, 0, 0, 0, 0, 0,
    ];
    crc_write(&mut msg);
    let len = msg.len();
    assert_eq!(&correct_message_with_crc[len - 2..], &msg[len - 2..]);
}

#[test]
fn decode_known_frame() {
    let frame: Vec<u8> = vec![
        0x01, 0x4, 0x14, 0x4, 0xEB, 0, 0, 0, 0, 0, 0, 0, 0, 0, 2, 0, 0, 2, 0x57, 0, 0, 0, 0, 0x18,
        0xB8,
    ];
    let d = decode_read_response(&frame).expect("valid frame must decode");
    assert_eq!(d.voltage_dv, 1259); // 125.9 V
    assert_eq!(d.current_ma, 0);
    assert_eq!(d.power_dw, 0);
    assert_eq!(d.energy_wh, 2);
    assert_eq!(d.frequency_dhz, 599); // 59.9 Hz
    assert_eq!(d.power_factor_c, 0);
    assert_eq!(d.alarm, 0);
}

#[test]
fn encode_decode_round_trip() {
    let d = Data {
        voltage_dv: 2301,
        current_ma: 123_456,
        power_dw: 7_654_321,
        energy_wh: 987_654,
        frequency_dhz: 600,
        power_factor_c: 95,
        alarm: 0xFFFF,
    };
    let frame = encode_read_response(&d);
    assert_eq!(frame.len(), 25);
    assert!(crc_is_valid(&frame));
    assert_eq!(decode_read_response(&frame), Ok(d));
}

#[test]
fn any_single_byte_flip_fails_validation() {
    let d = Data {
        voltage_dv: 2301,
        current_ma: 123_456,
        power_dw: 7_654_321,
        energy_wh: 987_654,
        frequency_dhz: 600,
        power_factor_c: 95,
        alarm: 3,
    };
    let frame = encode_read_response(&d);
    for i in 0..frame.len() {
        let mut tampered = frame.clone();
        tampered[i] ^= 0xFF;
        let r = decode_read_response(&tampered);
        assert!(r.is_err(), "flipped byte {} must not decode", i);
        match i {
            1 => assert!(matches!(r, Err(DeviceError::DeviceCode(_)))),
            2 => assert!(matches!(r, Err(DeviceError::WrongByteCount(_)))),
            _ => assert_eq!(r, Err(DeviceError::Checksum)),
        }
    }
}

#[test]
fn read_request_frame_is_exact() {
    let req = build_read_request();
    assert_eq!(req.len(), 8);
    assert_eq!(&req[..6], &[0x01, 0x04, 0x00, 0x00, 0x00, 0x0A]);
    assert!(crc_is_valid(&req));
    // cross-check the appended checksum against the algorithm itself,
    // low byte first on the wire
    let c = crc::Crc::<u16>::new(&crc::CRC_16_MODBUS).checksum(&req[..6]);
    assert_eq!(req[6], (c % 256) as u8);
    assert_eq!(req[7], (c / 256) as u8);
}

#[test]
fn reset_request_frame_is_exact() {
    let req = build_reset_energy_request();
    assert_eq!(req.len(), 4);
    assert_eq!(&req[..2], &[0x01, 0x42]);
    assert!(crc_is_valid(&req));
}

#[test]
fn reset_ack_decodes() {
    let mut ack: Vec<u8> = vec![0x01, 0x42];
    append_crc(&mut ack);
    assert_eq!(decode_reset_ack(&ack), Ok(()));

    // a device error code instead of the echoed function byte
    let mut nack: Vec<u8> = vec![0x01, 0x41];
    append_crc(&mut nack);
    let code = nack[2];
    assert_eq!(decode_reset_ack(&nack), Err(DeviceError::DeviceCode(code)));

    // corrupted checksum
    let mut bad = ack.clone();
    bad[3] ^= 0xFF;
    assert_eq!(decode_reset_ack(&bad), Err(DeviceError::Checksum));
}

#[test]
fn wrong_byte_count_is_reported() {
    let d = Data {
        voltage_dv: 1,
        current_ma: 1,
        power_dw: 1,
        energy_wh: 1,
        frequency_dhz: 1,
        power_factor_c: 1,
        alarm: 0,
    };
    let mut frame = encode_read_response(&d);
    frame[2] = 19;
    assert_eq!(decode_read_response(&frame), Err(DeviceError::WrongByteCount(19)));
}

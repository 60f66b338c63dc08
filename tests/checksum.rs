use a8mini_camera_rs::checksum::crc16_calc;

#[test]
fn checksum_test_crc16_calc() {
    assert_eq!(
        "0xed27",
        format!(
            "{:#04x}",
            // heartbeat packet
            crc16_calc(&[0x55, 0x66, 0x01, 0x01, 0x00, 0x00, 0x00, 0x00, 0x59, 0x8B], 0)
        )
    );

    assert_eq!(
        "0x4e81",
        format!(
            "{:#04x}",
            // camera mode packet
            crc16_calc(&[0x55, 0x66, 0x01, 0x00, 0x00, 0x00, 0x00, 0x19, 0x5D, 0x57], 0)
        )
    );

    assert_eq!(
        "0xaa28",
        format!(
            "{:#04x}",
            // center camera packet
            crc16_calc(&[0x55, 0x66, 0x01, 0x01, 0x00, 0x00, 0x00, 0x08, 0x01, 0xD1, 0x12], 0)
        )
    );
}

#[test]
fn crc16_of_empty_input_is_the_initial_value() {
    assert_eq!(crc16_calc(&[], 0), 0);
    assert_eq!(crc16_calc(&[], 0x1234), 0x1234);
}

#[test]
fn crc16_check_value() {
    // The catalogue check value of CRC-16/XMODEM over "123456789".
    assert_eq!(crc16_calc(b"123456789", 0), 0x31c3);
}

#[test]
fn crc16_is_stable_across_calls() {
    let bytes = [0x55u8, 0x66, 0x01, 0x02, 0x00, 0x00, 0x00, 0x07, 0x64, 0xec];
    let first = crc16_calc(&bytes, 0);
    let second = crc16_calc(&bytes, 0);
    assert_eq!(first, second);
    assert_eq!(first, 0xdfbd);
}

#[test]
fn crc16_continues_from_the_initial_value() {
    let bytes = [0x55u8, 0x66, 0x01, 0x01, 0x00, 0x00, 0x00, 0x08, 0x01];
    let head = crc16_calc(&bytes[..4], 0);
    assert_eq!(crc16_calc(&bytes[4..], head), crc16_calc(&bytes, 0));
}

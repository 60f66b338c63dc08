use a8mini_camera_rs::checksum::crc16_calc;
use a8mini_camera_rs::udp::CRC16_CALC;

#[test]
fn udp_test_crc16_calc() {
    let center = [0x55u8, 0x66, 0x01, 0x01, 0x00, 0x00, 0x00, 0x08, 0x01];
    assert_eq!(CRC16_CALC(&center, 0), 0x12d1);
    assert_eq!(CRC16_CALC(&center, 0), crc16_calc(&center, 0));
    assert_eq!(CRC16_CALC(&[], 0xbeef), 0xbeef);
}

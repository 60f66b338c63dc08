use vstd::prelude::*;

#[allow(unused_imports)]
use crate::checksum::{crc16_table_spec, crc16_update};

verus! {

/// Address of the camera on its own network.
pub const CAMERA_IP: &'static str = "192.168.144.25";

/// UDP port of the camera's command link.
pub const CAMERA_COMMAND_PORT: &'static str = "37260";

/// Port of the camera's HTTP media server.
pub const CAMERA_HTTP_PORT: &'static str = "82";

/// Size of the buffer that a reply is received into.
pub const RECV_BUFF_SIZE: usize = 64;

// The frames of the commands that take no argument. Each is complete: header, data
// length, three zero bytes, command id, data, and the CRC-16 of all of that, low byte
// first.

/// Frame: centre the gimbal.
pub const AUTO_CENTER: [u8; 11] = [0x55, 0x66, 0x01, 0x01, 0x00, 0x00, 0x00, 0x08, 0x01, 0xd1, 0x12];

/// Frame: rotate: yaw rate 0, pitch rate 100.
pub const ROTATE_UP: [u8; 12] = [0x55, 0x66, 0x01, 0x02, 0x00, 0x00, 0x00, 0x07, 0x00, 0x64, 0xd3, 0x08];

/// Frame: rotate: yaw rate 0, pitch rate -100.
pub const ROTATE_DOWN: [u8; 12] = [0x55, 0x66, 0x01, 0x02, 0x00, 0x00, 0x00, 0x07, 0x00, 0x9c, 0xc4, 0x66];

/// Frame: rotate: yaw rate 100, pitch rate 0.
pub const ROTATE_RIGHT: [u8; 12] = [0x55, 0x66, 0x01, 0x02, 0x00, 0x00, 0x00, 0x07, 0x64, 0x00, 0x1f, 0xe3];

/// Frame: rotate: yaw rate -100, pitch rate 0.
pub const ROTATE_LEFT: [u8; 12] = [0x55, 0x66, 0x01, 0x02, 0x00, 0x00, 0x00, 0x07, 0x9c, 0x00, 0x77, 0x79];

/// Frame: rotate: both rates 0.
pub const STOP_ROTATION: [u8; 12] = [0x55, 0x66, 0x01, 0x02, 0x00, 0x00, 0x00, 0x07, 0x00, 0x00, 0xf1, 0x24];

/// Frame: manual zoom in.
pub const ZOOM_IN: [u8; 11] = [0x55, 0x66, 0x01, 0x01, 0x00, 0x00, 0x00, 0x05, 0x01, 0x8d, 0x64];

/// Frame: manual zoom out.
pub const ZOOM_OUT: [u8; 11] = [0x55, 0x66, 0x01, 0x01, 0x00, 0x00, 0x00, 0x05, 0xff, 0x5c, 0x6a];

/// Frame: absolute zoom 6.0x.
pub const ZOOM_MAX: [u8; 12] = [0x55, 0x66, 0x01, 0x02, 0x00, 0x00, 0x00, 0x0f, 0x06, 0x00, 0xf6, 0x27];

/// Frame: request the zoom range.
pub const MAX_ZOOM_INFORMATION: [u8; 10] = [0x55, 0x66, 0x01, 0x00, 0x00, 0x00, 0x00, 0x16, 0xb2, 0xa6];

/// Frame: manual focus in.
pub const FOCUS_IN: [u8; 11] = [0x55, 0x66, 0x01, 0x01, 0x00, 0x00, 0x00, 0x06, 0x01, 0xde, 0x31];

/// Frame: manual focus out.
pub const FOCUS_OUT: [u8; 11] = [0x55, 0x66, 0x01, 0x01, 0x00, 0x00, 0x00, 0x06, 0xff, 0x0f, 0x3f];

/// Frame: photo and video function: take a picture.
pub const TAKE_PICTURE: [u8; 11] = [0x55, 0x66, 0x01, 0x01, 0x00, 0x00, 0x00, 0x0c, 0x00, 0x34, 0xce];

/// Frame: photo and video function: start or stop recording.
pub const RECORD_VIDEO: [u8; 11] = [0x55, 0x66, 0x01, 0x01, 0x00, 0x00, 0x00, 0x0c, 0x02, 0x76, 0xee];

/// Frame: rotate: yaw rate 100, pitch rate 100.
pub const ROTATE_100_100: [u8; 12] = [0x55, 0x66, 0x01, 0x02, 0x00, 0x00, 0x00, 0x07, 0x64, 0x64, 0x3d, 0xcf];

/// Frame: request the camera configuration.
pub const CAMERA_INFORMATION: [u8; 10] = [0x55, 0x66, 0x01, 0x00, 0x00, 0x00, 0x00, 0x0a, 0x0f, 0x75];

/// Frame: auto focus.
pub const AUTO_FOCUS: [u8; 11] = [0x55, 0x66, 0x01, 0x01, 0x00, 0x00, 0x00, 0x04, 0x01, 0xbc, 0x57];

/// Frame: request the hardware id.
pub const HARDWARE_ID_INFORMATION: [u8; 10] = [0x55, 0x66, 0x01, 0x00, 0x00, 0x00, 0x00, 0x02, 0x07, 0xf4];

/// Frame: request the firmware version.
pub const FIRMWARE_VERSION_INFORMATION: [u8; 10] = [0x55, 0x66, 0x01, 0x00, 0x00, 0x00, 0x00, 0x01, 0x64, 0xc4];

/// Frame: photo and video function: lock mode.
pub const SET_LOCK_MODE: [u8; 11] = [0x55, 0x66, 0x01, 0x01, 0x00, 0x00, 0x00, 0x0c, 0x03, 0x57, 0xfe];

/// Frame: photo and video function: follow mode.
pub const SET_FOLLOW_MODE: [u8; 11] = [0x55, 0x66, 0x01, 0x01, 0x00, 0x00, 0x00, 0x0c, 0x04, 0xb0, 0x8e];

/// Frame: photo and video function: FPV mode.
pub const SET_FPV_MODE: [u8; 11] = [0x55, 0x66, 0x01, 0x01, 0x00, 0x00, 0x00, 0x0c, 0x05, 0x91, 0x9e];

/// Frame: request the gimbal attitude.
pub const ATTITUDE_INFORMATION: [u8; 10] = [0x55, 0x66, 0x01, 0x00, 0x00, 0x00, 0x00, 0x0d, 0xe8, 0x05];

/// Frame: photo and video function: video out on HDMI.
pub const SET_VIDEO_OUTPUT_HDMI: [u8; 11] = [0x55, 0x66, 0x01, 0x01, 0x00, 0x00, 0x00, 0x0c, 0x06, 0xf2, 0xae];

/// Frame: photo and video function: video out on CVBS.
pub const SET_VIDEO_OUTPUT_CVBS: [u8; 11] = [0x55, 0x66, 0x01, 0x01, 0x00, 0x00, 0x00, 0x0c, 0x07, 0xd3, 0xbe];

/// Frame: photo and video function: video out off.
pub const SET_VIDEO_OUTPUT_OFF: [u8; 11] = [0x55, 0x66, 0x01, 0x01, 0x00, 0x00, 0x00, 0x0c, 0x08, 0x3c, 0x4f];

/// Frame: request the laser range.
pub const LASER_RANGEFINDER_INFORMATION: [u8; 10] = [0x55, 0x66, 0x01, 0x00, 0x00, 0x00, 0x00, 0x15, 0xd1, 0x96];

/// Frame: reboot the camera.
pub const REBOOT_CAMERA: [u8; 12] = [0x55, 0x66, 0x01, 0x02, 0x00, 0x00, 0x00, 0x80, 0x01, 0x00, 0x0a, 0xa9];

/// Frame: reboot the gimbal.
pub const REBOOT_GIMBAL: [u8; 12] = [0x55, 0x66, 0x01, 0x02, 0x00, 0x00, 0x00, 0x80, 0x00, 0x01, 0x1a, 0x8a];

/// Frame: recording stream: H.265, 3840x2160, 50000 kbps.
pub const RESOLUTION_4K: [u8; 18] = [0x55, 0x66, 0x01, 0x08, 0x00, 0x00, 0x00, 0x21, 0x00, 0x02, 0x0f, 0x00, 0x08, 0x70, 0xc3, 0x50, 0x9f, 0x3b];

/// Frame: heartbeat.
pub const HEARTBEAT: [u8; 11] = [0x55, 0x66, 0x01, 0x01, 0x00, 0x00, 0x00, 0x00, 0x00, 0x59, 0x8b];

/// `crc` written low byte first is `lo`, `hi`.
pub open spec fn checksum_is(crc: u16, lo: u8, hi: u8) -> bool {
    crc as u8 == lo && (crc >> 8u16) as u8 == hi
}

/// The CRC-16 register after a frame's eight header bytes: sync bytes, control byte,
/// data length, three zero bytes and command id.
pub open spec fn header_crc(data_len: u8, cmd_id: u8) -> u16 {
    let c = crc16_update(0u16, 0x55u8);
    let c = crc16_update(c, 0x66u8);
    let c = crc16_update(c, 0x01u8);
    let c = crc16_update(c, data_len);
    let c = crc16_update(c, 0x00u8);
    let c = crc16_update(c, 0x00u8);
    let c = crc16_update(c, 0x00u8);
    crc16_update(c, cmd_id)
}

/// The CRC-16 of each fixed frame's bytes before its checksum, register step by
/// register step, is the value its last two bytes hold.
pub open spec fn fixed_frame_checksums_hold() -> bool {
    &&& checksum_is(crc16_update(header_crc(0x01u8, 0x08u8), 0x01u8), 0xd1u8, 0x12u8)
    &&& checksum_is(crc16_update(crc16_update(header_crc(0x02u8, 0x07u8), 0x00u8), 0x64u8), 0xd3u8, 0x08u8)
    &&& checksum_is(crc16_update(crc16_update(header_crc(0x02u8, 0x07u8), 0x00u8), 0x9cu8), 0xc4u8, 0x66u8)
    &&& checksum_is(crc16_update(crc16_update(header_crc(0x02u8, 0x07u8), 0x64u8), 0x00u8), 0x1fu8, 0xe3u8)
    &&& checksum_is(crc16_update(crc16_update(header_crc(0x02u8, 0x07u8), 0x9cu8), 0x00u8), 0x77u8, 0x79u8)
    &&& checksum_is(crc16_update(crc16_update(header_crc(0x02u8, 0x07u8), 0x00u8), 0x00u8), 0xf1u8, 0x24u8)
    &&& checksum_is(crc16_update(header_crc(0x01u8, 0x05u8), 0x01u8), 0x8du8, 0x64u8)
    &&& checksum_is(crc16_update(header_crc(0x01u8, 0x05u8), 0xffu8), 0x5cu8, 0x6au8)
    &&& checksum_is(crc16_update(crc16_update(header_crc(0x02u8, 0x0fu8), 0x06u8), 0x00u8), 0xf6u8, 0x27u8)
    &&& checksum_is(header_crc(0x00u8, 0x16u8), 0xb2u8, 0xa6u8)
    &&& checksum_is(crc16_update(header_crc(0x01u8, 0x06u8), 0x01u8), 0xdeu8, 0x31u8)
    &&& checksum_is(crc16_update(header_crc(0x01u8, 0x06u8), 0xffu8), 0x0fu8, 0x3fu8)
    &&& checksum_is(crc16_update(header_crc(0x01u8, 0x0cu8), 0x00u8), 0x34u8, 0xceu8)
    &&& checksum_is(crc16_update(header_crc(0x01u8, 0x0cu8), 0x02u8), 0x76u8, 0xeeu8)
    &&& checksum_is(crc16_update(crc16_update(header_crc(0x02u8, 0x07u8), 0x64u8), 0x64u8), 0x3du8, 0xcfu8)
    &&& checksum_is(header_crc(0x00u8, 0x0au8), 0x0fu8, 0x75u8)
    &&& checksum_is(crc16_update(header_crc(0x01u8, 0x04u8), 0x01u8), 0xbcu8, 0x57u8)
    &&& checksum_is(header_crc(0x00u8, 0x02u8), 0x07u8, 0xf4u8)
    &&& checksum_is(header_crc(0x00u8, 0x01u8), 0x64u8, 0xc4u8)
    &&& checksum_is(crc16_update(header_crc(0x01u8, 0x0cu8), 0x03u8), 0x57u8, 0xfeu8)
    &&& checksum_is(crc16_update(header_crc(0x01u8, 0x0cu8), 0x04u8), 0xb0u8, 0x8eu8)
    &&& checksum_is(crc16_update(header_crc(0x01u8, 0x0cu8), 0x05u8), 0x91u8, 0x9eu8)
    &&& checksum_is(header_crc(0x00u8, 0x0du8), 0xe8u8, 0x05u8)
    &&& checksum_is(crc16_update(header_crc(0x01u8, 0x0cu8), 0x06u8), 0xf2u8, 0xaeu8)
    &&& checksum_is(crc16_update(header_crc(0x01u8, 0x0cu8), 0x07u8), 0xd3u8, 0xbeu8)
    &&& checksum_is(crc16_update(header_crc(0x01u8, 0x0cu8), 0x08u8), 0x3cu8, 0x4fu8)
    &&& checksum_is(header_crc(0x00u8, 0x15u8), 0xd1u8, 0x96u8)
    &&& checksum_is(crc16_update(crc16_update(header_crc(0x02u8, 0x80u8), 0x01u8), 0x00u8), 0x0au8, 0xa9u8)
    &&& checksum_is(crc16_update(crc16_update(header_crc(0x02u8, 0x80u8), 0x00u8), 0x01u8), 0x1au8, 0x8au8)
    &&& checksum_is(crc16_update(crc16_update(crc16_update(crc16_update(crc16_update(crc16_update(crc16_update(crc16_update(header_crc(0x08u8, 0x21u8), 0x00u8), 0x02u8), 0x0fu8), 0x00u8), 0x08u8), 0x70u8), 0xc3u8), 0x50u8), 0x9fu8, 0x3bu8)
    &&& checksum_is(crc16_update(header_crc(0x01u8, 0x00u8), 0x00u8), 0x59u8, 0x8bu8)
}

pub proof fn lemma_fixed_frame_checksums()
    ensures
        fixed_frame_checksums_hold(),
{
    reveal(crc16_table_spec);
    assert(fixed_frame_checksums_hold()) by (bit_vector);
}

} // verus!

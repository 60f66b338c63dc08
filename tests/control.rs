use a8mini_camera_rs::checksum::crc16_calc;
use a8mini_camera_rs::control::{
    decode_attitude, A8MiniAtittude, A8MiniComplexCommand, A8MiniComplexHTTPQuery, A8MiniError,
    A8MiniSimpleCommand, A8MiniSimpleHTTPQuery, Command, HTTPQuery,
};

fn all_simple_commands() -> Vec<A8MiniSimpleCommand> {
    vec![
        A8MiniSimpleCommand::AutoCenter,
        A8MiniSimpleCommand::RotateUp,
        A8MiniSimpleCommand::RotateDown,
        A8MiniSimpleCommand::RotateRight,
        A8MiniSimpleCommand::RotateLeft,
        A8MiniSimpleCommand::StopRotation,
        A8MiniSimpleCommand::ZoomIn,
        A8MiniSimpleCommand::ZoomOut,
        A8MiniSimpleCommand::ZoomMax,
        A8MiniSimpleCommand::MaxZoomInformation,
        A8MiniSimpleCommand::FocusIn,
        A8MiniSimpleCommand::FocusOut,
        A8MiniSimpleCommand::TakePicture,
        A8MiniSimpleCommand::RecordVideo,
        A8MiniSimpleCommand::Rotate100100,
        A8MiniSimpleCommand::CameraInformation,
        A8MiniSimpleCommand::AutoFocus,
        A8MiniSimpleCommand::HardwareIDInformation,
        A8MiniSimpleCommand::FirmwareVersionInformation,
        A8MiniSimpleCommand::SetLockMode,
        A8MiniSimpleCommand::SetFollowMode,
        A8MiniSimpleCommand::SetFPVMode,
        A8MiniSimpleCommand::AttitudeInformation,
        A8MiniSimpleCommand::SetVideoOutputHDMI,
        A8MiniSimpleCommand::SetVideoOutputCVBS,
        A8MiniSimpleCommand::SetVideoOutputOff,
        A8MiniSimpleCommand::LaserRangefinderInformation,
        A8MiniSimpleCommand::RebootCamera,
        A8MiniSimpleCommand::RebootGimbal,
        A8MiniSimpleCommand::Resolution4k,
        A8MiniSimpleCommand::Heartbeat,
    ]
}

#[test]
fn test_complex_command_creation_angle() {
    let computed_command = A8MiniComplexCommand::SetYawPitchAngle(130, -20).to_bytes();
    let expected_command: [u8; 14] = [
        0x55, 0x66, 0x01, 0x04, 0x00, 0x00, 0x00, 0x0e, 0x00, 0x82, 0xff, 0xec, 0x8f, 0xad,
    ];
    assert_eq!(computed_command, expected_command);
}

#[test]
fn test_complex_command_creation_speed() {
    let computed_command = A8MiniComplexCommand::SetYawPitchSpeed(104, -20).to_bytes();
    let expected_command: [u8; 12] = [
        0x55, 0x66, 0x01, 0x02, 0x00, 0x00, 0x00, 0x07, 0x64, 0xec, 0xbd, 0xdf,
    ];
    assert_eq!(computed_command, expected_command);
}

#[test]
fn test_byte_deserialization() {
    let attitude_bytes: &[u8] = &[
        0x28, 0x00, 0x32, 0x00, 0x3c, 0x00, 0x04, 0x00, 0x05, 0x00, 0x06, 0x00,
    ];

    // Note: little endian deserialize
    let computed_attitude_info: A8MiniAtittude = decode_attitude(attitude_bytes).unwrap();

    let expected_attitude_info = A8MiniAtittude {
        theta_yaw: 40,
        theta_pitch: 50,
        theta_roll: 60,
        v_yaw: 4,
        v_pitch: 5,
        v_roll: 6,
    };

    assert_eq!(computed_attitude_info, expected_attitude_info);
}

#[test]
fn every_fixed_frame_carries_its_own_checksum() {
    for command in all_simple_commands() {
        let frame = command.to_bytes();
        let n = frame.len();
        assert!(n >= 10);
        assert_eq!(&frame[..3], &[0x55, 0x66, 0x01]);
        assert_eq!(frame[3] as usize, n - 10);
        assert_eq!(&frame[4..7], &[0x00, 0x00, 0x00]);
        let crc = crc16_calc(&frame[..n - 2], 0);
        assert_eq!(&frame[n - 2..], &[crc as u8, (crc >> 8) as u8]);
    }
}

#[test]
fn fixed_frames_of_known_commands() {
    assert_eq!(
        A8MiniSimpleCommand::AutoCenter.to_bytes(),
        vec![0x55, 0x66, 0x01, 0x01, 0x00, 0x00, 0x00, 0x08, 0x01, 0xd1, 0x12]
    );
    assert_eq!(
        A8MiniSimpleCommand::TakePicture.to_bytes(),
        vec![0x55, 0x66, 0x01, 0x01, 0x00, 0x00, 0x00, 0x0c, 0x00, 0x34, 0xce]
    );
    assert_eq!(
        A8MiniSimpleCommand::Heartbeat.to_bytes(),
        vec![0x55, 0x66, 0x01, 0x01, 0x00, 0x00, 0x00, 0x00, 0x00, 0x59, 0x8b]
    );
    assert_eq!(A8MiniSimpleCommand::AttitudeInformation.to_bytes()[7], 0x0d);
}

#[test]
fn parameterized_frames_are_well_formed() {
    let commands = [
        A8MiniComplexCommand::SetYawPitchSpeed(-128, 127),
        A8MiniComplexCommand::SetYawPitchAngle(i16::MIN, i16::MAX),
        A8MiniComplexCommand::SetTimeUTC(u64::MAX),
        A8MiniComplexCommand::GetCodecSpecs(255),
        A8MiniComplexCommand::SetCodecSpecs(9, 0, 1920, 1080, 4000, 7),
    ];
    for command in commands {
        let frame = command.to_bytes();
        let n = frame.len();
        assert_eq!(frame[3] as usize, n - 10);
        let crc = crc16_calc(&frame[..n - 2], 0);
        assert_eq!(&frame[n - 2..], &[crc as u8, (crc >> 8) as u8]);
    }
}

#[test]
fn angle_arguments_saturate_at_their_bounds() {
    let clamped = A8MiniComplexCommand::SetYawPitchAngle(9999, -9999).to_bytes();
    let bounds = A8MiniComplexCommand::SetYawPitchAngle(1350, -900).to_bytes();
    assert_eq!(&clamped[8..12], &bounds[8..12]);
    assert_eq!(clamped, bounds);
    assert_eq!(
        bounds,
        vec![0x55, 0x66, 0x01, 0x04, 0x00, 0x00, 0x00, 0x0e, 0x05, 0x46, 0xfc, 0x7c, 0x17, 0x3d]
    );
}

#[test]
fn angle_saturation_just_past_the_other_bounds() {
    assert_eq!(
        A8MiniComplexCommand::SetYawPitchAngle(-1351, 251).to_bytes(),
        A8MiniComplexCommand::SetYawPitchAngle(-1350, 250).to_bytes()
    );
    assert_eq!(
        A8MiniComplexCommand::SetYawPitchAngle(-1350, 250).to_bytes(),
        vec![0x55, 0x66, 0x01, 0x04, 0x00, 0x00, 0x00, 0x0e, 0xfa, 0xba, 0x00, 0xfa, 0x65, 0x47]
    );
}

#[test]
fn speed_arguments_saturate() {
    let clamped = A8MiniComplexCommand::SetYawPitchSpeed(127, -128).to_bytes();
    assert_eq!(clamped, A8MiniComplexCommand::SetYawPitchSpeed(100, -100).to_bytes());
    assert_eq!(
        clamped,
        vec![0x55, 0x66, 0x01, 0x02, 0x00, 0x00, 0x00, 0x07, 0x64, 0x9c, 0x2a, 0xa1]
    );
}

#[test]
fn encoding_twice_gives_identical_frames() {
    let command = A8MiniComplexCommand::SetYawPitchAngle(130, -20);
    assert_eq!(command.to_bytes(), command.to_bytes());
    let simple = A8MiniSimpleCommand::RecordVideo;
    assert_eq!(simple.to_bytes(), simple.to_bytes());
}

#[test]
fn time_frame_is_big_endian_with_checksum() {
    assert_eq!(
        A8MiniComplexCommand::SetTimeUTC(0x0102030405060708).to_bytes(),
        vec![
            0x55, 0x66, 0x01, 0x08, 0x00, 0x00, 0x00, 0x30, 0x01, 0x02, 0x03, 0x04, 0x05, 0x06,
            0x07, 0x08, 0x37, 0x14
        ]
    );
}

#[test]
fn codec_frames_clamp_their_selectors() {
    assert_eq!(
        A8MiniComplexCommand::GetCodecSpecs(9).to_bytes(),
        vec![0x55, 0x66, 0x01, 0x01, 0x00, 0x00, 0x00, 0x20, 0x02, 0xfd, 0xad]
    );
    assert_eq!(
        A8MiniComplexCommand::SetCodecSpecs(0, 2, 3840, 2160, 50000, 0).to_bytes(),
        A8MiniSimpleCommand::Resolution4k.to_bytes()
    );
    assert_eq!(
        A8MiniComplexCommand::SetCodecSpecs(5, 0, 1920, 1080, 4000, 9).to_bytes(),
        vec![
            0x55, 0x66, 0x01, 0x08, 0x00, 0x00, 0x00, 0x21, 0x02, 0x01, 0x07, 0x80, 0x04, 0x38,
            0x0f, 0xa0, 0x31, 0x04
        ]
    );
}

#[test]
fn short_reply_is_malformed() {
    let bytes = [0x28u8, 0x00, 0x32, 0x00, 0x3c, 0x00, 0x04, 0x00, 0x05, 0x00, 0x06];
    assert_eq!(decode_attitude(&bytes), Err(A8MiniError::MalformedReply));
    assert_eq!(decode_attitude(&[]), Err(A8MiniError::MalformedReply));
}

#[test]
fn reply_decodes_negative_fields_and_ignores_trailing_bytes() {
    let bytes = [
        0xff, 0xff, 0x00, 0x80, 0xff, 0x7f, 0x9c, 0xff, 0x01, 0x02, 0x00, 0x00, 0xaa, 0xbb,
    ];
    let attitude = decode_attitude(&bytes).unwrap();
    assert_eq!(
        attitude,
        A8MiniAtittude {
            theta_yaw: -1,
            theta_pitch: i16::MIN,
            theta_roll: i16::MAX,
            v_yaw: -100,
            v_pitch: 0x0201,
            v_roll: 0,
        }
    );
}

#[test]
fn simple_query_urls() {
    assert_eq!(
        A8MiniSimpleHTTPQuery::GetDirectoriesPhotos.to_string(),
        "http://192.168.144.25:82/cgi-bin/media.cgi/api/v1/getdirectories?media_type=0"
    );
    assert_eq!(
        A8MiniSimpleHTTPQuery::GetDirectoriesVideos.to_string(),
        "http://192.168.144.25:82/cgi-bin/media.cgi/api/v1/getdirectories?media_type=1"
    );
    assert_eq!(
        A8MiniSimpleHTTPQuery::GetMediaCountPhotos.to_string(),
        "http://192.168.144.25:82/cgi-bin/media.cgi/api/v1/getmediacount?media_type=0&path=101SIYI_IMG"
    );
    assert_eq!(
        A8MiniSimpleHTTPQuery::GetMediaCountVideos.to_string(),
        "http://192.168.144.25:82/cgi-bin/media.cgi/api/v1/getmediacount?media_type=1&path=100SIYI_VID"
    );
}

#[test]
fn media_query_urls_pad_the_index_to_four_digits() {
    assert_eq!(
        A8MiniComplexHTTPQuery::GetPhoto(7).to_string(),
        "http://192.168.144.25:82/photo/101SIYI_IMG/IMG_0007.jpg"
    );
    assert_eq!(
        A8MiniComplexHTTPQuery::GetPhoto(0).to_string(),
        "http://192.168.144.25:82/photo/101SIYI_IMG/IMG_0000.jpg"
    );
    assert_eq!(
        A8MiniComplexHTTPQuery::GetVideo(42).to_string(),
        "http://192.168.144.25:82/photo/100SIYI_VID/REC_0042.mp4"
    );
    assert_eq!(
        A8MiniComplexHTTPQuery::GetVideo(1234).to_string(),
        "http://192.168.144.25:82/photo/100SIYI_VID/REC_1234.mp4"
    );
    assert_eq!(
        A8MiniComplexHTTPQuery::GetPhoto(4294967295).to_string(),
        "http://192.168.144.25:82/photo/101SIYI_IMG/IMG_4294967295.jpg"
    );
}

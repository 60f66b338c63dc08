use a8mini_camera_rs::control::{A8MiniAtittude, A8MiniError};
use a8mini_camera_rs::session::{attitude_from_reply, check_received, check_sent};

#[test]
fn sending_nothing_is_a_transport_error() {
    assert_eq!(check_sent(0), Err(A8MiniError::TransportError));
    assert_eq!(check_sent(12), Ok(()));
}

#[test]
fn wait_outcomes_are_told_apart() {
    assert_eq!(check_received(None), Err(A8MiniError::Timeout));
    assert_eq!(check_received(Some(0)), Err(A8MiniError::TransportError));
    assert_eq!(check_received(Some(20)), Ok(20));
}

#[test]
fn attitude_reply_outcomes() {
    let mut buffer = [0u8; 64];
    buffer[..12].copy_from_slice(&[
        0x28, 0x00, 0x32, 0x00, 0x3c, 0x00, 0x04, 0x00, 0x05, 0x00, 0x06, 0x00,
    ]);
    assert_eq!(attitude_from_reply(None, &buffer), Err(A8MiniError::Timeout));
    assert_eq!(attitude_from_reply(Some(0), &buffer), Err(A8MiniError::TransportError));
    assert_eq!(attitude_from_reply(Some(11), &buffer), Err(A8MiniError::MalformedReply));
    assert_eq!(
        attitude_from_reply(Some(12), &buffer),
        Ok(A8MiniAtittude {
            theta_yaw: 40,
            theta_pitch: 50,
            theta_roll: 60,
            v_yaw: 4,
            v_pitch: 5,
            v_roll: 6,
        })
    );
}

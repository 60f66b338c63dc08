use vstd::prelude::*;

verus! {

use vstd::slice::slice_to_vec;
use vstd::string::StringExecFns;
use crate::checksum::{crc16_calc, crc16_prefix, crc16_spec};
use crate::constants::{
    checksum_is,
    lemma_fixed_frame_checksums,
    AUTO_CENTER,
    ROTATE_UP,
    ROTATE_DOWN,
    ROTATE_RIGHT,
    ROTATE_LEFT,
    STOP_ROTATION,
    ZOOM_IN,
    ZOOM_OUT,
    ZOOM_MAX,
    MAX_ZOOM_INFORMATION,
    FOCUS_IN,
    FOCUS_OUT,
    TAKE_PICTURE,
    RECORD_VIDEO,
    ROTATE_100_100,
    CAMERA_INFORMATION,
    AUTO_FOCUS,
    HARDWARE_ID_INFORMATION,
    FIRMWARE_VERSION_INFORMATION,
    SET_LOCK_MODE,
    SET_FOLLOW_MODE,
    SET_FPV_MODE,
    ATTITUDE_INFORMATION,
    SET_VIDEO_OUTPUT_HDMI,
    SET_VIDEO_OUTPUT_CVBS,
    SET_VIDEO_OUTPUT_OFF,
    LASER_RANGEFINDER_INFORMATION,
    REBOOT_CAMERA,
    REBOOT_GIMBAL,
    RESOLUTION_4K,
    HEARTBEAT,
};

/// A command that can be sent to the camera as one frame.
pub trait Command {
    /// The bytes of the frame this command is sent as.
    spec fn frame(&self) -> Seq<u8>;

    fn to_bytes(&self) -> (r: Vec<u8>)
        ensures
            r@ == self.frame(),
    ;
}

/// A query to the camera's HTTP media API, addressed by one URL.
pub trait HTTPQuery {
    /// The URL this query is sent to.
    spec fn url(&self) -> Seq<char>;

    fn to_string(&self) -> (r: String)
        ensures
            r@ == self.url(),
    ;
}

/// The frame for command `cmd_id` before its checksum: sync header, control byte,
/// data length, three zero bytes, command id, then the data.
pub open spec fn frame_prefix(cmd_id: u8, data: Seq<u8>) -> Seq<u8> {
    seq![0x55u8, 0x66u8, 0x01u8, data.len() as u8, 0x00u8, 0x00u8, 0x00u8, cmd_id] + data
}

/// The two checksum bytes of a frame whose other bytes are `prefix`: its CRC-16 with
/// the register starting at zero, low byte first.
pub open spec fn checksum_bytes(prefix: Seq<u8>) -> Seq<u8> {
    let crc = crc16_spec(prefix, 0);
    seq![crc as u8, (crc >> 8u16) as u8]
}

/// The complete frame for command `cmd_id` carrying `data`.
pub open spec fn build_frame(cmd_id: u8, data: Seq<u8>) -> Seq<u8> {
    frame_prefix(cmd_id, data) + checksum_bytes(frame_prefix(cmd_id, data))
}

/// `f` is a well-formed frame: header, a data length that counts the bytes between
/// the command id and the checksum, zero sequence bytes, and a checksum that matches.
pub open spec fn is_valid_frame(f: Seq<u8>) -> bool {
    &&& f.len() >= 10
    &&& f[0] == 0x55u8
    &&& f[1] == 0x66u8
    &&& f[2] == 0x01u8
    &&& f[3] as int == f.len() - 10
    &&& f[4] == 0x00u8
    &&& f[5] == 0x00u8
    &&& f[6] == 0x00u8
    &&& f.subrange(f.len() - 2, f.len() as int) == checksum_bytes(f.subrange(0, f.len() - 2))
}

/// `v` saturated to the range `[lo, hi]`.
pub open spec fn clamp(v: int, lo: int, hi: int) -> int {
    if v < lo {
        lo
    } else if v > hi {
        hi
    } else {
        v
    }
}

/// `v` saturated to `[lo, hi]`.
pub fn clamp_i8(v: i8, lo: i8, hi: i8) -> (r: i8)
    requires
        lo <= hi,
    ensures
        r == clamp(v as int, lo as int, hi as int),
{
    if v < lo {
        lo
    } else if v > hi {
        hi
    } else {
        v
    }
}

/// `v` saturated to `[lo, hi]`.
pub fn clamp_i16(v: i16, lo: i16, hi: i16) -> (r: i16)
    requires
        lo <= hi,
    ensures
        r == clamp(v as int, lo as int, hi as int),
{
    if v < lo {
        lo
    } else if v > hi {
        hi
    } else {
        v
    }
}

/// `v` saturated to `[lo, hi]`.
pub fn clamp_u8(v: u8, lo: u8, hi: u8) -> (r: u8)
    requires
        lo <= hi,
    ensures
        r == clamp(v as int, lo as int, hi as int),
{
    if v < lo {
        lo
    } else if v > hi {
        hi
    } else {
        v
    }
}

/// `x` as two bytes, most significant first.
pub open spec fn be16(x: u16) -> Seq<u8> {
    seq![(x >> 8u16) as u8, x as u8]
}

/// `x` as eight bytes, most significant first.
pub open spec fn be64(x: u64) -> Seq<u8> {
    seq![
        (x >> 56u64) as u8,
        (x >> 48u64) as u8,
        (x >> 40u64) as u8,
        (x >> 32u64) as u8,
        (x >> 24u64) as u8,
        (x >> 16u64) as u8,
        (x >> 8u64) as u8,
        x as u8,
    ]
}

/// Commands that take no argument; each is sent as a fixed, precomputed frame.
#[derive(Debug, Clone, Copy, PartialEq, Eq, Structural)]
pub enum A8MiniSimpleCommand {
    AutoCenter,
    RotateUp,
    RotateDown,
    RotateRight,
    RotateLeft,
    StopRotation,
    ZoomIn,
    ZoomOut,
    ZoomMax,
    MaxZoomInformation,
    FocusIn,
    FocusOut,
    TakePicture,
    RecordVideo,
    Rotate100100,
    CameraInformation,
    AutoFocus,
    HardwareIDInformation,
    FirmwareVersionInformation,
    SetLockMode,
    SetFollowMode,
    SetFPVMode,
    AttitudeInformation,
    SetVideoOutputHDMI,
    SetVideoOutputCVBS,
    SetVideoOutputOff,
    LaserRangefinderInformation,
    RebootCamera,
    RebootGimbal,
    Resolution4k,
    Heartbeat,
}

impl Command for A8MiniSimpleCommand {
    open spec fn frame(&self) -> Seq<u8> {
        match *self {
            A8MiniSimpleCommand::AutoCenter => AUTO_CENTER@,
            A8MiniSimpleCommand::RotateUp => ROTATE_UP@,
            A8MiniSimpleCommand::RotateDown => ROTATE_DOWN@,
            A8MiniSimpleCommand::RotateRight => ROTATE_RIGHT@,
            A8MiniSimpleCommand::RotateLeft => ROTATE_LEFT@,
            A8MiniSimpleCommand::StopRotation => STOP_ROTATION@,
            A8MiniSimpleCommand::ZoomIn => ZOOM_IN@,
            A8MiniSimpleCommand::ZoomOut => ZOOM_OUT@,
            A8MiniSimpleCommand::ZoomMax => ZOOM_MAX@,
            A8MiniSimpleCommand::MaxZoomInformation => MAX_ZOOM_INFORMATION@,
            A8MiniSimpleCommand::FocusIn => FOCUS_IN@,
            A8MiniSimpleCommand::FocusOut => FOCUS_OUT@,
            A8MiniSimpleCommand::TakePicture => TAKE_PICTURE@,
            A8MiniSimpleCommand::RecordVideo => RECORD_VIDEO@,
            A8MiniSimpleCommand::Rotate100100 => ROTATE_100_100@,
            A8MiniSimpleCommand::CameraInformation => CAMERA_INFORMATION@,
            A8MiniSimpleCommand::AutoFocus => AUTO_FOCUS@,
            A8MiniSimpleCommand::HardwareIDInformation => HARDWARE_ID_INFORMATION@,
            A8MiniSimpleCommand::FirmwareVersionInformation => FIRMWARE_VERSION_INFORMATION@,
            A8MiniSimpleCommand::SetLockMode => SET_LOCK_MODE@,
            A8MiniSimpleCommand::SetFollowMode => SET_FOLLOW_MODE@,
            A8MiniSimpleCommand::SetFPVMode => SET_FPV_MODE@,
            A8MiniSimpleCommand::AttitudeInformation => ATTITUDE_INFORMATION@,
            A8MiniSimpleCommand::SetVideoOutputHDMI => SET_VIDEO_OUTPUT_HDMI@,
            A8MiniSimpleCommand::SetVideoOutputCVBS => SET_VIDEO_OUTPUT_CVBS@,
            A8MiniSimpleCommand::SetVideoOutputOff => SET_VIDEO_OUTPUT_OFF@,
            A8MiniSimpleCommand::LaserRangefinderInformation => LASER_RANGEFINDER_INFORMATION@,
            A8MiniSimpleCommand::RebootCamera => REBOOT_CAMERA@,
            A8MiniSimpleCommand::RebootGimbal => REBOOT_GIMBAL@,
            A8MiniSimpleCommand::Resolution4k => RESOLUTION_4K@,
            A8MiniSimpleCommand::Heartbeat => HEARTBEAT@,
        }
    }

    fn to_bytes(&self) -> (r: Vec<u8>) {
        match *self {
            A8MiniSimpleCommand::AutoCenter => slice_to_vec(&AUTO_CENTER),
            A8MiniSimpleCommand::RotateUp => slice_to_vec(&ROTATE_UP),
            A8MiniSimpleCommand::RotateDown => slice_to_vec(&ROTATE_DOWN),
            A8MiniSimpleCommand::RotateRight => slice_to_vec(&ROTATE_RIGHT),
            A8MiniSimpleCommand::RotateLeft => slice_to_vec(&ROTATE_LEFT),
            A8MiniSimpleCommand::StopRotation => slice_to_vec(&STOP_ROTATION),
            A8MiniSimpleCommand::ZoomIn => slice_to_vec(&ZOOM_IN),
            A8MiniSimpleCommand::ZoomOut => slice_to_vec(&ZOOM_OUT),
            A8MiniSimpleCommand::ZoomMax => slice_to_vec(&ZOOM_MAX),
            A8MiniSimpleCommand::MaxZoomInformation => slice_to_vec(&MAX_ZOOM_INFORMATION),
            A8MiniSimpleCommand::FocusIn => slice_to_vec(&FOCUS_IN),
            A8MiniSimpleCommand::FocusOut => slice_to_vec(&FOCUS_OUT),
            A8MiniSimpleCommand::TakePicture => slice_to_vec(&TAKE_PICTURE),
            A8MiniSimpleCommand::RecordVideo => slice_to_vec(&RECORD_VIDEO),
            A8MiniSimpleCommand::Rotate100100 => slice_to_vec(&ROTATE_100_100),
            A8MiniSimpleCommand::CameraInformation => slice_to_vec(&CAMERA_INFORMATION),
            A8MiniSimpleCommand::AutoFocus => slice_to_vec(&AUTO_FOCUS),
            A8MiniSimpleCommand::HardwareIDInformation => slice_to_vec(&HARDWARE_ID_INFORMATION),
            A8MiniSimpleCommand::FirmwareVersionInformation => slice_to_vec(&FIRMWARE_VERSION_INFORMATION),
            A8MiniSimpleCommand::SetLockMode => slice_to_vec(&SET_LOCK_MODE),
            A8MiniSimpleCommand::SetFollowMode => slice_to_vec(&SET_FOLLOW_MODE),
            A8MiniSimpleCommand::SetFPVMode => slice_to_vec(&SET_FPV_MODE),
            A8MiniSimpleCommand::AttitudeInformation => slice_to_vec(&ATTITUDE_INFORMATION),
            A8MiniSimpleCommand::SetVideoOutputHDMI => slice_to_vec(&SET_VIDEO_OUTPUT_HDMI),
            A8MiniSimpleCommand::SetVideoOutputCVBS => slice_to_vec(&SET_VIDEO_OUTPUT_CVBS),
            A8MiniSimpleCommand::SetVideoOutputOff => slice_to_vec(&SET_VIDEO_OUTPUT_OFF),
            A8MiniSimpleCommand::LaserRangefinderInformation => slice_to_vec(&LASER_RANGEFINDER_INFORMATION),
            A8MiniSimpleCommand::RebootCamera => slice_to_vec(&REBOOT_CAMERA),
            A8MiniSimpleCommand::RebootGimbal => slice_to_vec(&REBOOT_GIMBAL),
            A8MiniSimpleCommand::Resolution4k => slice_to_vec(&RESOLUTION_4K),
            A8MiniSimpleCommand::Heartbeat => slice_to_vec(&HEARTBEAT),
        }
    }
}

/// A byte sequence with a frame's header whose last two bytes are the checksum of
/// the bytes before them is a well-formed frame.
proof fn lemma_frame_bytes_valid(f: Seq<u8>)
    requires
        f.len() >= 10,
        f[0] == 0x55u8,
        f[1] == 0x66u8,
        f[2] == 0x01u8,
        f[3] as int == f.len() - 10,
        f[4] == 0x00u8,
        f[5] == 0x00u8,
        f[6] == 0x00u8,
        checksum_is(crc16_spec(f.subrange(0, f.len() - 2), 0), f[f.len() - 2], f[f.len() - 1]),
    ensures
        is_valid_frame(f),
{
    assert(f.subrange(f.len() - 2, f.len() as int) =~= checksum_bytes(f.subrange(0, f.len() - 2)));
}

/// Every fixed frame is well formed: in particular its last two bytes are the CRC-16
/// of the bytes before them, low byte first.
pub proof fn lemma_fixed_frames_valid(c: A8MiniSimpleCommand)
    ensures
        is_valid_frame(c.frame()),
{
    lemma_fixed_frame_checksums();
    reveal_with_fuel(crc16_prefix, 20);
    match c {
        A8MiniSimpleCommand::AutoCenter => lemma_frame_bytes_valid(AUTO_CENTER@),
        A8MiniSimpleCommand::RotateUp => lemma_frame_bytes_valid(ROTATE_UP@),
        A8MiniSimpleCommand::RotateDown => lemma_frame_bytes_valid(ROTATE_DOWN@),
        A8MiniSimpleCommand::RotateRight => lemma_frame_bytes_valid(ROTATE_RIGHT@),
        A8MiniSimpleCommand::RotateLeft => lemma_frame_bytes_valid(ROTATE_LEFT@),
        A8MiniSimpleCommand::StopRotation => lemma_frame_bytes_valid(STOP_ROTATION@),
        A8MiniSimpleCommand::ZoomIn => lemma_frame_bytes_valid(ZOOM_IN@),
        A8MiniSimpleCommand::ZoomOut => lemma_frame_bytes_valid(ZOOM_OUT@),
        A8MiniSimpleCommand::ZoomMax => lemma_frame_bytes_valid(ZOOM_MAX@),
        A8MiniSimpleCommand::MaxZoomInformation => lemma_frame_bytes_valid(MAX_ZOOM_INFORMATION@),
        A8MiniSimpleCommand::FocusIn => lemma_frame_bytes_valid(FOCUS_IN@),
        A8MiniSimpleCommand::FocusOut => lemma_frame_bytes_valid(FOCUS_OUT@),
        A8MiniSimpleCommand::TakePicture => lemma_frame_bytes_valid(TAKE_PICTURE@),
        A8MiniSimpleCommand::RecordVideo => lemma_frame_bytes_valid(RECORD_VIDEO@),
        A8MiniSimpleCommand::Rotate100100 => lemma_frame_bytes_valid(ROTATE_100_100@),
        A8MiniSimpleCommand::CameraInformation => lemma_frame_bytes_valid(CAMERA_INFORMATION@),
        A8MiniSimpleCommand::AutoFocus => lemma_frame_bytes_valid(AUTO_FOCUS@),
        A8MiniSimpleCommand::HardwareIDInformation => lemma_frame_bytes_valid(HARDWARE_ID_INFORMATION@),
        A8MiniSimpleCommand::FirmwareVersionInformation => lemma_frame_bytes_valid(FIRMWARE_VERSION_INFORMATION@),
        A8MiniSimpleCommand::SetLockMode => lemma_frame_bytes_valid(SET_LOCK_MODE@),
        A8MiniSimpleCommand::SetFollowMode => lemma_frame_bytes_valid(SET_FOLLOW_MODE@),
        A8MiniSimpleCommand::SetFPVMode => lemma_frame_bytes_valid(SET_FPV_MODE@),
        A8MiniSimpleCommand::AttitudeInformation => lemma_frame_bytes_valid(ATTITUDE_INFORMATION@),
        A8MiniSimpleCommand::SetVideoOutputHDMI => lemma_frame_bytes_valid(SET_VIDEO_OUTPUT_HDMI@),
        A8MiniSimpleCommand::SetVideoOutputCVBS => lemma_frame_bytes_valid(SET_VIDEO_OUTPUT_CVBS@),
        A8MiniSimpleCommand::SetVideoOutputOff => lemma_frame_bytes_valid(SET_VIDEO_OUTPUT_OFF@),
        A8MiniSimpleCommand::LaserRangefinderInformation => lemma_frame_bytes_valid(LASER_RANGEFINDER_INFORMATION@),
        A8MiniSimpleCommand::RebootCamera => lemma_frame_bytes_valid(REBOOT_CAMERA@),
        A8MiniSimpleCommand::RebootGimbal => lemma_frame_bytes_valid(REBOOT_GIMBAL@),
        A8MiniSimpleCommand::Resolution4k => lemma_frame_bytes_valid(RESOLUTION_4K@),
        A8MiniSimpleCommand::Heartbeat => lemma_frame_bytes_valid(HEARTBEAT@),
    }
}

/// The first eight bytes of a frame carrying `data_len` bytes of data for `cmd_id`.
fn frame_header(data_len: u8, cmd_id: u8) -> (r: Vec<u8>)
    ensures
        r@ == seq![0x55u8, 0x66u8, 0x01u8, data_len, 0x00u8, 0x00u8, 0x00u8, cmd_id],
{
    vec![0x55, 0x66, 0x01, data_len, 0x00, 0x00, 0x00, cmd_id]
}

/// Appends `x` most significant byte first.
fn push_be16(byte_arr: &mut Vec<u8>, x: u16)
    ensures
        final(byte_arr)@ == old(byte_arr)@ + be16(x),
{
    byte_arr.push((x >> 8u16) as u8);
    byte_arr.push(x as u8);
    assert(final(byte_arr)@ =~= old(byte_arr)@ + be16(x));
}

/// Appends the checksum of everything already in `byte_arr`.
fn push_checksum(byte_arr: &mut Vec<u8>)
    ensures
        final(byte_arr)@ == old(byte_arr)@ + checksum_bytes(old(byte_arr)@),
{
    let crc = crc16_calc(byte_arr.as_slice(), 0);
    byte_arr.push(crc as u8);
    byte_arr.push((crc >> 8u16) as u8);
    assert(final(byte_arr)@ =~= old(byte_arr)@ + checksum_bytes(old(byte_arr)@));
}

/// Commands whose data is built from arguments, each saturated to its valid range.
#[derive(Debug, Clone, Copy, PartialEq, Eq, Structural)]
pub enum A8MiniComplexCommand {
    /// Yaw and pitch rotation rates, each in [-100, 100].
    SetYawPitchSpeed(i8, i8),
    /// Yaw angle in [-1350, 1350] and pitch angle in [-900, 250], in tenths of a degree.
    SetYawPitchAngle(i16, i16),
    /// UTC time stamp.
    SetTimeUTC(u64),
    /// Stream selector in [0, 2].
    GetCodecSpecs(u8),
    /// Stream selector in [0, 2], encoder type in [1, 2], width, height, bit rate, and a
    /// reserved byte that is not sent.
    SetCodecSpecs(u8, u8, u16, u16, u16, u8),
}

impl A8MiniComplexCommand {
    /// The command id byte of this command's frame.
    pub open spec fn cmd_id(self) -> u8 {
        match self {
            A8MiniComplexCommand::SetYawPitchSpeed(..) => 0x07,
            A8MiniComplexCommand::SetYawPitchAngle(..) => 0x0e,
            A8MiniComplexCommand::SetTimeUTC(..) => 0x30,
            A8MiniComplexCommand::GetCodecSpecs(..) => 0x20,
            A8MiniComplexCommand::SetCodecSpecs(..) => 0x21,
        }
    }

    /// The data bytes of this command's frame: each argument saturated to its range,
    /// one-byte fields as a two's-complement byte, wider fields big-endian.
    pub open spec fn data(self) -> Seq<u8> {
        match self {
            A8MiniComplexCommand::SetYawPitchSpeed(v_yaw, v_pitch) => seq![
                clamp(v_yaw as int, -100, 100) as u8,
                clamp(v_pitch as int, -100, 100) as u8,
            ],
            A8MiniComplexCommand::SetYawPitchAngle(theta_yaw, theta_pitch) => be16(
                clamp(theta_yaw as int, -1350, 1350) as u16,
            ) + be16(clamp(theta_pitch as int, -900, 250) as u16),
            A8MiniComplexCommand::SetTimeUTC(timestamp) => be64(timestamp),
            A8MiniComplexCommand::GetCodecSpecs(stream_type) => seq![
                clamp(stream_type as int, 0, 2) as u8,
            ],
            A8MiniComplexCommand::SetCodecSpecs(
                stream_type,
                video_enc_type,
                resolution_l,
                resolution_h,
                video_bitrate,
                _,
            ) => seq![
                clamp(stream_type as int, 0, 2) as u8,
                clamp(video_enc_type as int, 1, 2) as u8,
            ] + be16(resolution_l) + be16(resolution_h) + be16(video_bitrate),
        }
    }
}

impl Command for A8MiniComplexCommand {
    open spec fn frame(&self) -> Seq<u8> {
        build_frame(self.cmd_id(), self.data())
    }

    fn to_bytes(&self) -> (r: Vec<u8>) {
        let mut byte_arr: Vec<u8>;
        match *self {
            A8MiniComplexCommand::SetYawPitchSpeed(v_yaw, v_pitch) => {
                byte_arr = frame_header(2, 0x07);
                byte_arr.push(clamp_i8(v_yaw, -100, 100) as u8);
                byte_arr.push(clamp_i8(v_pitch, -100, 100) as u8);
            },
            A8MiniComplexCommand::SetYawPitchAngle(theta_yaw, theta_pitch) => {
                byte_arr = frame_header(4, 0x0e);
                push_be16(&mut byte_arr, clamp_i16(theta_yaw, -1350, 1350) as u16);
                push_be16(&mut byte_arr, clamp_i16(theta_pitch, -900, 250) as u16);
            },
            A8MiniComplexCommand::SetTimeUTC(timestamp) => {
                byte_arr = frame_header(8, 0x30);
                byte_arr.push((timestamp >> 56u64) as u8);
                byte_arr.push((timestamp >> 48u64) as u8);
                byte_arr.push((timestamp >> 40u64) as u8);
                byte_arr.push((timestamp >> 32u64) as u8);
                byte_arr.push((timestamp >> 24u64) as u8);
                byte_arr.push((timestamp >> 16u64) as u8);
                byte_arr.push((timestamp >> 8u64) as u8);
                byte_arr.push(timestamp as u8);
            },
            A8MiniComplexCommand::GetCodecSpecs(stream_type) => {
                byte_arr = frame_header(1, 0x20);
                byte_arr.push(clamp_u8(stream_type, 0, 2));
            },
            A8MiniComplexCommand::SetCodecSpecs(
                stream_type,
                video_enc_type,
                resolution_l,
                resolution_h,
                video_bitrate,
                _,
            ) => {
                byte_arr = frame_header(8, 0x21);
                byte_arr.push(clamp_u8(stream_type, 0, 2));
                byte_arr.push(clamp_u8(video_enc_type, 1, 2));
                push_be16(&mut byte_arr, resolution_l);
                push_be16(&mut byte_arr, resolution_h);
                push_be16(&mut byte_arr, video_bitrate);
            },
        }
        assert(byte_arr@ =~= frame_prefix(self.cmd_id(), self.data()));
        push_checksum(&mut byte_arr);
        byte_arr
    }
}

/// A frame built from a command id and at most 245 data bytes is well formed.
proof fn lemma_build_frame_valid(cmd_id: u8, data: Seq<u8>)
    requires
        data.len() <= 245,
    ensures
        is_valid_frame(build_frame(cmd_id, data)),
{
    let p = frame_prefix(cmd_id, data);
    let f = build_frame(cmd_id, data);
    assert(f.subrange(0, f.len() - 2) =~= p);
    assert(f.subrange(f.len() - 2, f.len() as int) =~= checksum_bytes(p));
}

/// Every parameterized command is encoded as a well-formed frame.
pub proof fn lemma_parameterized_frames_valid(c: A8MiniComplexCommand)
    ensures
        is_valid_frame(c.frame()),
{
    lemma_build_frame_valid(c.cmd_id(), c.data());
}

/// Out-of-range arguments are saturated, never rejected: a rotation command encodes
/// exactly as the same command with each argument saturated to its range.
pub proof fn lemma_arguments_saturate(v_yaw: i8, v_pitch: i8, theta_yaw: i16, theta_pitch: i16)
    ensures
        A8MiniComplexCommand::SetYawPitchSpeed(v_yaw, v_pitch).frame()
            == A8MiniComplexCommand::SetYawPitchSpeed(
            clamp(v_yaw as int, -100, 100) as i8,
            clamp(v_pitch as int, -100, 100) as i8,
        ).frame(),
        A8MiniComplexCommand::SetYawPitchAngle(theta_yaw, theta_pitch).frame()
            == A8MiniComplexCommand::SetYawPitchAngle(
            clamp(theta_yaw as int, -1350, 1350) as i16,
            clamp(theta_pitch as int, -900, 250) as i16,
        ).frame(),
{
}

/// Encoding depends on the command value alone: two encodings of one value are
/// byte-identical.
pub proof fn lemma_encoding_deterministic<C: Command>(c: C, first: Seq<u8>, second: Seq<u8>)
    requires
        first == c.frame(),
        second == c.frame(),
    ensures
        first == second,
{
}

/// Conditions under which the control link reports failure.
#[derive(Debug, Clone, Copy, PartialEq, Eq, Structural)]
pub enum A8MiniError {
    /// A reply too short, or otherwise unfit, for the decoder.
    MalformedReply,
    /// Nothing was sent or received, or the transport failed.
    TransportError,
    /// No reply came within the time allowed.
    Timeout,
}

/// Gimbal attitude: angles and angular rates about the three axes.
#[derive(Debug, Clone, Copy, PartialEq, Eq, Structural)]
pub struct A8MiniAtittude {
    pub theta_yaw: i16,
    pub theta_pitch: i16,
    pub theta_roll: i16,
    pub v_yaw: i16,
    pub v_pitch: i16,
    pub v_roll: i16,
}

/// The bytes `lo`, `hi` read as a little-endian two's-complement 16-bit integer.
pub open spec fn le_i16(lo: u8, hi: u8) -> i16 {
    (((hi as u16) << 8u16) | (lo as u16)) as i16
}

/// Six little-endian 16-bit integers, one from each of the first six byte pairs of `b`.
pub open spec fn six_le_i16(b: Seq<u8>) -> (i16, i16, i16, i16, i16, i16) {
    (
        le_i16(b[0], b[1]),
        le_i16(b[2], b[3]),
        le_i16(b[4], b[5]),
        le_i16(b[6], b[7]),
        le_i16(b[8], b[9]),
        le_i16(b[10], b[11]),
    )
}

/// The attitude a telemetry reply `b` carries: yaw, pitch and roll angles, then yaw,
/// pitch and roll rates, each little-endian in two bytes.
pub open spec fn attitude_spec(b: Seq<u8>) -> A8MiniAtittude {
    let t = six_le_i16(b);
    A8MiniAtittude {
        theta_yaw: t.0,
        theta_pitch: t.1,
        theta_roll: t.2,
        v_yaw: t.3,
        v_pitch: t.4,
        v_roll: t.5,
    }
}

#[verifier::external_type_specification]
#[verifier::external_body]
pub struct ExBincodeErrorKind(bincode::ErrorKind);

/// Relies on `bincode::deserialize` (bincode 1.3: fixed-width little-endian integers,
/// trailing bytes allowed) reading a tuple of six `i16` from the first twelve bytes;
/// it fails exactly when fewer than twelve bytes are given.
#[verifier::external_body]
fn deserialize_six_i16(bytes: &[u8]) -> (r: Result<(i16, i16, i16, i16, i16, i16), bincode::Error>)
    ensures
        r is Ok <==> bytes@.len() >= 12,
        r matches Ok(t) ==> t == six_le_i16(bytes@),
{
    bincode::deserialize(bytes)
}

/// Decodes a telemetry reply into an attitude; bytes after the twelfth are ignored.
pub fn decode_attitude(bytes: &[u8]) -> (r: Result<A8MiniAtittude, A8MiniError>)
    ensures
        bytes@.len() >= 12 ==> r == Ok::<A8MiniAtittude, A8MiniError>(attitude_spec(bytes@)),
        bytes@.len() < 12 ==> r == Err::<A8MiniAtittude, A8MiniError>(A8MiniError::MalformedReply),
{
    match deserialize_six_i16(bytes) {
        Ok((theta_yaw, theta_pitch, theta_roll, v_yaw, v_pitch, v_roll)) => Ok(
            A8MiniAtittude { theta_yaw, theta_pitch, theta_roll, v_yaw, v_pitch, v_roll },
        ),
        Err(_) => Err(A8MiniError::MalformedReply),
    }
}

/// Queries whose URL is fixed.
#[derive(Debug, Clone, Copy, PartialEq, Eq, Structural)]
pub enum A8MiniSimpleHTTPQuery {
    GetDirectoriesPhotos,
    GetDirectoriesVideos,
    GetMediaCountPhotos,
    GetMediaCountVideos,
}

impl HTTPQuery for A8MiniSimpleHTTPQuery {
    open spec fn url(&self) -> Seq<char> {
        match *self {
            A8MiniSimpleHTTPQuery::GetDirectoriesPhotos => "http://192.168.144.25:82/cgi-bin/media.cgi/api/v1/getdirectories?media_type=0"@,
            A8MiniSimpleHTTPQuery::GetDirectoriesVideos => "http://192.168.144.25:82/cgi-bin/media.cgi/api/v1/getdirectories?media_type=1"@,
            A8MiniSimpleHTTPQuery::GetMediaCountPhotos => "http://192.168.144.25:82/cgi-bin/media.cgi/api/v1/getmediacount?media_type=0&path=101SIYI_IMG"@,
            A8MiniSimpleHTTPQuery::GetMediaCountVideos => "http://192.168.144.25:82/cgi-bin/media.cgi/api/v1/getmediacount?media_type=1&path=100SIYI_VID"@,
        }
    }

    fn to_string(&self) -> (r: String) {
        match *self {
            A8MiniSimpleHTTPQuery::GetDirectoriesPhotos => String::from_str(
                "http://192.168.144.25:82/cgi-bin/media.cgi/api/v1/getdirectories?media_type=0",
            ),
            A8MiniSimpleHTTPQuery::GetDirectoriesVideos => String::from_str(
                "http://192.168.144.25:82/cgi-bin/media.cgi/api/v1/getdirectories?media_type=1",
            ),
            A8MiniSimpleHTTPQuery::GetMediaCountPhotos => String::from_str(
                "http://192.168.144.25:82/cgi-bin/media.cgi/api/v1/getmediacount?media_type=0&path=101SIYI_IMG",
            ),
            A8MiniSimpleHTTPQuery::GetMediaCountVideos => String::from_str(
                "http://192.168.144.25:82/cgi-bin/media.cgi/api/v1/getmediacount?media_type=1&path=100SIYI_VID",
            ),
        }
    }
}

/// The decimal digit `d`, for `d` in [0, 9].
pub open spec fn decimal_digit(d: int) -> char {
    seq!['0', '1', '2', '3', '4', '5', '6', '7', '8', '9'][d]
}

/// `n` written in decimal, without leading zeros.
pub open spec fn decimal(n: nat) -> Seq<char>
    decreases n,
{
    if n < 10 {
        seq![decimal_digit(n as int)]
    } else {
        decimal(n / 10) + seq![decimal_digit((n % 10) as int)]
    }
}

/// `s` with zeros in front, up to `width` characters.
pub open spec fn zero_padded(s: Seq<char>, width: nat) -> Seq<char> {
    if s.len() < width {
        Seq::new((width - s.len()) as nat, |_i: int| '0') + s
    } else {
        s
    }
}

/// Number of decimal digits of `n`, up to four.
proof fn lemma_decimal_len(n: nat)
    ensures
        n < 10 ==> decimal(n).len() == 1,
        10 <= n < 100 ==> decimal(n).len() == 2,
        100 <= n < 1000 ==> decimal(n).len() == 3,
        1000 <= n ==> decimal(n).len() >= 4,
    decreases n,
{
    if n >= 10 {
        lemma_decimal_len(n / 10);
    }
}

/// The one-character string of the decimal digit `d`.
fn digit_str(d: u32) -> (r: &'static str)
    requires
        d < 10,
    ensures
        r@ == seq![decimal_digit(d as int)],
{
    proof {
        reveal_strlit("0");
        reveal_strlit("1");
        reveal_strlit("2");
        reveal_strlit("3");
        reveal_strlit("4");
        reveal_strlit("5");
        reveal_strlit("6");
        reveal_strlit("7");
        reveal_strlit("8");
        reveal_strlit("9");
    }
    let r = match d {
        0 => "0",
        1 => "1",
        2 => "2",
        3 => "3",
        4 => "4",
        5 => "5",
        6 => "6",
        7 => "7",
        8 => "8",
        _ => "9",
    };
    assert(r@ =~= seq![decimal_digit(d as int)]);
    r
}

/// Appends `n` in decimal.
fn push_decimal(s: &mut String, n: u32)
    ensures
        final(s)@ == old(s)@ + decimal(n as nat),
    decreases n,
{
    if n >= 10 {
        push_decimal(s, n / 10);
    }
    s.append(digit_str(n % 10));
    assert(final(s)@ =~= old(s)@ + decimal(n as nat));
}

/// Appends `n` in decimal, with zeros in front up to four digits.
fn push_zero_padded(s: &mut String, n: u32)
    ensures
        final(s)@ == old(s)@ + zero_padded(decimal(n as nat), 4),
{
    proof {
        lemma_decimal_len(n as nat);
        reveal_strlit("0");
    }
    let ghost start = s@;
    if n < 1000 {
        s.append("0");
    }
    if n < 100 {
        s.append("0");
    }
    if n < 10 {
        s.append("0");
    }
    push_decimal(s, n);
    assert(final(s)@ =~= start + zero_padded(decimal(n as nat), 4));
}

/// Queries for one media file, by its index.
#[derive(Debug, Clone, Copy, PartialEq, Eq, Structural)]
pub enum A8MiniComplexHTTPQuery {
    GetPhoto(u32),
    GetVideo(u32),
}

impl HTTPQuery for A8MiniComplexHTTPQuery {
    open spec fn url(&self) -> Seq<char> {
        match *self {
            A8MiniComplexHTTPQuery::GetPhoto(photo_ind) => "http://192.168.144.25:82/photo/101SIYI_IMG/IMG_"@
                + zero_padded(decimal(photo_ind as nat), 4) + ".jpg"@,
            A8MiniComplexHTTPQuery::GetVideo(video_ind) => "http://192.168.144.25:82/photo/100SIYI_VID/REC_"@
                + zero_padded(decimal(video_ind as nat), 4) + ".mp4"@,
        }
    }

    fn to_string(&self) -> (r: String) {
        match *self {
            A8MiniComplexHTTPQuery::GetPhoto(photo_ind) => {
                let mut url = String::from_str("http://192.168.144.25:82/photo/101SIYI_IMG/IMG_");
                push_zero_padded(&mut url, photo_ind);
                url.append(".jpg");
                url
            },
            A8MiniComplexHTTPQuery::GetVideo(video_ind) => {
                let mut url = String::from_str("http://192.168.144.25:82/photo/100SIYI_VID/REC_");
                push_zero_padded(&mut url, video_ind);
                url.append(".mp4");
                url
            },
        }
    }
}

/// A reply of the HTTP media API.
#[derive(Debug)]
pub struct HTTPResponse {
    pub code: i32,
    pub data: HTTPResponseData,
    pub success: bool,
    pub message: String,
}

/// The data of a reply of the HTTP media API; which fields are present depends on the
/// query.
#[derive(Debug)]
pub struct HTTPResponseData {
    pub media_type: i32,
    pub directories: Option<String>,
    pub path: Option<String>,
    pub start: Option<i32>,
    pub count: Option<i32>,
    pub list: Option<String>,
}

} // verus!

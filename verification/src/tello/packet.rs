use crate::bytes::{byte_or_zero, byte_or_zero_exec, le16_or_zero, le16_or_zero_exec};
use crate::error::Error;
use crate::tello::crc::{crc16_continue, crc8_ref, lemma_crc16_fold_append, spec_crc16, spec_crc8};
use chrono::Timelike;
use vstd::prelude::*;

verus! {

/// The first byte of every binary Tello packet.
pub const HEADER: u8 = 0xCC;

/// The three-bit packet type carried in byte 4 of the header.
#[derive(Clone, Copy, Debug, PartialEq, Eq)]
pub enum PacketType {
    Extended,
    GetInfo,
    Data1,
    Unknown1,
    Data2,
    SetInfo,
    Flip,
    Unknown2,
}

impl PacketType {
    pub open spec fn spec_code(self) -> u8 {
        match self {
            PacketType::Extended => 0,
            PacketType::GetInfo => 1,
            PacketType::Data1 => 2,
            PacketType::Unknown1 => 3,
            PacketType::Data2 => 4,
            PacketType::SetInfo => 5,
            PacketType::Flip => 6,
            PacketType::Unknown2 => 7,
        }
    }

    pub fn code(&self) -> (r: u8)
        ensures
            r == self.spec_code(),
            r < 8,
    {
        match self {
            PacketType::Extended => 0,
            PacketType::GetInfo => 1,
            PacketType::Data1 => 2,
            PacketType::Unknown1 => 3,
            PacketType::Data2 => 4,
            PacketType::SetInfo => 5,
            PacketType::Flip => 6,
            PacketType::Unknown2 => 7,
        }
    }
}

/// Message identifiers of the Tello binary protocol.
///
/// The identifier travels little-endian in bytes 5 and 6 of a packet; `id`
/// gives it as the `u16` those two bytes read as.
#[derive(Clone, Copy, Debug, PartialEq, Eq)]
pub enum Command {
    Undefined,
    Error1,
    Error2,
    SetDateTime,
    SetSticks,
    TakeOff,
    Land,
    FlightStatus,
    Flip,
    LogHeader,
    LogData,
    LogConfig,
    WifiStatus,
    LightStrength,
    SPSPPS,
    VideoBitrate,
    VideoResolution,
}

impl Command {
    pub open spec fn spec_id(self) -> u16 {
        match self {
            Command::Undefined => 0,
            Command::Error1 => 0x0043,
            Command::Error2 => 0x0044,
            Command::SetDateTime => 0x0046,
            Command::SetSticks => 0x0050,
            Command::TakeOff => 0x0054,
            Command::Land => 0x0055,
            Command::FlightStatus => 0x0056,
            Command::Flip => 0x005c,
            Command::LogHeader => 0x1050,
            Command::LogData => 0x1051,
            Command::LogConfig => 0x1052,
            Command::WifiStatus => 0x001a,
            Command::LightStrength => 0x0035,
            Command::SPSPPS => 0x0025,
            Command::VideoBitrate => 0x0028,
            Command::VideoResolution => 0x0031,
        }
    }

    /// The command a wire identifier names; unknown identifiers are `Undefined`.
    pub open spec fn spec_from_id(v: u16) -> Command {
        if v == 0x0043 {
            Command::Error1
        } else if v == 0x0044 {
            Command::Error2
        } else if v == 0x0046 {
            Command::SetDateTime
        } else if v == 0x0050 {
            Command::SetSticks
        } else if v == 0x0054 {
            Command::TakeOff
        } else if v == 0x0055 {
            Command::Land
        } else if v == 0x0056 {
            Command::FlightStatus
        } else if v == 0x005c {
            Command::Flip
        } else if v == 0x1050 {
            Command::LogHeader
        } else if v == 0x1051 {
            Command::LogData
        } else if v == 0x1052 {
            Command::LogConfig
        } else if v == 0x001a {
            Command::WifiStatus
        } else if v == 0x0035 {
            Command::LightStrength
        } else if v == 0x0025 {
            Command::SPSPPS
        } else if v == 0x0028 {
            Command::VideoBitrate
        } else if v == 0x0031 {
            Command::VideoResolution
        } else {
            Command::Undefined
        }
    }

    pub fn id(&self) -> (r: u16)
        ensures
            r == self.spec_id(),
    {
        match self {
            Command::Undefined => 0,
            Command::Error1 => 0x0043,
            Command::Error2 => 0x0044,
            Command::SetDateTime => 0x0046,
            Command::SetSticks => 0x0050,
            Command::TakeOff => 0x0054,
            Command::Land => 0x0055,
            Command::FlightStatus => 0x0056,
            Command::Flip => 0x005c,
            Command::LogHeader => 0x1050,
            Command::LogData => 0x1051,
            Command::LogConfig => 0x1052,
            Command::WifiStatus => 0x001a,
            Command::LightStrength => 0x0035,
            Command::SPSPPS => 0x0025,
            Command::VideoBitrate => 0x0028,
            Command::VideoResolution => 0x0031,
        }
    }

    pub fn from_id(v: u16) -> (r: Command)
        ensures
            r == Command::spec_from_id(v),
    {
        if v == 0x0043 {
            Command::Error1
        } else if v == 0x0044 {
            Command::Error2
        } else if v == 0x0046 {
            Command::SetDateTime
        } else if v == 0x0050 {
            Command::SetSticks
        } else if v == 0x0054 {
            Command::TakeOff
        } else if v == 0x0055 {
            Command::Land
        } else if v == 0x0056 {
            Command::FlightStatus
        } else if v == 0x005c {
            Command::Flip
        } else if v == 0x1050 {
            Command::LogHeader
        } else if v == 0x1051 {
            Command::LogData
        } else if v == 0x1052 {
            Command::LogConfig
        } else if v == 0x001a {
            Command::WifiStatus
        } else if v == 0x0035 {
            Command::LightStrength
        } else if v == 0x0025 {
            Command::SPSPPS
        } else if v == 0x0028 {
            Command::VideoBitrate
        } else if v == 0x0031 {
            Command::VideoResolution
        } else {
            Command::Undefined
        }
    }
}

/// Reading back the identifier of a command gives the command.
pub proof fn lemma_command_id_roundtrip(c: Command)
    ensures
        Command::spec_from_id(c.spec_id()) == c,
{
}

/// Little-endian bytes of a `u16`.
pub open spec fn le16(v: u16) -> Seq<u8> {
    seq![(v % 256) as u8, (v / 256) as u8]
}

/// The value of the size field for a payload of `payload_len` bytes: the
/// whole packet length (payload plus eleven bytes of framing) shifted left by
/// three, in sixteen bits.
pub open spec fn spec_size_field(payload_len: nat) -> u16 {
    (((payload_len + 11) * 8) % 65536) as u16
}

/// The nine header bytes of a packet.
pub open spec fn spec_header(packet_type: u8, command: u16, seq: u16, payload_len: nat) -> Seq<u8> {
    let size = le16(spec_size_field(payload_len));
    let lead = seq![HEADER, size[0], size[1]];
    lead + seq![spec_crc8(lead), (64 + packet_type * 8) as u8] + le16(command) + le16(seq)
}

/// A whole packet: header, payload and the CRC-16 of both, little-endian.
pub open spec fn spec_packet(packet_type: u8, command: u16, seq: u16, payload: Seq<u8>) -> Seq<u8> {
    let body = spec_header(packet_type, command, seq, payload.len()) + payload;
    body + le16(spec_crc16(body))
}

fn le16_bytes(v: u16) -> (r: [u8; 2])
    ensures
        r@ == le16(v),
{
    let r = [(v % 256) as u8, (v / 256) as u8];
    assert(r@ =~= le16(v));
    r
}

/// The size field of a packet whose payload has `payload_len` bytes, as the
/// two bytes that go on the wire.
pub fn packet_size(payload_len: u16) -> (r: [u8; 2])
    requires
        payload_len + 11 <= u16::MAX,
    ensures
        r@ == le16(spec_size_field(payload_len as nat)),
{
    let total: u32 = (payload_len as u32 + 11) * 8;
    le16_bytes((total % 65536) as u16)
}

/// The header of a packet carrying `payload`, and the CRC-16 that closes it.
fn packet_header(payload: &[u8], packet_type: PacketType, command: Command, seq: u16) -> (r: (
    [u8; 9],
    [u8; 2],
))
    requires
        payload.len() + 11 <= u16::MAX,
    ensures
        r.0@ == spec_header(packet_type.spec_code(), command.spec_id(), seq, payload@.len()),
        r.1@ == le16(spec_crc16(r.0@ + payload@)),
{
    let payload_size = packet_size(payload.len() as u16);
    let lead: [u8; 3] = [HEADER, payload_size[0], payload_size[1]];
    let crc = crc8_ref(&lead);
    let packet_type_info: u8 = 64 + packet_type.code() * 8;
    let message_id = le16_bytes(command.id());
    let sequence_number = le16_bytes(seq);
    let header: [u8; 9] = [
        HEADER,
        payload_size[0],
        payload_size[1],
        crc,
        packet_type_info,
        message_id[0],
        message_id[1],
        sequence_number[0],
        sequence_number[1],
    ];
    proof {
        let size = le16(spec_size_field(payload@.len()));
        let spec_lead = seq![HEADER, size[0], size[1]];
        assert(lead@ =~= spec_lead);
        assert(header@ =~= spec_header(
            packet_type.spec_code(),
            command.spec_id(),
            seq,
            payload@.len(),
        ));
    }
    let partial = crc16_continue(0x3692, &header);
    let last_crc = crc16_continue(partial, payload);
    proof {
        lemma_crc16_fold_append(0x3692, header@, payload@);
    }
    (header, le16_bytes(last_crc))
}

fn join_header_footer(h: [u8; 9], f: [u8; 2]) -> (r: [u8; 11])
    ensures
        r@ == h@ + f@,
{
    let r = [h[0], h[1], h[2], h[3], h[4], h[5], h[6], h[7], h[8], f[0], f[1]];
    assert(r@ =~= h@ + f@);
    r
}

fn join_one_byte_payload(h: [u8; 9], p: [u8; 1], f: [u8; 2]) -> (r: [u8; 12])
    ensures
        r@ == h@ + p@ + f@,
{
    let r = [h[0], h[1], h[2], h[3], h[4], h[5], h[6], h[7], h[8], p[0], f[0], f[1]];
    assert(r@ =~= h@ + p@ + f@);
    r
}

/// The packet for `command` of type `packet_type` with an empty payload.
fn empty_packet(packet_type: PacketType, command: Command, sequence_number: u16) -> (r: [u8; 11])
    ensures
        r@ == spec_packet(packet_type.spec_code(), command.spec_id(), sequence_number, seq![]),
{
    let empty: [u8; 0] = [];
    let (header, footer) = packet_header(&empty, packet_type, command, sequence_number);
    proof {
        assert(empty@ =~= Seq::<u8>::empty());
        assert(header@ + empty@ =~= header@);
    }
    join_header_footer(header, footer)
}

/// The packet for `command` of type `packet_type` with a one-byte payload.
fn one_byte_packet(packet_type: PacketType, command: Command, sequence_number: u16, byte: u8) -> (r: [u8; 12])
    ensures
        r@ == spec_packet(packet_type.spec_code(), command.spec_id(), sequence_number, seq![byte]),
{
    let payload: [u8; 1] = [byte];
    let (header, footer) = packet_header(&payload, packet_type, command, sequence_number);
    proof {
        assert(payload@ =~= seq![byte]);
    }
    join_one_byte_payload(header, payload, footer)
}

/// Asks the drone to take off.
pub fn takeoff(sequence_number: u16) -> (r: [u8; 11])
    ensures
        r@ == spec_packet(5, 0x0054, sequence_number, seq![]),
{
    empty_packet(PacketType::SetInfo, Command::TakeOff, sequence_number)
}

/// Asks the drone to land.
pub fn land(sequence_number: u16) -> (r: [u8; 12])
    ensures
        r@ == spec_packet(5, 0x0055, sequence_number, seq![0u8]),
{
    one_byte_packet(PacketType::SetInfo, Command::Land, sequence_number, 0)
}

/// Asks the drone to stop a landing in progress.
pub fn cancel_land(sequence_number: u16) -> (r: [u8; 12])
    ensures
        r@ == spec_packet(5, 0x0055, sequence_number, seq![1u8]),
{
    one_byte_packet(PacketType::SetInfo, Command::Land, sequence_number, 1)
}

/// The payload of a packet: everything between the nine header bytes and the
/// two CRC bytes. Zero-sized payloads are fine.
pub fn strip_payload(packet: &[u8]) -> (r: &[u8])
    requires
        packet.len() >= 11,
    ensures
        r@ == packet@.subrange(9, packet.len() - 2),
{
    &packet[9..packet.len() - 2]
}

/// Asks the drone for its H.264 bit rate.
pub fn query_video_bitrate(sequence_number: u16) -> (r: [u8; 11])
    ensures
        r@ == spec_packet(1, 0x0028, sequence_number, seq![]),
{
    empty_packet(PacketType::GetInfo, Command::VideoBitrate, sequence_number)
}

/// Asks the drone for its H.264 SPS and PPS.
pub fn query_video_sps_pps(sequence_number: u16) -> (r: [u8; 11])
    ensures
        r@ == spec_packet(4, 0x0025, sequence_number, seq![]),
{
    empty_packet(PacketType::Data2, Command::SPSPPS, sequence_number)
}

/// Asks for future video packets to be in 4:3 aspect ratio.
pub fn request_4_3_video(sequence_number: u16) -> (r: [u8; 11])
    ensures
        r@ == spec_packet(5, 0x0031, sequence_number, seq![]),
{
    empty_packet(PacketType::SetInfo, Command::VideoResolution, sequence_number)
}

/// The payload of every packet built by `spec_packet` is what
/// `strip_payload` gives back, and, for packets shorter than 8192 bytes, its
/// size field holds the packet's length times eight (longer lengths do not
/// fit in the field's sixteen bits and wrap).
pub proof fn lemma_strip_payload_of_packet(packet_type: u8, command: u16, seq: u16, payload: Seq<u8>)
    requires
        payload.len() + 11 <= u16::MAX,
    ensures
        ({
            let p = spec_packet(packet_type, command, seq, payload);
            &&& p.len() == payload.len() + 11
            &&& p.subrange(9, p.len() - 2) == payload
            &&& (p.len() < 8192 ==> p[1] + 256 * p[2] == 8 * p.len())
        }),
{
    let p = spec_packet(packet_type, command, seq, payload);
    let h = spec_header(packet_type, command, seq, payload.len());
    assert(h.len() == 9);
    let v = spec_size_field(payload.len());
    assert(v % 256 + 256 * (v / 256) == v);
    assert(p.subrange(9, p.len() - 2) =~= payload);
}

/// The stick value sent for a percentage `v` in `0..100`: centre 1024, plus
/// up to 65.
pub open spec fn stick_axis(v: i16) -> int {
    1024 + (66 * v) / 100
}

/// The four stick values packed into eleven-bit fields, right stick first.
pub open spec fn spec_packed_axes(rx: i16, ry: i16, lx: i16, ly: i16) -> int {
    stick_axis(rx) + 2048 * stick_axis(ry) + 4194304 * stick_axis(lx) + 8589934592 * stick_axis(ly)
}

/// The eleven payload bytes of a stick packet: the low six bytes of the
/// packed axes, little-endian, then the time of day and the millisecond
/// (little-endian) at which it was made.
pub open spec fn spec_sticks_payload(
    rx: i16,
    ry: i16,
    lx: i16,
    ly: i16,
    hour: u8,
    min: u8,
    sec: u8,
    ms: u16,
) -> Seq<u8> {
    let v = spec_packed_axes(rx, ry, lx, ly);
    seq![
        (v % 256) as u8,
        (v / 256 % 256) as u8,
        (v / 65536 % 256) as u8,
        (v / 16777216 % 256) as u8,
        (v / 4294967296 % 256) as u8,
        (v / 1099511627776 % 256) as u8,
        hour,
        min,
        sec,
        (ms % 256) as u8,
        (ms / 256) as u8,
    ]
}

fn stick_axis_exec(v: i16) -> (r: u64)
    requires
        0 <= v < 100,
    ensures
        r == stick_axis(v),
        1024 <= r <= 1089,
{
    (1024 + (66 * v) / 100) as u64
}

fn join_header_payload_footer(h: [u8; 9], p: [u8; 11], f: [u8; 2]) -> (r: [u8; 22])
    ensures
        r@ == h@ + p@ + f@,
{
    let r = [
        h[0],
        h[1],
        h[2],
        h[3],
        h[4],
        h[5],
        h[6],
        h[7],
        h[8],
        p[0],
        p[1],
        p[2],
        p[3],
        p[4],
        p[5],
        p[6],
        p[7],
        p[8],
        p[9],
        p[10],
        f[0],
        f[1],
    ];
    assert(r@ =~= h@ + p@ + f@);
    r
}

/// The stick packet for the given stick percentages, stamped with the given
/// time of day. Each percentage must be in `0..100`.
pub fn set_sticks_at(
    sequence_number: u16,
    rx: i16,
    ry: i16,
    lx: i16,
    ly: i16,
    hour: u8,
    min: u8,
    sec: u8,
    ms: u16,
) -> (r: [u8; 22])
    requires
        0 <= rx < 100,
        0 <= ry < 100,
        0 <= lx < 100,
        0 <= ly < 100,
    ensures
        r@ == spec_packet(
            4,
            0x0050,
            sequence_number,
            spec_sticks_payload(rx, ry, lx, ly, hour, min, sec, ms),
        ),
{
    let a = stick_axis_exec(rx);
    let b = stick_axis_exec(ry);
    let c = stick_axis_exec(lx);
    let d = stick_axis_exec(ly);
    let packed: u64 = a + 2048 * b + 4194304 * c + 8589934592 * d;
    let payload: [u8; 11] = [
        (packed % 256) as u8,
        (packed / 256 % 256) as u8,
        (packed / 65536 % 256) as u8,
        (packed / 16777216 % 256) as u8,
        (packed / 4294967296 % 256) as u8,
        (packed / 1099511627776 % 256) as u8,
        hour,
        min,
        sec,
        (ms % 256) as u8,
        (ms / 256) as u8,
    ];
    assert(payload@ =~= spec_sticks_payload(rx, ry, lx, ly, hour, min, sec, ms));
    let (header, footer) = packet_header(&payload, PacketType::Data2, Command::SetSticks, sequence_number);
    join_header_payload_footer(header, payload, footer)
}

/// The local time of day, read with `chrono::Local::now()` and its
/// `Timelike` accessors `hour`, `minute`, `second` and `nanosecond`.
///
/// The contract claims only the ranges chrono documents for those accessors
/// (0 to 23, 0 to 59, 0 to 59, and below two billion nanoseconds, the upper
/// half standing for a leap second); which time it is, is left unsaid.
#[verifier::external_body]
fn local_time_of_day() -> (t: (u32, u32, u32, u32))
    ensures
        t.0 < 24,
        t.1 < 60,
        t.2 < 60,
        t.3 < 2_000_000_000,
{
    let now = chrono::Local::now();
    (now.hour(), now.minute(), now.second(), now.nanosecond())
}

/// The stick packet for the given stick percentages, stamped with the current
/// local time of day. Each percentage must be in `0..100`.
pub fn set_sticks(sequence_number: u16, rx: i16, ry: i16, lx: i16, ly: i16) -> (r: [u8; 22])
    requires
        0 <= rx < 100,
        0 <= ry < 100,
        0 <= lx < 100,
        0 <= ly < 100,
    ensures
        exists|hour: u8, min: u8, sec: u8, ms: u16|
            hour < 24 && min < 60 && sec < 60 && ms < 2000 && r@ == spec_packet(
                4,
                0x0050,
                sequence_number,
                #[trigger] spec_sticks_payload(rx, ry, lx, ly, hour, min, sec, ms),
            ),
{
    let (hour, min, sec, nanos) = local_time_of_day();
    let ms = (nanos / 1_000_000) as u16;
    set_sticks_at(sequence_number, rx, ry, lx, ly, hour as u8, min as u8, sec as u8, ms)
}

/// Whether any bit of `mask` is set in `b`.
pub open spec fn spec_flag_set(b: u8, mask: u8) -> bool {
    b & mask != 0
}

fn flag_set(b: u8, mask: u8) -> (r: bool)
    ensures
        r == spec_flag_set(b, mask),
{
    b & mask != 0
}

/// The state report of a Tello drone (message 0x0056).
#[derive(Debug, Clone, Copy, PartialEq, Eq)]
pub struct FlightData {
    pub height: u16,
    pub v_north: u16,
    pub v_east: u16,
    pub v_vert: u16,
    pub fly_time: u16,
    pub imu_state: bool,
    pub pressure_state: bool,
    pub below_state: bool,
    pub power_state: bool,
    pub battery_state: bool,
    pub gravity_state: bool,
    pub wind_state: bool,
    pub imu_calibration: u8,
    pub battery_percent: u8,
    pub time_remaining: u16,
    pub battery_mvolts: u16,
    pub is_flying: bool,
    pub is_on_ground: bool,
    pub is_em_open: bool,
    pub is_hovering: bool,
    pub outage_recording: bool,
    pub is_battery_low: bool,
    pub is_battery_crit: bool,
    pub is_factory_mode: bool,
    pub fly_mode: u8,
    pub throw_fly_timer: u8,
    pub camera_state: u8,
    pub electrical_machinery_state: u8,
    pub front_in: bool,
    pub front_out: bool,
    pub front_lsc: bool,
    pub error_state: bool,
}

/// The flight data a payload describes. Fields are laid out back to back,
/// multi-byte ones little-endian; bytes past the end of the payload read as
/// zero, and bytes past offset 23 are ignored.
pub open spec fn spec_flight_data(p: Seq<u8>) -> FlightData {
    let flags1 = byte_or_zero(p, 10);
    let flags2 = byte_or_zero(p, 17);
    let flags3 = byte_or_zero(p, 22);
    let flags4 = byte_or_zero(p, 23);
    FlightData {
        height: le16_or_zero(p, 0),
        v_north: le16_or_zero(p, 2),
        v_east: le16_or_zero(p, 4),
        v_vert: le16_or_zero(p, 6),
        fly_time: le16_or_zero(p, 8),
        imu_state: spec_flag_set(flags1, 0x01),
        pressure_state: spec_flag_set(flags1, 0x02),
        below_state: spec_flag_set(flags1, 0x04),
        power_state: spec_flag_set(flags1, 0x08),
        battery_state: spec_flag_set(flags1, 0x10),
        gravity_state: spec_flag_set(flags1, 0x20),
        wind_state: spec_flag_set(flags1, 0x80),
        imu_calibration: byte_or_zero(p, 11),
        battery_percent: byte_or_zero(p, 12),
        time_remaining: le16_or_zero(p, 13),
        battery_mvolts: le16_or_zero(p, 15),
        is_flying: spec_flag_set(flags2, 0x01),
        is_on_ground: spec_flag_set(flags2, 0x02),
        is_em_open: spec_flag_set(flags2, 0x04),
        is_hovering: spec_flag_set(flags2, 0x08),
        outage_recording: spec_flag_set(flags2, 0x10),
        is_battery_low: spec_flag_set(flags2, 0x20),
        is_battery_crit: spec_flag_set(flags2, 0x40),
        is_factory_mode: spec_flag_set(flags2, 0x80),
        fly_mode: byte_or_zero(p, 18),
        throw_fly_timer: byte_or_zero(p, 19),
        camera_state: byte_or_zero(p, 20),
        electrical_machinery_state: byte_or_zero(p, 21),
        front_in: spec_flag_set(flags3, 0x01),
        front_out: spec_flag_set(flags3, 0x02),
        front_lsc: spec_flag_set(flags3, 0x04),
        error_state: flags4 == 1,
    }
}

proof fn lemma_byte_bits(b: u8)
    by (bit_vector)
    ensures
        (b & 0x01 != 0) == (b % 2 == 1),
        (b & 0x02 != 0) == ((b / 2) % 2 == 1),
        (b & 0x04 != 0) == ((b / 4) % 2 == 1),
        (b & 0x08 != 0) == ((b / 8) % 2 == 1),
        (b & 0x10 != 0) == ((b / 16) % 2 == 1),
        (b & 0x20 != 0) == ((b / 32) % 2 == 1),
        (b & 0x40 != 0) == ((b / 64) % 2 == 1),
        (b & 0x80 != 0) == (b >= 128),
{
}

/// How a flight-status payload of at least 24 bytes is laid out: the
/// sixteen-bit fields are little-endian at offsets 0 (height), 2, 4, 6
/// (velocities north, east, vertical), 8 (flight time), 13 (time remaining)
/// and 15 (battery millivolts); bytes 11, 12 and 18 to 21 are taken as they
/// are; each state flag is one bit of its flag byte, counted from the least
/// significant: byte 10 holds the sensor states (bits 0 to 5, and the wind
/// state in bit 7), byte 17 the flight states (flying in bit 0, on the
/// ground in bit 1, then electromagnet open, hovering, outage recording,
/// battery low, battery critical and factory mode), byte 22 the front
/// sensor states (bits 0 to 2); the error state is byte 23 being 1.
pub proof fn lemma_flight_data_layout(p: Seq<u8>)
    requires
        p.len() >= 24,
    ensures
        ({
            let fd = spec_flight_data(p);
            &&& fd.height == p[0] + 256 * p[1]
            &&& fd.v_north == p[2] + 256 * p[3]
            &&& fd.v_east == p[4] + 256 * p[5]
            &&& fd.v_vert == p[6] + 256 * p[7]
            &&& fd.fly_time == p[8] + 256 * p[9]
            &&& fd.imu_state == (p[10] % 2 == 1)
            &&& fd.pressure_state == ((p[10] / 2) % 2 == 1)
            &&& fd.below_state == ((p[10] / 4) % 2 == 1)
            &&& fd.power_state == ((p[10] / 8) % 2 == 1)
            &&& fd.battery_state == ((p[10] / 16) % 2 == 1)
            &&& fd.gravity_state == ((p[10] / 32) % 2 == 1)
            &&& fd.wind_state == (p[10] >= 128)
            &&& fd.imu_calibration == p[11]
            &&& fd.battery_percent == p[12]
            &&& fd.time_remaining == p[13] + 256 * p[14]
            &&& fd.battery_mvolts == p[15] + 256 * p[16]
            &&& fd.is_flying == (p[17] % 2 == 1)
            &&& fd.is_on_ground == ((p[17] / 2) % 2 == 1)
            &&& fd.is_em_open == ((p[17] / 4) % 2 == 1)
            &&& fd.is_hovering == ((p[17] / 8) % 2 == 1)
            &&& fd.outage_recording == ((p[17] / 16) % 2 == 1)
            &&& fd.is_battery_low == ((p[17] / 32) % 2 == 1)
            &&& fd.is_battery_crit == ((p[17] / 64) % 2 == 1)
            &&& fd.is_factory_mode == (p[17] >= 128)
            &&& fd.fly_mode == p[18]
            &&& fd.throw_fly_timer == p[19]
            &&& fd.camera_state == p[20]
            &&& fd.electrical_machinery_state == p[21]
            &&& fd.front_in == (p[22] % 2 == 1)
            &&& fd.front_out == ((p[22] / 2) % 2 == 1)
            &&& fd.front_lsc == ((p[22] / 4) % 2 == 1)
            &&& fd.error_state == (p[23] == 1)
        }),
{
    lemma_byte_bits(p[10]);
    lemma_byte_bits(p[17]);
    lemma_byte_bits(p[22]);
}

impl FlightData {
    /// Decodes a flight-status payload. Short payloads are accepted: the
    /// fields they do not reach are zero.
    pub fn new(payload: &[u8]) -> (r: Result<Self, Error>)
        ensures
            r == Ok::<FlightData, Error>(spec_flight_data(payload@)),
    {
        let flags1 = byte_or_zero_exec(payload, 10);
        let flags2 = byte_or_zero_exec(payload, 17);
        let flags3 = byte_or_zero_exec(payload, 22);
        let flags4 = byte_or_zero_exec(payload, 23);
        Ok(FlightData {
            height: le16_or_zero_exec(payload, 0),
            v_north: le16_or_zero_exec(payload, 2),
            v_east: le16_or_zero_exec(payload, 4),
            v_vert: le16_or_zero_exec(payload, 6),
            fly_time: le16_or_zero_exec(payload, 8),
            imu_state: flag_set(flags1, 0x01),
            pressure_state: flag_set(flags1, 0x02),
            below_state: flag_set(flags1, 0x04),
            power_state: flag_set(flags1, 0x08),
            battery_state: flag_set(flags1, 0x10),
            gravity_state: flag_set(flags1, 0x20),
            wind_state: flag_set(flags1, 0x80),
            imu_calibration: byte_or_zero_exec(payload, 11),
            battery_percent: byte_or_zero_exec(payload, 12),
            time_remaining: le16_or_zero_exec(payload, 13),
            battery_mvolts: le16_or_zero_exec(payload, 15),
            is_flying: flag_set(flags2, 0x01),
            is_on_ground: flag_set(flags2, 0x02),
            is_em_open: flag_set(flags2, 0x04),
            is_hovering: flag_set(flags2, 0x08),
            outage_recording: flag_set(flags2, 0x10),
            is_battery_low: flag_set(flags2, 0x20),
            is_battery_crit: flag_set(flags2, 0x40),
            is_factory_mode: flag_set(flags2, 0x80),
            fly_mode: byte_or_zero_exec(payload, 18),
            throw_fly_timer: byte_or_zero_exec(payload, 19),
            camera_state: byte_or_zero_exec(payload, 20),
            electrical_machinery_state: byte_or_zero_exec(payload, 21),
            front_in: flag_set(flags3, 0x01),
            front_out: flag_set(flags3, 0x02),
            front_lsc: flag_set(flags3, 0x04),
            error_state: flags4 == 1,
        })
    }
}

} // verus!

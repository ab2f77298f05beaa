//! The protocol state of a Tello connection: sequence numbers, stick
//! positions, the messages the drone sends back, and its video.
use crate::error::Error;
use crate::tello::packet::{
    Command,
    FlightData,
    land,
    le16,
    query_video_sps_pps,
    set_sticks,
    spec_flight_data,
    spec_packet,
    spec_sticks_payload,
    strip_payload,
    takeoff,
};
use crate::tello::video::TelloVideo;
use vstd::prelude::*;

verus! {

/// What a binary message from the drone reported.
#[derive(Debug, Clone, Copy, PartialEq, Eq)]
pub enum CommandReport {
    Error1,
    Error2,
    /// A flight status report; `battery_changed` tells whether its battery
    /// level differs from the last one known.
    FlightStatus { battery_percent: u8, battery_changed: bool },
    TakeOff,
    SetSticks,
    Land,
    Flip,
    SetDateTime,
    LogHeader,
    LogData,
    LogConfig,
    WifiStatus { wifi_percent: u8, interference_percent: u8 },
    /// Whether the light level is good.
    LightStrength { good: bool },
}

/// What a text message from the drone reported.
#[derive(Debug, Clone, Copy, PartialEq, Eq)]
pub enum TextReport {
    /// The drone acknowledged the connection with the right video port.
    Connected,
    /// The drone did not understand a command.
    UnknownCommand,
}

/// The protocol state of a Tello connection.
#[derive(Debug)]
pub struct TelloDrone {
    pub is_connected: bool,
    pub seq_number: u16,
    pub forward_percent: i16,
    pub sideway_percent: i16,
    pub rotate_percent: i16,
    pub updown_percent: i16,
    pub battery_percent: u8,
    pub curr_state: Option<FlightData>,
    pub video: TelloVideo,
}

/// `needle` occurs in `hay` at `i`.
pub open spec fn occurs_at(hay: Seq<u8>, needle: Seq<u8>, i: int) -> bool {
    0 <= i && i + needle.len() <= hay.len() && hay.subrange(i, i + needle.len()) == needle
}

/// `needle` occurs somewhere in `hay`.
pub open spec fn seq_contains(hay: Seq<u8>, needle: Seq<u8>) -> bool {
    exists|i: int| occurs_at(hay, needle, i)
}

/// Whether `needle` occurs in `hay`.
pub fn contains_bytes(hay: &[u8], needle: &[u8]) -> (r: bool)
    ensures
        r == seq_contains(hay@, needle@),
{
    if needle.len() > hay.len() {
        assert forall|i: int| !occurs_at(hay@, needle@, i) by {}
        return false;
    }
    let last = hay.len() - needle.len();
    let mut i: usize = 0;
    while i <= last
        invariant
            last == hay.len() - needle.len(),
            i <= last + 1,
            forall|j: int| 0 <= j < i ==> !occurs_at(hay@, needle@, j),
        decreases last + 1 - i,
    {
        let mut k: usize = 0;
        let mut same = true;
        while k < needle.len()
            invariant
                i <= last,
                last == hay.len() - needle.len(),
                k <= needle.len(),
                same == (forall|m: int| 0 <= m < k ==> hay@[i + m] == needle@[m]),
            decreases needle.len() - k,
        {
            if hay[i + k] != needle[k] {
                same = false;
            }
            k = k + 1;
        }
        if same {
            assert(hay@.subrange(i as int, i + needle.len()) =~= needle@);
            assert(occurs_at(hay@, needle@, i as int));
            return true;
        }
        assert(!occurs_at(hay@, needle@, i as int)) by {
            let m = choose|m: int| 0 <= m < needle.len() && hay@[i + m] != needle@[m];
            if hay@.subrange(i as int, i + needle.len()) == needle@ {
                assert(hay@.subrange(i as int, i + needle.len())[m] == hay@[i + m]);
            }
        }
        i = i + 1;
    }
    assert forall|j: int| !occurs_at(hay@, needle@, j) by {
        if 0 <= j && j + needle.len() <= hay.len() {
            assert(j < i);
        }
    }
    false
}

/// "conn_ack:"
pub open spec fn conn_ack_text() -> Seq<u8> {
    seq![0x63u8, 0x6f, 0x6e, 0x6e, 0x5f, 0x61, 0x63, 0x6b, 0x3a]
}

/// "unknown command: "
pub open spec fn unknown_command_text() -> Seq<u8> {
    seq![
        0x75u8, 0x6e, 0x6b, 0x6e, 0x6f, 0x77, 0x6e, 0x20, 0x63, 0x6f, 0x6d, 0x6d, 0x61, 0x6e, 0x64,
        0x3a, 0x20,
    ]
}

/// The connection request: "conn_req:" and the video port, little-endian.
pub open spec fn spec_connect_request(video_port: u16) -> Seq<u8> {
    seq![0x63u8, 0x6f, 0x6e, 0x6e, 0x5f, 0x72, 0x65, 0x71, 0x3a] + le16(video_port)
}

/// The identifier of the binary message in `buf`.
pub open spec fn message_command(buf: Seq<u8>) -> Command {
    Command::spec_from_id((buf[5] + 256 * buf[6]) as u16)
}

/// The binary messages `handle_cmd_bytes` handles: the command is known and
/// not one of the video queries' answers, status and date-time messages
/// are at least eleven bytes long, and the receive buffer holds at least
/// thirteen bytes (wifi and light reports are read at fixed lengths).
pub open spec fn command_bytes_supported(buf: Seq<u8>, bytes_read: int) -> bool {
    let c = message_command(buf);
    &&& buf.len() >= 13
    &&& bytes_read <= buf.len()
    &&& c != Command::Undefined
    &&& c != Command::SPSPPS
    &&& c != Command::VideoBitrate
    &&& c != Command::VideoResolution
    &&& (c == Command::FlightStatus || c == Command::SetDateTime) ==> bytes_read >= 11
}

/// The report of a binary message, given the battery level known before it.
pub open spec fn spec_command_report(buf: Seq<u8>, bytes_read: int, battery_percent: u8) -> CommandReport {
    match message_command(buf) {
        Command::Error1 => CommandReport::Error1,
        Command::Error2 => CommandReport::Error2,
        Command::FlightStatus => {
            let fd = spec_flight_data(buf.subrange(9, bytes_read - 2));
            CommandReport::FlightStatus {
                battery_percent: fd.battery_percent,
                battery_changed: fd.battery_percent != battery_percent,
            }
        },
        Command::TakeOff => CommandReport::TakeOff,
        Command::SetSticks => CommandReport::SetSticks,
        Command::Land => CommandReport::Land,
        Command::Flip => CommandReport::Flip,
        Command::SetDateTime => CommandReport::SetDateTime,
        Command::LogHeader => CommandReport::LogHeader,
        Command::LogData => CommandReport::LogData,
        Command::LogConfig => CommandReport::LogConfig,
        Command::WifiStatus => CommandReport::WifiStatus {
            wifi_percent: buf[9],
            interference_percent: buf[10],
        },
        _ => CommandReport::LightStrength { good: buf[9] > 0 },
    }
}

/// What a binary message reports, by the message identifier in its bytes 5
/// and 6 (little-endian): a light report is good exactly when its payload
/// byte is not zero; a Wi-Fi report carries its two payload bytes; a flight
/// status long enough to hold the battery level (payload byte 12) reports
/// that byte, and whether it differs from the level known before; the
/// other identifiers are reported as what they name.
pub proof fn lemma_command_reports(buf: Seq<u8>, bytes_read: int, battery_percent: u8)
    requires
        command_bytes_supported(buf, bytes_read),
    ensures
        ({
            let id = buf[5] + 256 * buf[6];
            let rep = spec_command_report(buf, bytes_read, battery_percent);
            &&& id == 0x35 ==> rep == CommandReport::LightStrength { good: buf[9] != 0 }
            &&& id == 0x1a ==> rep == CommandReport::WifiStatus {
                wifi_percent: buf[9],
                interference_percent: buf[10],
            }
            &&& (id == 0x56 && bytes_read >= 24) ==> rep == CommandReport::FlightStatus {
                battery_percent: buf[21],
                battery_changed: buf[21] != battery_percent,
            }
            &&& id == 0x43 ==> rep == CommandReport::Error1
            &&& id == 0x44 ==> rep == CommandReport::Error2
            &&& id == 0x46 ==> rep == CommandReport::SetDateTime
            &&& id == 0x50 ==> rep == CommandReport::SetSticks
            &&& id == 0x54 ==> rep == CommandReport::TakeOff
            &&& id == 0x55 ==> rep == CommandReport::Land
            &&& id == 0x5c ==> rep == CommandReport::Flip
            &&& id == 0x1050 ==> rep == CommandReport::LogHeader
            &&& id == 0x1051 ==> rep == CommandReport::LogData
            &&& id == 0x1052 ==> rep == CommandReport::LogConfig
        }),
{
    let id = buf[5] + 256 * buf[6];
    if id == 0x56 && bytes_read >= 24 {
        let payload = buf.subrange(9, bytes_read - 2);
        assert(payload[12] == buf[21]);
    }
}

impl TelloDrone {
    /// The stick positions are percentages in `0..100`.
    pub open spec fn wf(&self) -> bool {
        &&& 0 <= self.forward_percent < 100
        &&& 0 <= self.sideway_percent < 100
        &&& 0 <= self.rotate_percent < 100
        &&& 0 <= self.updown_percent < 100
    }

    /// The two states hold the same stick percentages.
    pub open spec fn same_sticks(self, other: TelloDrone) -> bool {
        &&& self.forward_percent == other.forward_percent
        &&& self.sideway_percent == other.sideway_percent
        &&& self.rotate_percent == other.rotate_percent
        &&& self.updown_percent == other.updown_percent
    }

    /// The two states hold the same flight report and video reassembly.
    pub open spec fn same_flight_and_video(self, other: TelloDrone) -> bool {
        &&& self.curr_state == other.curr_state
        &&& self.video@ == other.video@
    }

    /// A connection that has not been acknowledged yet.
    pub fn new() -> (r: Self)
        ensures
            r.wf(),
            !r.is_connected,
            r.seq_number == 0,
            r.forward_percent == 0 && r.sideway_percent == 0,
            r.rotate_percent == 0 && r.updown_percent == 0,
            r.battery_percent == 0,
            r.curr_state is None,
            r.video@.sps is None && r.video@.pps is None,
            r.video@.idr_frame_number is None,
            r.video@.vid_frame_number == 0,
            r.video@.idr == Seq::<u8>::empty(),
            r.video@.frame_buffer == Seq::<u8>::empty(),
    {
        TelloDrone {
            is_connected: false,
            seq_number: 0,
            forward_percent: 0,
            sideway_percent: 0,
            rotate_percent: 0,
            updown_percent: 0,
            battery_percent: 0,
            curr_state: None,
            video: TelloVideo::new(),
        }
    }

    /// The takeoff packet, under the next sequence number.
    pub fn takeoff(&mut self) -> (r: [u8; 11])
        requires
            old(self).seq_number < u16::MAX,
        ensures
            r@ == spec_packet(5, 0x0054, old(self).seq_number, seq![]),
            final(self).seq_number == old(self).seq_number + 1,
            final(self).wf() == old(self).wf(),
            final(self).same_sticks(*old(self)),
            final(self).same_flight_and_video(*old(self)),
            final(self).battery_percent == old(self).battery_percent,
            final(self).is_connected == old(self).is_connected,
    {
        let packet = takeoff(self.seq_number);
        self.seq_number = self.seq_number + 1;
        packet
    }

    /// The landing packet, under the next sequence number.
    pub fn graceful_land(&mut self) -> (r: [u8; 12])
        requires
            old(self).seq_number < u16::MAX,
        ensures
            r@ == spec_packet(5, 0x0055, old(self).seq_number, seq![0u8]),
            final(self).seq_number == old(self).seq_number + 1,
            final(self).wf() == old(self).wf(),
            final(self).same_sticks(*old(self)),
            final(self).same_flight_and_video(*old(self)),
            final(self).battery_percent == old(self).battery_percent,
            final(self).is_connected == old(self).is_connected,
    {
        let packet = land(self.seq_number);
        self.seq_number = self.seq_number + 1;
        packet
    }

    /// Records new stick positions (percentages in `0..100`) and gives the
    /// stick packet for them, under the next sequence number.
    pub fn rc(&mut self, lr: i16, ud: i16, fb: i16, rot: i16) -> (r: [u8; 22])
        requires
            old(self).seq_number < u16::MAX,
            0 <= lr < 100,
            0 <= ud < 100,
            0 <= fb < 100,
            0 <= rot < 100,
        ensures
            final(self).forward_percent == fb,
            final(self).sideway_percent == lr,
            final(self).rotate_percent == rot,
            final(self).updown_percent == ud,
            final(self).seq_number == old(self).seq_number + 1,
            final(self).wf(),
            final(self).same_flight_and_video(*old(self)),
            final(self).battery_percent == old(self).battery_percent,
            final(self).is_connected == old(self).is_connected,
            exists|hour: u8, min: u8, sec: u8, ms: u16|
                hour < 24 && min < 60 && sec < 60 && ms < 2000 && r@ == spec_packet(
                    4,
                    0x0050,
                    old(self).seq_number,
                    #[trigger] spec_sticks_payload(fb, lr, rot, ud, hour, min, sec, ms),
                ),
    {
        self.forward_percent = fb;
        self.sideway_percent = lr;
        self.rotate_percent = rot;
        self.updown_percent = ud;
        let pack = set_sticks(
            self.seq_number,
            self.forward_percent,
            self.sideway_percent,
            self.rotate_percent,
            self.updown_percent,
        );
        self.seq_number = self.seq_number + 1;
        pack
    }

    /// The keep-alive stick packet, sent only while the last known state
    /// says the drone is flying. The sequence number is not advanced.
    pub fn send_heartbeat(&self) -> (r: Option<[u8; 22]>)
        requires
            self.wf(),
        ensures
            (self.curr_state matches Some(s) && s.is_flying) <==> r is Some,
            r matches Some(p) ==> exists|hour: u8, min: u8, sec: u8, ms: u16|
                hour < 24 && min < 60 && sec < 60 && ms < 2000 && p@ == spec_packet(
                    4,
                    0x0050,
                    self.seq_number,
                    #[trigger] spec_sticks_payload(
                        self.rotate_percent,
                        self.updown_percent,
                        self.sideway_percent,
                        self.forward_percent,
                        hour,
                        min,
                        sec,
                        ms,
                    ),
                ),
    {
        match &self.curr_state {
            Some(state) => {
                if state.is_flying {
                    Some(
                        set_sticks(
                            self.seq_number,
                            self.rotate_percent,
                            self.updown_percent,
                            self.sideway_percent,
                            self.forward_percent,
                        ),
                    )
                } else {
                    None
                }
            },
            None => None,
        }
    }

    /// The SPS/PPS query. It goes out under sequence number 0, though the
    /// sequence number advances.
    pub fn request_sps_pps(&mut self) -> (r: [u8; 11])
        requires
            old(self).seq_number < u16::MAX,
        ensures
            r@ == spec_packet(4, 0x0025, 0, seq![]),
            final(self).seq_number == old(self).seq_number + 1,
            final(self).wf() == old(self).wf(),
            final(self).same_sticks(*old(self)),
            final(self).same_flight_and_video(*old(self)),
            final(self).battery_percent == old(self).battery_percent,
            final(self).is_connected == old(self).is_connected,
    {
        let request = query_video_sps_pps(0);
        self.seq_number = self.seq_number + 1;
        request
    }

    /// The connection request naming the local video port.
    pub fn connect_request(video_port: u16) -> (r: [u8; 11])
        ensures
            r@ == spec_connect_request(video_port),
    {
        let r: [u8; 11] = [
            0x63,
            0x6f,
            0x6e,
            0x6e,
            0x5f,
            0x72,
            0x65,
            0x71,
            0x3a,
            (video_port % 256) as u8,
            (video_port / 256) as u8,
        ];
        assert(r@ =~= spec_connect_request(video_port));
        r
    }

    /// Handles a binary message of `bytes_read` bytes in the receive buffer
    /// `read_buf`, and reports what it said. A flight status report updates
    /// the known battery level.
    pub fn handle_cmd_bytes(&mut self, read_buf: &[u8], bytes_read: usize) -> (r: Result<
        CommandReport,
        Error,
    >)
        requires
            command_bytes_supported(read_buf@, bytes_read as int),
        ensures
            r == Ok::<CommandReport, Error>(
                spec_command_report(read_buf@, bytes_read as int, old(self).battery_percent),
            ),
            final(self).battery_percent == (match r {
                Ok(CommandReport::FlightStatus { battery_percent, .. }) => battery_percent,
                _ => old(self).battery_percent,
            }),
            final(self).seq_number == old(self).seq_number,
            final(self).is_connected == old(self).is_connected,
            final(self).wf() == old(self).wf(),
            final(self).same_sticks(*old(self)),
            final(self).same_flight_and_video(*old(self)),
    {
        let id = read_buf[5] as u16 + 256 * (read_buf[6] as u16);
        let recvd_command = Command::from_id(id);
        match recvd_command {
            Command::Error1 => Ok(CommandReport::Error1),
            Command::Error2 => Ok(CommandReport::Error2),
            Command::FlightStatus => {
                let payload = strip_payload(&read_buf[0..bytes_read]);
                let flight_data = match FlightData::new(payload) {
                    Ok(fd) => fd,
                    Err(e) => return Err(e),
                };
                let battery_changed = flight_data.battery_percent != self.battery_percent;
                if battery_changed {
                    self.battery_percent = flight_data.battery_percent;
                }
                Ok(
                    CommandReport::FlightStatus {
                        battery_percent: flight_data.battery_percent,
                        battery_changed,
                    },
                )
            },
            Command::TakeOff => Ok(CommandReport::TakeOff),
            Command::SetSticks => Ok(CommandReport::SetSticks),
            Command::Land => Ok(CommandReport::Land),
            Command::Flip => Ok(CommandReport::Flip),
            Command::SetDateTime => Ok(CommandReport::SetDateTime),
            Command::LogHeader => Ok(CommandReport::LogHeader),
            Command::LogData => Ok(CommandReport::LogData),
            Command::LogConfig => Ok(CommandReport::LogConfig),
            Command::WifiStatus => {
                let payload = strip_payload(&read_buf[0..13]);
                if payload.len() != 2 {
                    return Err(Error::InvalidData("Malformed WifiStatus packet from Tello drone."));
                }
                Ok(
                    CommandReport::WifiStatus {
                        wifi_percent: payload[0],
                        interference_percent: payload[1],
                    },
                )
            },
            _ => {
                let payload = strip_payload(&read_buf[0..12]);
                if payload.len() != 1 {
                    return Err(Error::InvalidData("Malformed LightStrength packet from Tello drone."));
                }
                Ok(CommandReport::LightStrength { good: payload[0] > 0 })
            },
        }
    }

    /// Handles a text message of `bytes_read` bytes in `read_buf`: a
    /// connection acknowledgement ("conn_ack:"), whose last two bytes must be
    /// the local video port, little-endian, or an unknown-command notice.
    pub fn handle_cmd_string(&mut self, read_buf: &[u8], bytes_read: usize, video_port: u16) -> (r: Result<
        TextReport,
        Error,
    >)
        requires
            2 <= bytes_read <= read_buf.len(),
            seq_contains(read_buf@.take(bytes_read as int), conn_ack_text()) || seq_contains(
                read_buf@.take(bytes_read as int),
                unknown_command_text(),
            ),
        ensures
            ({
                let message = read_buf@.take(bytes_read as int);
                let packet_end = read_buf@.subrange(bytes_read - 2, bytes_read as int);
                if seq_contains(message, conn_ack_text()) {
                    if packet_end == le16(video_port) {
                        &&& r == Ok::<TextReport, Error>(TextReport::Connected)
                        &&& final(self).is_connected
                    } else {
                        &&& r == Err::<TextReport, Error>(
                            Error::Custom("Received the wrong value as acknowledgment from Tello."),
                        )
                        &&& final(self).is_connected == old(self).is_connected
                    }
                } else {
                    &&& r == Ok::<TextReport, Error>(TextReport::UnknownCommand)
                    &&& final(self).is_connected == old(self).is_connected
                }
            }),
            final(self).seq_number == old(self).seq_number,
            final(self).battery_percent == old(self).battery_percent,
            final(self).wf() == old(self).wf(),
            final(self).same_sticks(*old(self)),
            final(self).same_flight_and_video(*old(self)),
    {
        let message = &read_buf[0..bytes_read];
        let conn_ack: [u8; 9] = [0x63, 0x6f, 0x6e, 0x6e, 0x5f, 0x61, 0x63, 0x6b, 0x3a];
        let unknown: [u8; 17] = [
            0x75,
            0x6e,
            0x6b,
            0x6e,
            0x6f,
            0x77,
            0x6e,
            0x20,
            0x63,
            0x6f,
            0x6d,
            0x6d,
            0x61,
            0x6e,
            0x64,
            0x3a,
            0x20,
        ];
        assert(conn_ack@ =~= conn_ack_text());
        assert(unknown@ =~= unknown_command_text());
        assert(message@ =~= read_buf@.take(bytes_read as int));
        if contains_bytes(message, &conn_ack) {
            let end0 = read_buf[bytes_read - 2];
            let end1 = read_buf[bytes_read - 1];
            let port_bytes: [u8; 2] = [(video_port % 256) as u8, (video_port / 256) as u8];
            proof {
                let packet_end = read_buf@.subrange(bytes_read - 2, bytes_read as int);
                assert(packet_end == le16(video_port) <==> (end0 == port_bytes[0] && end1
                    == port_bytes[1])) by {
                    if end0 == port_bytes[0] && end1 == port_bytes[1] {
                        assert(packet_end =~= le16(video_port));
                    }
                    if packet_end == le16(video_port) {
                        assert(packet_end[0] == end0);
                        assert(packet_end[1] == end1);
                    }
                }
            }
            if port_bytes[0] != end0 || port_bytes[1] != end1 {
                return Err(Error::Custom("Received the wrong value as acknowledgment from Tello."));
            }
            self.is_connected = true;
            Ok(TextReport::Connected)
        } else {
            Ok(TextReport::UnknownCommand)
        }
    }
}

} // verus!

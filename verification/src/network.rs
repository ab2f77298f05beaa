//! The client side of the ground station's TCP protocol: socket handshakes,
//! information packets and framed images.
use crate::bytes::{be16_or_zero, byte_or_zero};
use crate::error::Error;
use crate::video::rfc2435::be16;
use vstd::prelude::*;

verus! {

/// The role a client socket asks for in its handshake.
#[derive(Debug, Clone, Copy, PartialEq, Eq)]
pub enum ClientSocketType {
    Control,
    Video,
    Info,
    Invalid,
}

impl ClientSocketType {
    pub open spec fn spec_code(self) -> u8 {
        match self {
            ClientSocketType::Control => 1,
            ClientSocketType::Video => 2,
            ClientSocketType::Info => 3,
            ClientSocketType::Invalid => 0,
        }
    }

    pub open spec fn spec_from_code(b: u8) -> ClientSocketType {
        if b == 1 {
            ClientSocketType::Control
        } else if b == 2 {
            ClientSocketType::Video
        } else if b == 3 {
            ClientSocketType::Info
        } else {
            ClientSocketType::Invalid
        }
    }

    pub fn code(&self) -> (r: u8)
        ensures
            r == self.spec_code(),
    {
        match self {
            ClientSocketType::Control => 1,
            ClientSocketType::Video => 2,
            ClientSocketType::Info => 3,
            ClientSocketType::Invalid => 0,
        }
    }
}

impl From<u8> for ClientSocketType {
    fn from(b: u8) -> (r: ClientSocketType) {
        if b == 1 {
            ClientSocketType::Control
        } else if b == 2 {
            ClientSocketType::Video
        } else if b == 3 {
            ClientSocketType::Info
        } else {
            ClientSocketType::Invalid
        }
    }
}

impl vstd::std_specs::convert::FromSpecImpl<u8> for ClientSocketType {
    open spec fn obeys_from_spec() -> bool {
        true
    }

    open spec fn from_spec(b: u8) -> ClientSocketType {
        ClientSocketType::spec_from_code(b)
    }
}

/// Reading back the code of a value gives the value.
pub proof fn lemma_clientsockettype_code_roundtrip(v: ClientSocketType)
    ensures
        ClientSocketType::spec_from_code(v.spec_code()) == v,
{
}

/// The image format of a framed image.
#[derive(Debug, Clone, Copy, PartialEq, Eq)]
pub enum VideoCode {
    Jpeg,
    Png,
    Invalid,
}

impl VideoCode {
    pub open spec fn spec_code(self) -> u8 {
        match self {
            VideoCode::Jpeg => 26,
            VideoCode::Png => 19,
            VideoCode::Invalid => 0,
        }
    }

    pub open spec fn spec_from_code(b: u8) -> VideoCode {
        if b == 26 {
            VideoCode::Jpeg
        } else if b == 19 {
            VideoCode::Png
        } else {
            VideoCode::Invalid
        }
    }

    pub fn code(&self) -> (r: u8)
        ensures
            r == self.spec_code(),
    {
        match self {
            VideoCode::Jpeg => 26,
            VideoCode::Png => 19,
            VideoCode::Invalid => 0,
        }
    }
}

impl From<u8> for VideoCode {
    fn from(b: u8) -> (r: VideoCode) {
        if b == 26 {
            VideoCode::Jpeg
        } else if b == 19 {
            VideoCode::Png
        } else {
            VideoCode::Invalid
        }
    }
}

impl vstd::std_specs::convert::FromSpecImpl<u8> for VideoCode {
    open spec fn obeys_from_spec() -> bool {
        true
    }

    open spec fn from_spec(b: u8) -> VideoCode {
        VideoCode::spec_from_code(b)
    }
}

/// Reading back the code of a value gives the value.
pub proof fn lemma_videocode_code_roundtrip(v: VideoCode)
    ensures
        VideoCode::spec_from_code(v.spec_code()) == v,
{
}

/// The kind of an information packet.
#[derive(Debug, Clone, Copy, PartialEq, Eq)]
pub enum InfoID {
    SSIDs,
    DroneStateDump,
    RecordRequest,
    Invalid,
}

impl InfoID {
    pub open spec fn spec_code(self) -> u8 {
        match self {
            InfoID::SSIDs => 0,
            InfoID::DroneStateDump => 1,
            InfoID::RecordRequest => 2,
            InfoID::Invalid => 255,
        }
    }

    pub open spec fn spec_from_code(b: u8) -> InfoID {
        if b == 0 {
            InfoID::SSIDs
        } else if b == 1 {
            InfoID::DroneStateDump
        } else if b == 2 {
            InfoID::RecordRequest
        } else {
            InfoID::Invalid
        }
    }

    pub fn code(&self) -> (r: u8)
        ensures
            r == self.spec_code(),
    {
        match self {
            InfoID::SSIDs => 0,
            InfoID::DroneStateDump => 1,
            InfoID::RecordRequest => 2,
            InfoID::Invalid => 255,
        }
    }
}

impl From<u8> for InfoID {
    fn from(b: u8) -> (r: InfoID) {
        if b == 0 {
            InfoID::SSIDs
        } else if b == 1 {
            InfoID::DroneStateDump
        } else if b == 2 {
            InfoID::RecordRequest
        } else {
            InfoID::Invalid
        }
    }
}

impl vstd::std_specs::convert::FromSpecImpl<u8> for InfoID {
    open spec fn obeys_from_spec() -> bool {
        true
    }

    open spec fn from_spec(b: u8) -> InfoID {
        InfoID::spec_from_code(b)
    }
}

/// Reading back the code of a value gives the value.
pub proof fn lemma_infoid_code_roundtrip(v: InfoID)
    ensures
        InfoID::spec_from_code(v.spec_code()) == v,
{
}

/// The round marker of an information packet: each reply carries the play
/// that beats the play of the packet it answers.
#[derive(Debug, Clone, Copy, PartialEq, Eq)]
pub enum RoShamBo {
    Rock,
    Paper,
    Scissors,
    Invalid,
}

impl RoShamBo {
    pub open spec fn spec_code(self) -> u8 {
        match self {
            RoShamBo::Rock => 0,
            RoShamBo::Paper => 1,
            RoShamBo::Scissors => 2,
            RoShamBo::Invalid => 255,
        }
    }

    pub open spec fn spec_from_code(b: u8) -> RoShamBo {
        if b == 0 {
            RoShamBo::Rock
        } else if b == 1 {
            RoShamBo::Paper
        } else if b == 2 {
            RoShamBo::Scissors
        } else {
            RoShamBo::Invalid
        }
    }

    pub fn code(&self) -> (r: u8)
        ensures
            r == self.spec_code(),
    {
        match self {
            RoShamBo::Rock => 0,
            RoShamBo::Paper => 1,
            RoShamBo::Scissors => 2,
            RoShamBo::Invalid => 255,
        }
    }
}

impl From<u8> for RoShamBo {
    fn from(b: u8) -> (r: RoShamBo) {
        if b == 0 {
            RoShamBo::Rock
        } else if b == 1 {
            RoShamBo::Paper
        } else if b == 2 {
            RoShamBo::Scissors
        } else {
            RoShamBo::Invalid
        }
    }
}

impl vstd::std_specs::convert::FromSpecImpl<u8> for RoShamBo {
    open spec fn obeys_from_spec() -> bool {
        true
    }

    open spec fn from_spec(b: u8) -> RoShamBo {
        RoShamBo::spec_from_code(b)
    }
}

/// Reading back the code of a value gives the value.
pub proof fn lemma_roshambo_code_roundtrip(v: RoShamBo)
    ensures
        RoShamBo::spec_from_code(v.spec_code()) == v,
{
}

impl From<ClientSocketType> for u8 {
    fn from(t: ClientSocketType) -> (r: u8) {
        t.code()
    }
}

impl vstd::std_specs::convert::FromSpecImpl<ClientSocketType> for u8 {
    open spec fn obeys_from_spec() -> bool {
        true
    }

    open spec fn from_spec(t: ClientSocketType) -> u8 {
        t.spec_code()
    }
}

impl From<VideoCode> for u8 {
    fn from(t: VideoCode) -> (r: u8) {
        t.code()
    }
}

impl vstd::std_specs::convert::FromSpecImpl<VideoCode> for u8 {
    open spec fn obeys_from_spec() -> bool {
        true
    }

    open spec fn from_spec(t: VideoCode) -> u8 {
        t.spec_code()
    }
}

impl From<InfoID> for u8 {
    fn from(t: InfoID) -> (r: u8) {
        t.code()
    }
}

impl vstd::std_specs::convert::FromSpecImpl<InfoID> for u8 {
    open spec fn obeys_from_spec() -> bool {
        true
    }

    open spec fn from_spec(t: InfoID) -> u8 {
        t.spec_code()
    }
}

impl RoShamBo {
    pub open spec fn spec_counterplay(self) -> RoShamBo {
        match self {
            RoShamBo::Rock => RoShamBo::Paper,
            RoShamBo::Paper => RoShamBo::Scissors,
            RoShamBo::Scissors => RoShamBo::Rock,
            RoShamBo::Invalid => RoShamBo::Invalid,
        }
    }

    /// The play that beats this one; `Invalid` is its own counterplay.
    pub fn counterplay(&self) -> (r: RoShamBo)
        ensures
            r == self.spec_counterplay(),
    {
        match self {
            RoShamBo::Rock => RoShamBo::Paper,
            RoShamBo::Paper => RoShamBo::Scissors,
            RoShamBo::Scissors => RoShamBo::Rock,
            RoShamBo::Invalid => RoShamBo::Invalid,
        }
    }
}

/// Countering three times comes back to the start, and no valid play is its
/// own counterplay.
pub proof fn lemma_counterplay_cycle(p: RoShamBo)
    ensures
        p.spec_counterplay().spec_counterplay().spec_counterplay() == p,
        p != RoShamBo::Invalid ==> p.spec_counterplay() != p,
        p != RoShamBo::Invalid ==> p.spec_counterplay() != RoShamBo::Invalid,
{
}

/// The list of wireless networks a drone may be reached on.
pub struct SSIDs {
    pub ssids: Vec<String>,
}

/// A message of the information channel: a kind, a round marker and a
/// payload.
#[derive(Debug, Clone, PartialEq, Eq)]
pub struct InfoPacket {
    pub id: InfoID,
    pub play: RoShamBo,
    pub payload: Vec<u8>,
}

pub struct InfoPacketView {
    pub id: InfoID,
    pub play: RoShamBo,
    pub payload: Seq<u8>,
}

impl View for InfoPacket {
    type V = InfoPacketView;

    open spec fn view(&self) -> InfoPacketView {
        InfoPacketView { id: self.id, play: self.play, payload: self.payload@ }
    }
}

/// The packet at the start of `s`, and its length: a kind byte, a play byte,
/// a big-endian payload length and the payload; fails with `UnexpectedEof`
/// when any of it is missing.
pub open spec fn spec_read_info_packet(s: Seq<u8>) -> Result<(InfoPacketView, int), Error> {
    if s.len() < 4 {
        Err(Error::UnexpectedEof)
    } else {
        let size = be16_or_zero(s, 2) as int;
        if s.len() - 4 < size {
            Err(Error::UnexpectedEof)
        } else {
            Ok(
                (
                    InfoPacketView {
                        id: InfoID::spec_from_code(s[0]),
                        play: RoShamBo::spec_from_code(s[1]),
                        payload: s.subrange(4, 4 + size),
                    },
                    4 + size,
                ),
            )
        }
    }
}

/// The bytes `write` sends for a packet: kind, play, the payload length
/// (in sixteen bits, big-endian, as `read` takes it) and the payload.
pub open spec fn spec_write_info_packet(p: InfoPacketView) -> Seq<u8> {
    seq![p.id.spec_code(), p.play.spec_code()] + be16((p.payload.len() % 65536) as u16) + p.payload
}

fn copy_slice(s: &[u8], start: usize, end: usize) -> (r: Vec<u8>)
    requires
        start <= end <= s.len(),
    ensures
        r@ == s@.subrange(start as int, end as int),
{
    let mut r: Vec<u8> = Vec::new();
    let mut i = start;
    while i < end
        invariant
            start <= i <= end <= s.len(),
            r@ == s@.subrange(start as int, i as int),
        decreases end - i,
    {
        r.push(s[i]);
        i = i + 1;
        assert(r@ =~= s@.subrange(start as int, i as int));
    }
    r
}

fn append_bytes(out: &mut Vec<u8>, bytes: &[u8])
    ensures
        final(out)@ == old(out)@ + bytes@,
{
    let mut i: usize = 0;
    while i < bytes.len()
        invariant
            i <= bytes.len(),
            out@ == old(out)@ + bytes@.take(i as int),
        decreases bytes.len() - i,
    {
        out.push(bytes[i]);
        i = i + 1;
        assert(out@ =~= old(out)@ + bytes@.take(i as int));
    }
    assert(bytes@.take(bytes.len() as int) =~= bytes@);
}

impl InfoPacket {
    /// Reads the packet at the start of `stream` and returns it with its
    /// length. The payload length is big-endian.
    pub fn read(stream: &[u8]) -> (r: Result<(Self, usize), Error>)
        ensures
            match r {
                Ok((p, n)) => spec_read_info_packet(stream@) == Ok::<(InfoPacketView, int), Error>(
                    (p@, n as int),
                ),
                Err(e) => spec_read_info_packet(stream@) == Err::<(InfoPacketView, int), Error>(e),
            },
    {
        if stream.len() < 4 {
            return Err(Error::UnexpectedEof);
        }
        let id: InfoID = stream[0].into();
        let play: RoShamBo = stream[1].into();
        let payload_size = (256 * (stream[2] as u16) + stream[3] as u16) as usize;
        if stream.len() - 4 < payload_size {
            return Err(Error::UnexpectedEof);
        }
        let payload = copy_slice(stream, 4, 4 + payload_size);
        let p = InfoPacket { id, play, payload };
        assert(p@ == InfoPacketView {
            id: InfoID::spec_from_code(stream@[0]),
            play: RoShamBo::spec_from_code(stream@[1]),
            payload: stream@.subrange(4, 4 + payload_size),
        });
        Ok((p, 4 + payload_size))
    }

    /// Appends the packet to `stream`. The payload length is written
    /// big-endian, as `read` takes it, and truncated to sixteen bits.
    pub fn write(&self, stream: &mut Vec<u8>) -> (r: Result<(), Error>)
        ensures
            r is Ok,
            final(stream)@ == old(stream)@ + spec_write_info_packet(self@),
    {
        let len = (self.payload.len() % 65536) as u16;
        let head: [u8; 4] = [self.id.code(), self.play.code(), (len / 256) as u8, (len % 256) as u8];
        append_bytes(stream, &head);
        append_bytes(stream, self.payload.as_slice());
        assert(head@ =~= seq![self.id.spec_code(), self.play.spec_code()] + be16(len));
        assert(stream@ =~= old(stream)@ + spec_write_info_packet(self@));
        Ok(())
    }

    /// The reply to an SSID request: the counterplay of the request's play,
    /// carrying the SSID list as JSON.
    pub fn new_ssid(origin_play: RoShamBo, ssid_json: Vec<u8>) -> (r: Self)
        ensures
            r.id == InfoID::SSIDs,
            r.play == origin_play.spec_counterplay(),
            r.payload@ == ssid_json@,
    {
        InfoPacket { id: InfoID::SSIDs, play: origin_play.counterplay(), payload: ssid_json }
    }
}

/// Reading back what `write` sent gives the packet again, and consumes
/// exactly its bytes, whenever the payload length fits in sixteen bits.
pub proof fn lemma_info_packet_roundtrip(p: InfoPacketView, rest: Seq<u8>)
    requires
        p.payload.len() < 65536,
    ensures
        spec_read_info_packet(spec_write_info_packet(p) + rest) == Ok::<(InfoPacketView, int), Error>(
            (p, 4 + p.payload.len() as int),
        ),
{
    let w = spec_write_info_packet(p) + rest;
    let n = p.payload.len();
    lemma_infoid_code_roundtrip(p.id);
    lemma_roshambo_code_roundtrip(p.play);
    assert(be16_or_zero(w, 2) == n);
    assert(w.subrange(4, 4 + n as int) =~= p.payload);
}

/// The reply to an information packet, given the SSID list as JSON: SSID
/// requests are answered with `new_ssid`; invalid packets are refused. State
/// dumps and record requests are not handled.
pub fn handle_info_packet(packet: &InfoPacket, ssid_json: Vec<u8>) -> (r: Result<InfoPacket, Error>)
    requires
        packet.id != InfoID::DroneStateDump,
        packet.id != InfoID::RecordRequest,
    ensures
        packet.id == InfoID::SSIDs ==> (r matches Ok(reply) && reply.id == InfoID::SSIDs
            && reply.play == packet.play.spec_counterplay() && reply.payload@ == ssid_json@),
        packet.id == InfoID::Invalid ==> r == Err::<InfoPacket, Error>(
            Error::Custom("Attempted to handle invalid info packet."),
        ),
{
    match packet.id {
        InfoID::SSIDs => Ok(InfoPacket::new_ssid(packet.play, ssid_json)),
        _ => Err(Error::Custom("Attempted to handle invalid info packet.")),
    }
}

/// The socket role a client's three-byte handshake asks for. The handshake
/// must start with `0x42 0x42`.
pub fn handshake_socket_type(handshake: [u8; 3]) -> (r: ClientSocketType)
    requires
        handshake@[0] == 0x42,
        handshake@[1] == 0x42,
    ensures
        r == ClientSocketType::spec_from_code(handshake@[2]),
{
    handshake[2].into()
}

/// A framed image as sent to a video client: the format code, the length
/// (big-endian, truncated to sixteen bits) and the encoded image.
pub open spec fn spec_image_packet(image_type: VideoCode, image: Seq<u8>) -> Seq<u8> {
    seq![image_type.spec_code()] + be16((image.len() % 65536) as u16) + image
}

/// Frames an encoded image for a video client.
pub fn image_packet(image_type: VideoCode, image_buffer: &Vec<u8>) -> (r: Vec<u8>)
    ensures
        r@ == spec_image_packet(image_type, image_buffer@),
{
    let len = (image_buffer.len() % 65536) as u16;
    let mut out: Vec<u8> = Vec::new();
    let head: [u8; 3] = [image_type.code(), (len / 256) as u8, (len % 256) as u8];
    append_bytes(&mut out, &head);
    append_bytes(&mut out, image_buffer.as_slice());
    assert(head@ =~= seq![image_type.spec_code()] + be16(len));
    assert(out@ =~= spec_image_packet(image_type, image_buffer@));
    out
}

/// The video source and target of the server, when both are set; the target
/// is checked first.
pub fn validate_tokens_exist(src: Option<usize>, out: Option<usize>) -> (r: Result<(usize, usize), Error>)
    ensures
        out is None ==> r == Err::<(usize, usize), Error>(Error::NoVideoTarget),
        out is Some && src is None ==> r == Err::<(usize, usize), Error>(Error::NoVideoSource),
        out is Some && src is Some ==> r == Ok::<(usize, usize), Error>((src.unwrap(), out.unwrap())),
{
    let video_out_token = match out {
        Some(t) => t,
        None => return Err(Error::NoVideoTarget),
    };
    let video_src_token = match src {
        Some(t) => t,
        None => return Err(Error::NoVideoSource),
    };
    Ok((video_src_token, video_out_token))
}

} // verus!

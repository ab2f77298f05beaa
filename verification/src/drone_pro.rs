//! Command packets of the "Drone Pro" UDP protocol: nine bytes framed by
//! `0x03 0x66` and `0x99`.
use crate::bytes::tail_from;
use crate::error::Error;
use crate::video::rfc2435::{
    create_image,
    spec_image,
    spec_quality_scale,
    spec_restart_interval,
    spec_scaled_quantizer,
    JPEG_CHROMA_QUANTIZER,
    JPEG_LUMA_QUANTIZER,
};
use crate::video::rtp::{
    rtp_header_supported,
    spec_jpeg_main_header,
    spec_rtp_header,
    JpegMainHeader,
    JpegMainHeaderView,
    RTPHeader,
};
use vstd::prelude::*;

verus! {

/// The state byte of a command packet.
#[derive(Clone, Copy, Debug, PartialEq, Eq)]
pub enum DroneCommandState {
    BasicMovement,
    Takeoff,
    GracefulLand,
    EmergencyLand,
}

impl DroneCommandState {
    pub open spec fn spec_code(self) -> u8 {
        match self {
            DroneCommandState::BasicMovement => 0,
            DroneCommandState::Takeoff => 1,
            DroneCommandState::GracefulLand => 2,
            DroneCommandState::EmergencyLand => 4,
        }
    }

    pub fn code(&self) -> (r: u8)
        ensures
            r == self.spec_code(),
    {
        match self {
            DroneCommandState::BasicMovement => 0,
            DroneCommandState::Takeoff => 1,
            DroneCommandState::GracefulLand => 2,
            DroneCommandState::EmergencyLand => 4,
        }
    }
}

/// An axis byte: the signed value offset from the centre 0x80.
pub open spec fn spec_axis(v: i8) -> u8 {
    (v + 128) as u8
}

/// The command packet for the given axes (left/right, front/back, up/down,
/// rotation) and state: the axes offset from 0x80, the state, and the XOR of
/// the axes and the state as checksum.
pub open spec fn spec_command_packet(lr: i8, fb: i8, ud: i8, r: i8, cmd: DroneCommandState) -> Seq<u8> {
    seq![
        0x03u8,
        0x66,
        spec_axis(lr),
        spec_axis(fb),
        spec_axis(ud),
        spec_axis(r),
        cmd.spec_code(),
        (lr as u8) ^ (fb as u8) ^ (ud as u8) ^ (r as u8) ^ cmd.spec_code(),
        0x99,
    ]
}

fn axis(v: i8) -> (r: u8)
    ensures
        r == spec_axis(v),
{
    (v as i16 + 128) as u8
}

/// Builds a command packet.
pub fn create_command(lr: i8, fb: i8, ud: i8, r: i8, cmd: DroneCommandState) -> (p: [u8; 9])
    ensures
        p@ == spec_command_packet(lr, fb, ud, r, cmd),
{
    let code = cmd.code();
    let checksum = (lr as u8) ^ (fb as u8) ^ (ud as u8) ^ (r as u8) ^ code;
    let p = [0x03, 0x66, axis(lr), axis(fb), axis(ud), axis(r), code, checksum, 0x99];
    assert(p@ =~= spec_command_packet(lr, fb, ud, r, cmd));
    p
}

/// The packet that spins the rotors at `unkn1`; its checksum byte is
/// `unkn1` with the top bit flipped.
pub fn spin_rotors(unkn1: u8) -> (p: [u8; 9])
    ensures
        p@ == seq![0x03u8, 0x66, 0x80, 0x80, unkn1, 0x80, 0x00, unkn1 ^ 0x80, 0x99],
{
    let unkn2 = unkn1 ^ 0b1000_0000;
    let p = [0x03, 0x66, 0x80, 0x80, unkn1, 0x80, 0x00, unkn2, 0x99];
    assert(p@ =~= seq![0x03u8, 0x66, 0x80, 0x80, unkn1, 0x80, 0x00, unkn1 ^ 0x80, 0x99]);
    p
}

proof fn lemma_axis_byte(v: i8)
    by (bit_vector)
    ensures
        ((v + 128) as u8) ^ 0x80u8 == v as u8,
{
}

proof fn lemma_offsets_cancel(a: u8, b: u8, c: u8, d: u8, e: u8)
    by (bit_vector)
    ensures
        (a ^ 0x80u8) ^ (b ^ 0x80u8) ^ (c ^ 0x80u8) ^ (d ^ 0x80u8) ^ e == a ^ b ^ c ^ d ^ e,
{
}

/// A command packet is nine bytes: `0x03 0x66`; the four axes, each
/// offset by 128 so that the centre 0 is `0x80`; the state byte, which is
/// 0 for basic movement, 1 for takeoff, 2 for a graceful landing and 4 for
/// an emergency landing, so that distinct states give distinct bytes; a
/// checksum that is the XOR of the four axis bytes and the state byte; and
/// `0x99`.
pub proof fn lemma_command_packet_layout(
    lr: i8,
    fb: i8,
    ud: i8,
    r: i8,
    cmd: DroneCommandState,
    other: DroneCommandState,
)
    ensures
        ({
            let p = spec_command_packet(lr, fb, ud, r, cmd);
            &&& p.len() == 9
            &&& p[0] == 0x03 && p[1] == 0x66 && p[8] == 0x99
            &&& p[2] == lr + 128 && p[3] == fb + 128 && p[4] == ud + 128 && p[5] == r + 128
            &&& cmd == DroneCommandState::BasicMovement ==> p[6] == 0
            &&& cmd == DroneCommandState::Takeoff ==> p[6] == 1
            &&& cmd == DroneCommandState::GracefulLand ==> p[6] == 2
            &&& cmd == DroneCommandState::EmergencyLand ==> p[6] == 4
            &&& cmd != other ==> p[6] != spec_command_packet(lr, fb, ud, r, other)[6]
            &&& p[7] == p[2] ^ p[3] ^ p[4] ^ p[5] ^ p[6]
        }),
{
    let p = spec_command_packet(lr, fb, ud, r, cmd);
    lemma_axis_byte(lr);
    lemma_axis_byte(fb);
    lemma_axis_byte(ud);
    lemma_axis_byte(r);
    lemma_offsets_cancel(p[2], p[3], p[4], p[5], p[6]);
}

/// A packet with centred axes has the state byte twice, as state and as
/// checksum.
pub proof fn lemma_centred_command(cmd: DroneCommandState)
    ensures
        spec_command_packet(0, 0, 0, 0, cmd) == seq![
            0x03u8,
            0x66,
            0x80,
            0x80,
            0x80,
            0x80,
            cmd.spec_code(),
            cmd.spec_code(),
            0x99,
        ],
{
    let c = cmd.spec_code();
    assert(0u8 ^ 0u8 ^ 0u8 ^ 0u8 ^ c == c) by (bit_vector);
    assert(spec_command_packet(0, 0, 0, 0, cmd) =~= seq![0x03u8, 0x66, 0x80, 0x80, 0x80, 0x80, c, c, 0x99]);
}

/// Whether the text "Session: " starts at `j`.
pub open spec fn session_marker_at(s: Seq<u8>, j: int) -> bool {
    &&& s[j] == 0x53
    &&& s[j + 1] == 0x65
    &&& s[j + 2] == 0x73
    &&& s[j + 3] == 0x73
    &&& s[j + 4] == 0x69
    &&& s[j + 5] == 0x6f
    &&& s[j + 6] == 0x6e
    &&& s[j + 7] == 0x3a
    &&& s[j + 8] == 0x20
}

/// The index of the first line feed at or after `i`, or the length of `s`.
pub open spec fn line_end(s: Seq<u8>, i: int) -> int
    decreases s.len() - i,
{
    if i >= s.len() {
        s.len() as int
    } else if s[i] == 10 {
        i
    } else {
        line_end(s, i + 1)
    }
}

/// Where the text of the line `[start, e)` ends: a carriage return just
/// before its line feed is not part of it.
pub open spec fn text_end(s: Seq<u8>, start: int, e: int) -> int {
    if e < s.len() && e > start && s[e - 1] == 13 {
        e - 1
    } else {
        e
    }
}

/// The first index in `[i, end)` where "Session: " starts and ends by
/// `end`, or -1.
pub open spec fn marker_from(s: Seq<u8>, i: int, end: int) -> int
    decreases end - i,
{
    if i + 9 > end {
        -1
    } else if session_marker_at(s, i) {
        i
    } else {
        marker_from(s, i + 1, end)
    }
}

/// A line ends at or after where it starts, and within the bytes.
pub proof fn lemma_line_end(s: Seq<u8>, i: int)
    requires
        0 <= i <= s.len(),
    ensures
        i <= line_end(s, i) <= s.len(),
    decreases s.len() - i,
{
    if i < s.len() && s[i] != 10 {
        lemma_line_end(s, i + 1);
    }
}

/// The session named by the lines of `s` from `start` on, `acc` being the
/// one named before: the text after the first "Session: " of the last line
/// that has one.
pub open spec fn session_from(s: Seq<u8>, start: int, acc: Seq<u8>) -> Seq<u8>
    decreases s.len() + 1 - start,
    via session_from_decreases
{
    if start < 0 || start >= s.len() {
        acc
    } else {
        let e = line_end(s, start);
        let t = text_end(s, start, e);
        let m = marker_from(s, start, t);
        let acc2 = if m >= 0 {
            s.subrange(m + 9, t)
        } else {
            acc
        };
        session_from(s, e + 1, acc2)
    }
}

#[via_fn]
proof fn session_from_decreases(s: Seq<u8>, start: int, acc: Seq<u8>) {
    if !(start < 0 || start >= s.len()) {
        lemma_line_end(s, start);
    }
}

/// The session identifier in an RTSP reply: what follows "Session: " on
/// the last line that has it (lines end at a line feed, less a carriage
/// return before it); empty when no line has it.
pub open spec fn spec_rtsp_session_id(reply: Seq<u8>) -> Seq<u8> {
    session_from(reply, 0, Seq::empty())
}

fn line_end_exec(s: &[u8], i: usize) -> (r: usize)
    requires
        i <= s.len(),
    ensures
        r == line_end(s@, i as int),
        i <= r <= s.len(),
{
    let mut j = i;
    while j < s.len() && s[j] != 10
        invariant
            i <= j <= s.len(),
            line_end(s@, i as int) == line_end(s@, j as int),
        decreases s.len() - j,
    {
        j = j + 1;
    }
    j
}

fn marker_from_exec(s: &[u8], i: usize, end: usize) -> (r: Option<usize>)
    requires
        i <= end <= s.len(),
    ensures
        match r {
            Some(j) => marker_from(s@, i as int, end as int) == j && i <= j && j + 9 <= end,
            None => marker_from(s@, i as int, end as int) == -1,
        },
{
    let mut j = i;
    while j < end && end - j >= 9
        invariant
            i <= j <= end,
            end <= s.len(),
            marker_from(s@, i as int, end as int) == marker_from(s@, j as int, end as int),
        decreases end - j,
    {
        if s[j] == 0x53 && s[j + 1] == 0x65 && s[j + 2] == 0x73 && s[j + 3] == 0x73 && s[j + 4]
            == 0x69 && s[j + 5] == 0x6f && s[j + 6] == 0x6e && s[j + 7] == 0x3a && s[j + 8] == 0x20 {
            return Some(j);
        }
        j = j + 1;
    }
    None
}

/// The session identifier in the reply to an RTSP `SETUP`.
pub fn rtsp_session_id(reply: &[u8]) -> (r: Vec<u8>)
    ensures
        r@ == spec_rtsp_session_id(reply@),
{
    let mut start: usize = 0;
    let mut has = false;
    let mut a: usize = 0;
    let mut b: usize = 0;
    while start < reply.len()
        invariant
            start <= reply.len(),
            a <= b <= reply.len(),
            spec_rtsp_session_id(reply@) == session_from(
                reply@,
                start as int,
                if has {
                    reply@.subrange(a as int, b as int)
                } else {
                    Seq::empty()
                },
            ),
        decreases reply.len() - start,
    {
        let e = line_end_exec(reply, start);
        let t = if e < reply.len() && e > start && reply[e - 1] == 13 {
            e - 1
        } else {
            e
        };
        let ghost acc = if has {
            reply@.subrange(a as int, b as int)
        } else {
            Seq::empty()
        };
        let found = marker_from_exec(reply, start, t);
        match found {
            Some(m) => {
                has = true;
                a = m + 9;
                b = t;
            },
            None => {},
        }
        proof {
            let acc2 = if has {
                reply@.subrange(a as int, b as int)
            } else {
                Seq::empty()
            };
            assert(t == text_end(reply@, start as int, e as int));
            assert(session_from(reply@, start as int, acc) == session_from(reply@, e + 1, acc2));
            if e >= reply.len() {
                assert(session_from(reply@, e + 1, acc2) == acc2);
                assert(session_from(reply@, reply.len() as int, acc2) == acc2);
            }
        }
        if e >= reply.len() {
            start = reply.len();
        } else {
            start = e + 1;
        }
    }
    let mut out: Vec<u8> = Vec::new();
    if has {
        let mut k = a;
        while k < b
            invariant
                a <= k <= b,
                b <= reply.len(),
                out@ == reply@.subrange(a as int, k as int),
            decreases b - k,
        {
            out.push(reply[k]);
            k = k + 1;
        }
    }
    out
}

/// A main JPEG header an image can be built from: it carries a
/// 128-byte quantization table (luminance then chrominance), and, unless its
/// type is refused, a defined type.
pub open spec fn frame_header_usable(h: JpegMainHeaderView) -> bool {
    &&& h.quantization_header matches Some(q) && q.table.len() == 128
    &&& h.packet_type <= 127 ==> h.packet_type % 64 <= 1
}

/// The video datagrams the reassembly handles: an RTP header it supports,
/// and, when the JPEG header that follows starts an image, a usable header.
pub open spec fn drone_pro_datagram_supported(d: Seq<u8>) -> bool {
    &&& rtp_header_supported(d)
    &&& match spec_jpeg_main_header(d.subrange(spec_rtp_header(d).1, d.len() as int), false) {
        Ok((h, _)) => h.quantization_header is Some ==> frame_header_usable(h),
        Err(_) => true,
    }
}

/// The quantization tables an image is built with: the scaled standard
/// tables for a Q below 128, the tables the stream carried otherwise.
pub open spec fn spec_frame_tables(h: JpegMainHeaderView) -> (Seq<u8>, Seq<u8>) {
    if h.quantization < 128 {
        let scale = spec_quality_scale(h.quantization as i32);
        (
            Seq::new(64, |i: int| spec_scaled_quantizer(JPEG_LUMA_QUANTIZER@[i], scale)),
            Seq::new(64, |i: int| spec_scaled_quantizer(JPEG_CHROMA_QUANTIZER@[i], scale)),
        )
    } else {
        let t = h.quantization_header.unwrap().table;
        (t.subrange(0, 64), t.subrange(64, 128))
    }
}

/// The image a usable header makes of the collected payloads.
pub open spec fn spec_frame_image(h: JpegMainHeaderView, payloads: Seq<u8>) -> Seq<u8> {
    let tables = spec_frame_tables(h);
    spec_image(
        h.packet_type,
        h.width,
        h.height,
        spec_restart_interval(h.restart_header),
        tables.0,
        tables.1,
        payloads,
    )
}

/// The reassembly state of the Drone Pro's RTP/JPEG video.
#[derive(Debug)]
pub struct DroneProVideo {
    /// The main header of the image being collected, from its first packet.
    pub inner_main_jpg_header: Option<JpegMainHeader>,
    /// The JPEG payloads collected so far.
    pub inner_raw_img_buf: Vec<u8>,
}

pub struct DroneProVideoView {
    pub header: Option<JpegMainHeaderView>,
    pub raw: Seq<u8>,
}

impl View for DroneProVideo {
    type V = DroneProVideoView;

    open spec fn view(&self) -> DroneProVideoView {
        DroneProVideoView {
            header: match self.inner_main_jpg_header {
                Some(h) => Some(h@),
                None => None,
            },
            raw: self.inner_raw_img_buf@,
        }
    }
}

/// The state after one datagram, and what it produced: an error when its
/// JPEG header cannot be read or the image's type is refused, a finished
/// JPEG image when it ends a frame whose first packet was seen, nothing
/// otherwise.
///
/// The payload after the RTP and JPEG headers is collected; a packet that
/// starts an image (one with quantization tables) replaces the kept header.
/// At the end of a frame, the image is built and the state emptied; without
/// a kept header, the state is just emptied.
pub open spec fn spec_drone_pro_step(s: DroneProVideoView, d: Seq<u8>) -> (
    DroneProVideoView,
    Result<Option<Seq<u8>>, Error>,
) {
    let (rtp, n1) = spec_rtp_header(d);
    let rest = d.subrange(n1, d.len() as int);
    match spec_jpeg_main_header(rest, false) {
        Err(e) => (s, Err(e)),
        Ok((h, n2)) => {
            let raw = s.raw + rest.subrange(n2, rest.len() as int);
            let header = if h.quantization_header is Some { Some(h) } else { s.header };
            let s1 = DroneProVideoView { header, raw };
            if !rtp.is_last_in_frame {
                (s1, Ok(None))
            } else {
                let empty = DroneProVideoView { header: None, raw: Seq::empty() };
                match header {
                    None => (empty, Ok(None)),
                    Some(kept) => if kept.packet_type > 127 {
                        (s1, Err(Error::Custom("JPEG packet types above 127 are not implemented.")))
                    } else {
                        (empty, Ok(Some(spec_frame_image(kept, raw))))
                    },
                }
            }
        },
    }
}

fn append(out: &mut Vec<u8>, bytes: &[u8])
    ensures
        final(out)@ == old(out)@ + bytes@,
{
    let mut i: usize = 0;
    while i < bytes.len()
        invariant
            i <= bytes.len(),
            out@ == old(out)@ + bytes@.take(i as int),
        decreases bytes.len() - i,
    {
        out.push(bytes[i]);
        i = i + 1;
        assert(out@ =~= old(out)@ + bytes@.take(i as int));
    }
    assert(bytes@.take(bytes.len() as int) =~= bytes@);
}

fn copy_table(table: &Vec<u8>, start: usize) -> (r: [u8; 64])
    requires
        start + 64 <= table.len(),
    ensures
        r@ == table@.subrange(start as int, start + 64),
{
    let mut r = [0u8; 64];
    let mut i: usize = 0;
    while i < 64
        invariant
            i <= 64,
            start + 64 <= table.len(),
            forall|j: int| 0 <= j < i ==> #[trigger] r@[j] == table@[start + j],
        decreases 64 - i,
    {
        r[i] = table[start + i];
        i = i + 1;
    }
    assert(r@ =~= table@.subrange(start as int, start + 64));
    r
}

impl DroneProVideo {
    /// Every kept header can make an image.
    pub open spec fn wf(&self) -> bool {
        self@.header matches Some(h) ==> frame_header_usable(h)
    }

    pub fn new() -> (r: Self)
        ensures
            r.wf(),
            r@.header is None,
            r@.raw == Seq::<u8>::empty(),
    {
        DroneProVideo { inner_main_jpg_header: None, inner_raw_img_buf: Vec::new() }
    }

    /// Forgets the image being collected.
    pub fn cleanup_image(&mut self)
        ensures
            final(self)@.header is None,
            final(self)@.raw == Seq::<u8>::empty(),
    {
        self.inner_raw_img_buf.clear();
        self.inner_main_jpg_header = None;
    }

    /// Takes in one video datagram; gives the finished JPEG image when it
    /// ends a frame.
    pub fn receive_datagram(&mut self, datagram: &[u8]) -> (r: Result<Option<Vec<u8>>, Error>)
        requires
            old(self).wf(),
            drone_pro_datagram_supported(datagram@),
        ensures
            final(self).wf(),
            ({
                let (s, res) = spec_drone_pro_step(old(self)@, datagram@);
                &&& final(self)@ == s
                &&& match r {
                    Ok(Some(img)) => res == Ok::<Option<Seq<u8>>, Error>(Some(img@)),
                    Ok(None) => res == Ok::<Option<Seq<u8>>, Error>(None),
                    Err(e) => res == Err::<Option<Seq<u8>>, Error>(e),
                }
            }),
    {
        let (rtp, n1) = match RTPHeader::from_stream(datagram) {
            Ok(found) => found,
            Err(e) => return Err(e),
        };
        let rest = tail_from(datagram, n1);
        let (jpeg, n2) = match JpegMainHeader::from_stream(rest, false) {
            Ok(found) => found,
            Err(e) => return Err(e),
        };
        let payload = tail_from(rest, n2);
        append(&mut self.inner_raw_img_buf, payload);
        if jpeg.is_image_start() {
            self.inner_main_jpg_header = Some(jpeg);
        }
        if !rtp.is_last_in_frame {
            return Ok(None);
        }
        let image = match &self.inner_main_jpg_header {
            None => {
                self.cleanup_image();
                return Ok(None);
            },
            Some(header) => {
                let ghost hv = header@;
                let table = match &header.quantization_header {
                    Some(q) => &q.table,
                    None => {
                        return Ok(None);
                    },
                };
                let mut lqt = copy_table(table, 0);
                let mut cqt = copy_table(table, 64);
                let mut fin_image_buf: Vec<u8> = Vec::new();
                match create_image(
                    &mut fin_image_buf,
                    header,
                    self.inner_raw_img_buf.as_mut_slice(),
                    &mut lqt,
                    &mut cqt,
                    None,
                ) {
                    Ok(()) => {},
                    Err(e) => return Err(e),
                }
                proof {
                    let tables = spec_frame_tables(hv);
                    if hv.quantization < 128 {
                        assert(lqt@ =~= tables.0);
                        assert forall|i: int| 0 <= i < 64 implies cqt@[i] == tables.1[i] by {
                            assert(lqt@[i] == tables.0[i]);
                        }
                        assert(cqt@ =~= tables.1);
                    } else {
                        let t = hv.quantization_header.unwrap().table;
                        assert(t.len() == 128);
                        assert(lqt@ =~= tables.0);
                        assert(cqt@ =~= tables.1);
                    }
                }
                fin_image_buf
            },
        };
        self.cleanup_image();
        Ok(Some(image))
    }
}

} // verus!

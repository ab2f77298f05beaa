//! A single Tello video datagram, classified by what it carries.
use vstd::prelude::*;

verus! {

/// What a video datagram carries.
#[derive(Debug, Clone, Copy, PartialEq, Eq)]
pub enum VideoPacketKind {
    PartialIDR,
    PPS,
    SPS,
    IntermediateFrame,
}

enum VideoPacketInfo {
    PartialIDR(Vec<u8>),
    PPS(Vec<u8>),
    SPS(Vec<u8>),
    IntermediateFrame(Vec<u8>),
}

/// A video datagram: its frame number, its number within the frame, and its
/// payload.
pub struct VideoPacket {
    frame_number: u8,
    local_number: u8,
    payload: VideoPacketInfo,
}

pub struct VideoPacketView {
    pub frame_number: u8,
    pub local_number: u8,
    pub kind: VideoPacketKind,
    pub payload: Seq<u8>,
}

impl View for VideoPacket {
    type V = VideoPacketView;

    closed spec fn view(&self) -> VideoPacketView {
        let (kind, payload) = match self.payload {
            VideoPacketInfo::PartialIDR(p) => (VideoPacketKind::PartialIDR, p@),
            VideoPacketInfo::PPS(p) => (VideoPacketKind::PPS, p@),
            VideoPacketInfo::SPS(p) => (VideoPacketKind::SPS, p@),
            VideoPacketInfo::IntermediateFrame(p) => (VideoPacketKind::IntermediateFrame, p@),
        };
        VideoPacketView {
            frame_number: self.frame_number,
            local_number: self.local_number,
            kind,
            payload,
        }
    }
}

/// What a datagram of `bytes_read` bytes carries: with local number 0x80, a
/// PPS when it is 10 bytes long, an SPS when 15, frame data otherwise;
/// with another local number, part of an IDR picture when the payload has
/// the NAL type 0x65 at offset 4, frame data otherwise.
pub open spec fn spec_packet_kind(payload: Seq<u8>, local_number: u8, bytes_read: int) -> VideoPacketKind {
    if local_number == 0x80 {
        if bytes_read == 10 {
            VideoPacketKind::PPS
        } else if bytes_read == 15 {
            VideoPacketKind::SPS
        } else {
            VideoPacketKind::IntermediateFrame
        }
    } else if payload.len() > 4 && payload[4] == 0x65 {
        VideoPacketKind::PartialIDR
    } else {
        VideoPacketKind::IntermediateFrame
    }
}

/// The packet a datagram makes, read from the first `bytes_read` bytes of a
/// receive buffer.
pub open spec fn spec_video_packet(read_buf: Seq<u8>, bytes_read: int) -> VideoPacketView {
    let payload = read_buf.subrange(2, bytes_read);
    VideoPacketView {
        frame_number: read_buf[0],
        local_number: read_buf[1],
        kind: spec_packet_kind(payload, read_buf[1], bytes_read),
        payload,
    }
}

fn copy_range(s: &[u8], start: usize, end: usize) -> (r: Vec<u8>)
    requires
        start <= end <= s.len(),
    ensures
        r@ == s@.subrange(start as int, end as int),
{
    let mut r: Vec<u8> = Vec::new();
    let mut i = start;
    while i < end
        invariant
            start <= i <= end <= s.len(),
            r@ == s@.subrange(start as int, i as int),
        decreases end - i,
    {
        r.push(s[i]);
        i = i + 1;
        assert(r@ =~= s@.subrange(start as int, i as int));
    }
    r
}

impl VideoPacket {
    const END_OF_FRAME_BITMASK: u8 = 0b1000_0000;

    pub fn frame_number(&self) -> (r: u8)
        ensures
            r == self@.frame_number,
    {
        self.frame_number
    }

    pub fn local_number(&self) -> (r: u8)
        ensures
            r == self@.local_number,
    {
        self.local_number
    }

    pub fn payload(&self) -> (r: &[u8])
        ensures
            r@ == self@.payload,
    {
        match &self.payload {
            VideoPacketInfo::PartialIDR(inner) => inner.as_slice(),
            VideoPacketInfo::PPS(inner) => inner.as_slice(),
            VideoPacketInfo::SPS(inner) => inner.as_slice(),
            VideoPacketInfo::IntermediateFrame(inner) => inner.as_slice(),
        }
    }

    pub fn is_idr(&self) -> (r: bool)
        ensures
            r == (self@.kind == VideoPacketKind::PartialIDR),
    {
        if let VideoPacketInfo::PartialIDR(_) = self.payload {
            true
        } else {
            false
        }
    }

    pub fn is_pps(&self) -> (r: bool)
        ensures
            r == (self@.kind == VideoPacketKind::PPS),
    {
        if let VideoPacketInfo::PPS(_) = self.payload {
            true
        } else {
            false
        }
    }

    pub fn is_sps(&self) -> (r: bool)
        ensures
            r == (self@.kind == VideoPacketKind::SPS),
    {
        if let VideoPacketInfo::SPS(_) = self.payload {
            true
        } else {
            false
        }
    }

    /// Whether bit 7 of the frame number is set.
    pub fn is_end_of_frame(&self) -> (r: bool)
        ensures
            r == (self@.frame_number & 0x80 != 0),
    {
        self.frame_number & Self::END_OF_FRAME_BITMASK != 0
    }

    /// The packet held in the first `bytes_read` bytes of `read_buf`, a
    /// datagram just received.
    pub fn from_datagram(read_buf: &[u8], bytes_read: usize) -> (r: Self)
        requires
            2 <= bytes_read <= read_buf.len(),
        ensures
            r@ == spec_video_packet(read_buf@, bytes_read as int),
    {
        let frame_number = read_buf[0];
        let local_number = read_buf[1];
        let payload = Self::interpret_payload(copy_range(read_buf, 2, bytes_read), local_number, bytes_read);
        VideoPacket { frame_number, local_number, payload }
    }

    fn interpret_payload(payload: Vec<u8>, local_number: u8, bytes_read: usize) -> (r: VideoPacketInfo)
        ensures
            ({
                let kind = spec_packet_kind(payload@, local_number, bytes_read as int);
                match r {
                    VideoPacketInfo::PartialIDR(p) => kind == VideoPacketKind::PartialIDR && p@ == payload@,
                    VideoPacketInfo::PPS(p) => kind == VideoPacketKind::PPS && p@ == payload@,
                    VideoPacketInfo::SPS(p) => kind == VideoPacketKind::SPS && p@ == payload@,
                    VideoPacketInfo::IntermediateFrame(p) => kind == VideoPacketKind::IntermediateFrame
                        && p@ == payload@,
                }
            }),
    {
        if local_number == 0x80 {
            if bytes_read == 10 {
                VideoPacketInfo::PPS(payload)
            } else if bytes_read == 15 {
                VideoPacketInfo::SPS(payload)
            } else {
                VideoPacketInfo::IntermediateFrame(payload)
            }
        } else {
            if payload.len() > 4 {
                if payload[4] == 0x65 {
                    VideoPacketInfo::PartialIDR(payload)
                } else {
                    VideoPacketInfo::IntermediateFrame(payload)
                }
            } else {
                VideoPacketInfo::IntermediateFrame(payload)
            }
        }
    }
}

} // verus!

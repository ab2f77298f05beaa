//! Reassembly of the Tello's H.264 stream from its video datagrams.
use vstd::prelude::*;

verus! {

/// Which H.264 parameter set a datagram replaced.
#[derive(Debug, Clone, Copy, PartialEq, Eq)]
pub enum ParameterSet {
    Sps,
    Pps,
}

/// What one video datagram produced: the parameter set it replaced, if any,
/// and the bytes of a finished frame (SPS, PPS, IDR and the frame's data),
/// if it completed one.
#[derive(Debug)]
pub struct VideoStep {
    pub updated: Option<ParameterSet>,
    pub frame: Option<Vec<u8>>,
}

/// The video reassembly state of a Tello connection.
#[derive(Debug)]
pub struct TelloVideo {
    /// The frame number of the frame being collected in `frame_buffer`.
    pub vid_frame_number: u8,
    pub sps: Option<[u8; 13]>,
    pub pps: Option<[u8; 8]>,
    /// The IDR picture of the current group of pictures.
    pub idr: Vec<u8>,
    pub idr_frame_number: Option<u8>,
    pub frame_buffer: Vec<u8>,
}

pub struct TelloVideoView {
    pub vid_frame_number: u8,
    pub sps: Option<Seq<u8>>,
    pub pps: Option<Seq<u8>>,
    pub idr: Seq<u8>,
    pub idr_frame_number: Option<u8>,
    pub frame_buffer: Seq<u8>,
}

impl View for TelloVideo {
    type V = TelloVideoView;

    open spec fn view(&self) -> TelloVideoView {
        TelloVideoView {
            vid_frame_number: self.vid_frame_number,
            sps: match self.sps {
                Some(a) => Some(a@),
                None => None,
            },
            pps: match self.pps {
                Some(a) => Some(a@),
                None => None,
            },
            idr: self.idr@,
            idr_frame_number: self.idr_frame_number,
            frame_buffer: self.frame_buffer@,
        }
    }
}

/// The datagrams the reassembly understands: a frame number, a local number
/// and a payload; a local number of 0x80 marks a parameter set, which comes
/// in datagrams of 15 (SPS) or 10 (PPS) bytes only.
pub open spec fn video_datagram_supported(d: Seq<u8>) -> bool {
    &&& d.len() >= 2
    &&& d[1] == 0x80 ==> d.len() == 15 || d.len() == 10
}

/// The state after one datagram, the parameter set it replaced, and the
/// frame it finished.
///
/// A parameter-set datagram replaces the SPS or PPS. A datagram of local
/// number 0 whose payload has the NAL type 0x65 (IDR) at offset 4 starts a
/// new group: the IDR and frame buffers are emptied and its frame number
/// becomes the IDR's. Nothing more happens before the first IDR. Datagrams
/// of the IDR's frame go to the IDR; unless one marks the end of the frame
/// (local number bit 7), that is all they do. Otherwise, a datagram of a
/// new frame number, when there is buffered frame data and the SPS, PPS and
/// IDR are all known, finishes the buffered frame; and the datagram's
/// payload is buffered.
pub open spec fn spec_video_step(s: TelloVideoView, d: Seq<u8>) -> (
    TelloVideoView,
    Option<ParameterSet>,
    Option<Seq<u8>>,
) {
    let frame_number = d[0];
    let local_number = d[1];
    let payload = d.subrange(2, d.len() as int);
    let end_of_frame = local_number >= 0x80;
    let s1 = if d.len() == 15 && local_number == 0x80 {
        TelloVideoView { sps: Some(payload), ..s }
    } else if d.len() == 10 && local_number == 0x80 {
        TelloVideoView { pps: Some(payload), ..s }
    } else if local_number != 0x80 && payload.len() > 4 && payload[4] == 0x65 && local_number == 0 {
        TelloVideoView {
            idr_frame_number: Some(frame_number),
            idr: Seq::empty(),
            frame_buffer: Seq::empty(),
            ..s
        }
    } else {
        s
    };
    let updated = if d.len() == 15 && local_number == 0x80 {
        Some(ParameterSet::Sps)
    } else if d.len() == 10 && local_number == 0x80 {
        Some(ParameterSet::Pps)
    } else {
        None
    };
    match s1.idr_frame_number {
        None => (s1, updated, None),
        Some(n) => {
            let s2 = if frame_number == n {
                TelloVideoView { idr: s1.idr + payload, ..s1 }
            } else {
                s1
            };
            if frame_number == n && !end_of_frame {
                (s2, updated, None)
            } else {
                let flush = frame_number != s2.vid_frame_number && s2.frame_buffer.len() > 0
                    && s2.sps is Some && s2.pps is Some && s2.idr.len() > 0;
                let image = if flush {
                    Some(s2.sps.unwrap() + s2.pps.unwrap() + s2.idr + s2.frame_buffer)
                } else {
                    None
                };
                let s3 = if flush {
                    TelloVideoView { vid_frame_number: frame_number, frame_buffer: Seq::empty(), ..s2 }
                } else {
                    s2
                };
                (TelloVideoView { frame_buffer: s3.frame_buffer + payload, ..s3 }, updated, image)
            }
        },
    }
}

/// Nothing is emitted before the first IDR; and every emitted frame is an
/// access unit that starts with the SPS and then the PPS that the state
/// after the datagram holds, followed by the IDR picture and then exactly
/// the frame data buffered before the datagram.
pub proof fn lemma_frames_start_with_parameter_sets(s: TelloVideoView, d: Seq<u8>)
    requires
        video_datagram_supported(d),
    ensures
        ({
            let (s2, _, frame) = spec_video_step(s, d);
            &&& s2.idr_frame_number is None ==> frame is None
            &&& frame matches Some(f) ==> {
                &&& s2.sps matches Some(sps)
                &&& s2.pps matches Some(pps)
                &&& f.subrange(0, sps.len() as int) == sps
                &&& f.subrange(sps.len() as int, (sps.len() + pps.len()) as int) == pps
                &&& f.subrange((sps.len() + pps.len()) as int, (sps.len() + pps.len() + s2.idr.len()) as int) == s2.idr
                &&& f.len() == sps.len() + pps.len() + s2.idr.len() + s.frame_buffer.len()
                &&& f.subrange((sps.len() + pps.len() + s2.idr.len()) as int, f.len() as int) == s.frame_buffer
            }
        }),
{
    let (s2, _, frame) = spec_video_step(s, d);
    if let Some(f) = frame {
        let sps = s2.sps.unwrap();
        let pps = s2.pps.unwrap();
        assert(f.subrange(0, sps.len() as int) =~= sps);
        assert(f.subrange(sps.len() as int, (sps.len() + pps.len()) as int) =~= pps);
        assert(f.subrange((sps.len() + pps.len()) as int, (sps.len() + pps.len() + s2.idr.len()) as int) =~= s2.idr);
        assert(f.subrange((sps.len() + pps.len() + s2.idr.len()) as int, f.len() as int) =~= s.frame_buffer);
    }
}

/// A datagram of local number 0 whose payload carries the NAL type 0x65 at
/// offset 4 starts a new group of pictures: it emits nothing, its frame
/// number becomes the IDR's, the IDR is exactly its payload, and no frame
/// data received before it stays buffered; the parameter sets and the
/// current frame number are kept.
pub proof fn lemma_idr_start_restarts_the_group(s: TelloVideoView, d: Seq<u8>)
    requires
        d.len() > 6,
        d[1] == 0,
        d[6] == 0x65,
    ensures
        ({
            let (s2, updated, frame) = spec_video_step(s, d);
            &&& frame is None
            &&& updated is None
            &&& s2.idr_frame_number == Some(d[0])
            &&& s2.idr == d.subrange(2, d.len() as int)
            &&& s2.frame_buffer.len() == 0
            &&& s2.sps == s.sps
            &&& s2.pps == s.pps
            &&& s2.vid_frame_number == s.vid_frame_number
        }),
{
    let (s2, _, _) = spec_video_step(s, d);
    assert(Seq::<u8>::empty() + d.subrange(2, d.len() as int) =~= d.subrange(2, d.len() as int));
}

fn append(out: &mut Vec<u8>, bytes: &[u8])
    ensures
        final(out)@ == old(out)@ + bytes@,
{
    let mut i: usize = 0;
    while i < bytes.len()
        invariant
            i <= bytes.len(),
            out@ == old(out)@ + bytes@.take(i as int),
        decreases bytes.len() - i,
    {
        out.push(bytes[i]);
        i = i + 1;
        assert(out@ =~= old(out)@ + bytes@.take(i as int));
    }
    assert(bytes@.take(bytes.len() as int) =~= bytes@);
}

impl TelloVideo {
    /// A connection that has seen no video yet.
    pub fn new() -> (r: Self)
        ensures
            r@.vid_frame_number == 0,
            r@.sps is None,
            r@.pps is None,
            r@.idr == Seq::<u8>::empty(),
            r@.idr_frame_number is None,
            r@.frame_buffer == Seq::<u8>::empty(),
    {
        TelloVideo {
            vid_frame_number: 0,
            sps: None,
            pps: None,
            idr: Vec::new(),
            idr_frame_number: None,
            frame_buffer: Vec::new(),
        }
    }

    /// Takes in one video datagram.
    pub fn receive_datagram(&mut self, datagram: &[u8]) -> (r: VideoStep)
        requires
            video_datagram_supported(datagram@),
        ensures
            ({
                let (s, updated, frame) = spec_video_step(old(self)@, datagram@);
                &&& final(self)@ == s
                &&& r.updated == updated
                &&& match r.frame {
                    Some(f) => frame == Some(f@),
                    None => frame is None,
                }
            }),
    {
        let ghost s0 = self@;
        let frame_number = datagram[0];
        let local_number = datagram[1];
        let payload = &datagram[2..datagram.len()];
        let end_of_frame = local_number & 0x80 != 0;
        assert(end_of_frame == (local_number >= 0x80)) by (bit_vector)
            requires
                end_of_frame == (local_number & 0x80 != 0),
        ;
        let mut updated = None;
        if datagram.len() == 15 && local_number == 0x80 {
            let p = payload;
            let sps: [u8; 13] = [p[0], p[1], p[2], p[3], p[4], p[5], p[6], p[7], p[8], p[9], p[10], p[11], p[12]];
            assert(sps@ =~= payload@);
            self.sps = Some(sps);
            updated = Some(ParameterSet::Sps);
        } else if datagram.len() == 10 && local_number == 0x80 {
            let p = payload;
            let pps: [u8; 8] = [p[0], p[1], p[2], p[3], p[4], p[5], p[6], p[7]];
            assert(pps@ =~= payload@);
            self.pps = Some(pps);
            updated = Some(ParameterSet::Pps);
        } else if payload.len() > 4 {
            if payload[4] == 0x65 && local_number == 0 {
                self.idr_frame_number = Some(frame_number);
                self.idr.clear();
                self.frame_buffer.clear();
            }
        }
        let ghost s1 = self@;
        match self.idr_frame_number {
            None => {
                return VideoStep { updated, frame: None };
            },
            Some(n) => {
                if frame_number == n {
                    append(&mut self.idr, payload);
                    if !end_of_frame {
                        return VideoStep { updated, frame: None };
                    }
                }
            },
        }
        let ghost s2 = self@;
        let mut frame = None;
        if frame_number != self.vid_frame_number && self.frame_buffer.len() > 0 {
            match (&self.sps, &self.pps) {
                (Some(sps), Some(pps)) => {
                    if self.idr.len() > 0 {
                        let mut image_buffer: Vec<u8> = Vec::new();
                        append(&mut image_buffer, sps);
                        append(&mut image_buffer, pps);
                        append(&mut image_buffer, self.idr.as_slice());
                        append(&mut image_buffer, self.frame_buffer.as_slice());
                        frame = Some(image_buffer);
                        self.vid_frame_number = frame_number;
                        self.frame_buffer.clear();
                    }
                },
                _ => {},
            }
        }
        append(&mut self.frame_buffer, payload);
        VideoStep { updated, frame }
    }
}

} // verus!

use crate::bytes::{
    be16_or_zero,
    be16_or_zero_exec,
    byte_or_zero,
    byte_or_zero_exec,
    le16_or_zero,
    le16_or_zero_exec,
    le32_or_zero,
    le32_or_zero_exec,
    tail_from,
};
use crate::error::Error;
use vstd::prelude::*;

verus! {

/// The fixed twelve-byte RTP header (RFC 3550). The sequence number,
/// timestamp and SSRC are taken in the byte order of the host, which is
/// little-endian on the machines this runs on.
#[derive(Debug, Clone, Copy, PartialEq, Eq)]
pub struct RTPHeader {
    pub version: u8,
    pub payload_type: u8,
    pub sequence_number: u16,
    pub timestamp: u32,
    pub ssrc: u32,
    pub is_last_in_frame: bool,
}

/// The smaller of `a` and `b`.
pub open spec fn min_int(a: int, b: int) -> int {
    if a <= b { a } else { b }
}

/// The first byte of an RTP header names version 2 and uses neither
/// padding, nor an extension, nor the high bit of the CSRC count; the header
/// reader supports nothing else.
pub open spec fn rtp_header_supported(s: Seq<u8>) -> bool {
    let b0 = byte_or_zero(s, 0);
    &&& b0 / 64 == 2
    &&& b0 & 0x20 == 0
    &&& b0 & 0x10 == 0
    &&& b0 & 0x08 == 0
}

/// The RTP header at the start of `s`, and how many bytes it takes.
pub open spec fn spec_rtp_header(s: Seq<u8>) -> (RTPHeader, int) {
    let b0 = byte_or_zero(s, 0);
    let b1 = byte_or_zero(s, 1);
    (
        RTPHeader {
            version: b0 / 64,
            payload_type: b1 & 0x7f,
            sequence_number: le16_or_zero(s, 2),
            timestamp: le32_or_zero(s, 4),
            ssrc: le32_or_zero(s, 8),
            is_last_in_frame: b1 & 0x80 != 0,
        },
        min_int(12, s.len() as int),
    )
}

impl RTPHeader {
    /// Reads the RTP header at the start of `stream`, and returns it with the
    /// number of bytes it took. Missing trailing bytes read as zero.
    pub fn from_stream(stream: &[u8]) -> (r: Result<(Self, usize), Error>)
        requires
            rtp_header_supported(stream@),
        ensures
            r matches Ok((h, n)) && (h, n as int) == spec_rtp_header(stream@),
    {
        let b0 = byte_or_zero_exec(stream, 0);
        let b1 = byte_or_zero_exec(stream, 1);
        let consumed = if stream.len() < 12 { stream.len() } else { 12 };
        Ok((
            RTPHeader {
                version: b0 / 64,
                payload_type: b1 & 0x7f,
                sequence_number: le16_or_zero_exec(stream, 2),
                timestamp: le32_or_zero_exec(stream, 4),
                ssrc: le32_or_zero_exec(stream, 8),
                is_last_in_frame: b1 & 0x80 != 0,
            },
            consumed,
        ))
    }
}

/// The restart marker header of RTP/JPEG (RFC 2435, 3.1.7).
#[derive(Debug, Clone, Copy, PartialEq, Eq)]
pub struct JpegRestartHeader {
    pub restart_interval: u16,
    pub f: bool,
    pub l: bool,
    pub restart_count: u16,
}

/// The restart header at the start of `s`, and how many bytes it takes. The
/// interval is big-endian; the count is kept in host (little-endian) order,
/// with the F and L bits taken from its first byte and cleared.
pub open spec fn spec_restart_header(s: Seq<u8>) -> (JpegRestartHeader, int) {
    let count = le16_or_zero(s, 2);
    let c0 = byte_or_zero(s, 2);
    (
        JpegRestartHeader {
            restart_interval: be16_or_zero(s, 0),
            f: c0 & 0x80 != 0,
            l: c0 & 0x40 != 0,
            restart_count: count & 0xff3f,
        },
        min_int(4, s.len() as int),
    )
}

impl JpegRestartHeader {
    /// Reads a restart header at the start of `stream`, and returns it with
    /// the number of bytes it took. Missing trailing bytes read as zero.
    pub fn from_stream(stream: &[u8]) -> (r: Result<(Self, usize), Error>)
        ensures
            r matches Ok((h, n)) && (h, n as int) == spec_restart_header(stream@),
    {
        let restart_interval = be16_or_zero_exec(stream, 0);
        let count = le16_or_zero_exec(stream, 2);
        let c0 = byte_or_zero_exec(stream, 2);
        let consumed = if stream.len() < 4 { stream.len() } else { 4 };
        Ok((
            JpegRestartHeader {
                restart_interval,
                f: c0 & 0x80 != 0,
                l: c0 & 0x40 != 0,
                restart_count: count & 0xff3f,
            },
            consumed,
        ))
    }
}

/// The quantization table header of RTP/JPEG (RFC 2435, 3.1.8).
#[derive(Debug, Clone, PartialEq, Eq)]
pub struct JpegQuantizationTableHeader {
    pub mbz: u8,
    pub precision: u8,
    pub table: Vec<u8>,
}

pub type JQTH = JpegQuantizationTableHeader;

/// What a quantization table header holds, with its table as a sequence.
pub struct QuantizationTableView {
    pub mbz: u8,
    pub precision: u8,
    pub table: Seq<u8>,
}

impl View for JpegQuantizationTableHeader {
    type V = QuantizationTableView;

    open spec fn view(&self) -> QuantizationTableView {
        QuantizationTableView { mbz: self.mbz, precision: self.precision, table: self.table@ }
    }
}

/// The quantization table header at the start of `s`, and how many bytes it
/// takes: `mbz`, `precision` and a big-endian length (missing bytes read as
/// zero), then exactly that many table bytes, which must all be there.
pub open spec fn spec_quant_header(s: Seq<u8>) -> Result<(QuantizationTableView, int), Error> {
    let start = min_int(4, s.len() as int);
    let length = be16_or_zero(s, 2) as int;
    if s.len() - start < length {
        Err(Error::UnexpectedEof)
    } else {
        Ok(
            (
                QuantizationTableView {
                    mbz: byte_or_zero(s, 0),
                    precision: byte_or_zero(s, 1),
                    table: s.subrange(start, start + length),
                },
                start + length,
            ),
        )
    }
}

fn copy_range(s: &[u8], start: usize, end: usize) -> (r: Vec<u8>)
    requires
        start <= end <= s.len(),
    ensures
        r@ == s@.subrange(start as int, end as int),
{
    let mut r: Vec<u8> = Vec::new();
    let mut i = start;
    while i < end
        invariant
            start <= i <= end <= s.len(),
            r@ == s@.subrange(start as int, i as int),
        decreases end - i,
    {
        r.push(s[i]);
        i = i + 1;
        assert(r@ =~= s@.subrange(start as int, i as int));
    }
    r
}

impl JpegQuantizationTableHeader {
    /// Reads a quantization table header at the start of `stream`, and
    /// returns it with the number of bytes it took; fails with
    /// `UnexpectedEof` when the table runs past the end.
    pub fn from_stream(stream: &[u8]) -> (r: Result<(Self, usize), Error>)
        ensures
            match r {
                Ok((h, n)) => spec_quant_header(stream@) == Ok::<(QuantizationTableView, int), Error>(
                    (h@, n as int),
                ),
                Err(e) => spec_quant_header(stream@) == Err::<(QuantizationTableView, int), Error>(e),
            },
    {
        let mbz = byte_or_zero_exec(stream, 0);
        let precision = byte_or_zero_exec(stream, 1);
        let length = be16_or_zero_exec(stream, 2) as usize;
        let start = if stream.len() < 4 { stream.len() } else { 4 };
        if stream.len() - start < length {
            return Err(Error::UnexpectedEof);
        }
        let table = copy_range(stream, start, start + length);
        let h = JpegQuantizationTableHeader { mbz, precision, table };
        proof {
            assert(h@ == QuantizationTableView {
                mbz: byte_or_zero(stream@, 0),
                precision: byte_or_zero(stream@, 1),
                table: stream@.subrange(start as int, start + length),
            });
        }
        Ok((h, start + length))
    }
}

/// The main JPEG header of RTP/JPEG (RFC 2435, 3.1), with the optional
/// headers that follow it.
#[derive(Debug, Clone, PartialEq, Eq)]
pub struct JpegMainHeader {
    pub type_specific: u8,
    pub fragment_offset: u32,
    pub packet_type: u8,
    pub quantization: u8,
    pub width: u16,
    pub height: u16,
    pub restart_header: Option<JpegRestartHeader>,
    pub quantization_header: Option<JpegQuantizationTableHeader>,
}

/// What a main JPEG header holds, its quantization table header by view.
pub struct JpegMainHeaderView {
    pub type_specific: u8,
    pub fragment_offset: u32,
    pub packet_type: u8,
    pub quantization: u8,
    pub width: u16,
    pub height: u16,
    pub restart_header: Option<JpegRestartHeader>,
    pub quantization_header: Option<QuantizationTableView>,
}

impl View for JpegMainHeader {
    type V = JpegMainHeaderView;

    open spec fn view(&self) -> JpegMainHeaderView {
        JpegMainHeaderView {
            type_specific: self.type_specific,
            fragment_offset: self.fragment_offset,
            packet_type: self.packet_type,
            quantization: self.quantization,
            width: self.width,
            height: self.height,
            restart_header: self.restart_header,
            quantization_header: match self.quantization_header {
                Some(q) => Some(q@),
                None => None,
            },
        }
    }
}

/// The main JPEG header at the start of `s`, and how many bytes it takes
/// with the headers that follow it: eight bytes (type-specific, a
/// big-endian 24-bit fragment offset, type, Q, width and height in blocks of
/// eight pixels), then a restart header when the type is 64 or more, then a
/// quantization table header when Q is 128 or more and `ignore_quant` is
/// not set.
pub open spec fn spec_jpeg_main_header(s: Seq<u8>, ignore_quant: bool) -> Result<
    (JpegMainHeaderView, int),
    Error,
> {
    if s.len() < 8 {
        Err(Error::UnexpectedEof)
    } else {
        let packet_type = s[4];
        let quantization = s[5];
        let after_restart = if packet_type >= 64 {
            8 + spec_restart_header(s.subrange(8, s.len() as int)).1
        } else {
            8
        };
        let restart_header = if packet_type >= 64 {
            Some(spec_restart_header(s.subrange(8, s.len() as int)).0)
        } else {
            None
        };
        let head = JpegMainHeaderView {
            type_specific: s[0],
            fragment_offset: (65536 * s[1] + 256 * s[2] + s[3]) as u32,
            packet_type,
            quantization,
            width: (8 * s[6]) as u16,
            height: (8 * s[7]) as u16,
            restart_header,
            quantization_header: None,
        };
        if quantization >= 128 && !ignore_quant {
            match spec_quant_header(s.subrange(after_restart, s.len() as int)) {
                Ok((q, n)) => Ok(
                    (JpegMainHeaderView { quantization_header: Some(q), ..head }, after_restart + n),
                ),
                Err(e) => Err(e),
            }
        } else {
            Ok((head, after_restart))
        }
    }
}

impl JpegMainHeader {
    /// Whether this packet starts an image: only the first packet of an
    /// image carries the quantization tables.
    pub fn is_image_start(&self) -> (r: bool)
        ensures
            r == self.quantization_header.is_some(),
    {
        match self.quantization_header {
            Some(_) => true,
            None => false,
        }
    }

    /// Reads the main JPEG header at the start of `stream` with the headers
    /// that follow it, and returns it with the number of bytes taken; fails
    /// with `UnexpectedEof` when a required byte is missing.
    pub fn from_stream(stream: &[u8], ignore_quant: bool) -> (r: Result<(Self, usize), Error>)
        ensures
            match r {
                Ok((h, n)) => spec_jpeg_main_header(stream@, ignore_quant) == Ok::<
                    (JpegMainHeaderView, int),
                    Error,
                >((h@, n as int)),
                Err(e) => spec_jpeg_main_header(stream@, ignore_quant) == Err::<
                    (JpegMainHeaderView, int),
                    Error,
                >(e),
            },
    {
        if stream.len() < 8 {
            return Err(Error::UnexpectedEof);
        }
        let type_specific = stream[0];
        let fragment_offset: u32 = 65536 * (stream[1] as u32) + 256 * (stream[2] as u32)
            + stream[3] as u32;
        let packet_type = stream[4];
        let quantization = stream[5];
        let width: u16 = 8 * (stream[6] as u16);
        let height: u16 = 8 * (stream[7] as u16);
        let mut position: usize = 8;
        let mut restart_header = None;
        if packet_type >= 64 {
            let rest = tail_from(stream, 8);
            let (restart, n) = match JpegRestartHeader::from_stream(rest) {
                Ok(found) => found,
                Err(e) => return Err(e),
            };
            restart_header = Some(restart);
            position = 8 + n;
        }
        let mut quantization_header = None;
        let mut consumed = position;
        if quantization >= 128 && !ignore_quant {
            let rest = tail_from(stream, position);
            let (quant, n) = match JpegQuantizationTableHeader::from_stream(rest) {
                Ok(found) => found,
                Err(e) => return Err(e),
            };
            quantization_header = Some(quant);
            consumed = position + n;
        }
        let h = JpegMainHeader {
            type_specific,
            fragment_offset,
            packet_type,
            quantization,
            width,
            height,
            restart_header,
            quantization_header,
        };
        Ok((h, consumed))
    }
}

/// A thumbnail to embed in a JFIF APP0 segment.
pub struct Thumbnail<'a> {
    image_data: &'a [u8],
    width: u8,
    height: u8,
}

} // verus!

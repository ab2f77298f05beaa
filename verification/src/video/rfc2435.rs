//! Rebuilding JPEG images from RTP/JPEG payloads (RFC 2435, appendices A and B).
use crate::error::Error;
use crate::video::rtp::{JpegMainHeader, JpegRestartHeader, Thumbnail};
use vstd::prelude::*;

verus! {

// Luminance Huffman tables.
pub const LUM_DC_CODELENS: [u8; 16] = [0, 1, 5, 1, 1, 1, 1, 1, 1, 0, 0, 0, 0, 0, 0, 0];

pub const LUM_DC_SYMBOLS: [u8; 12] = [0, 1, 2, 3, 4, 5, 6, 7, 8, 9, 10, 11];

pub const LUM_AC_CODELENS: [u8; 16] = [0, 2, 1, 3, 3, 2, 4, 3, 5, 5, 4, 4, 0, 0, 1, 0x7d];

pub const LUM_AC_SYMBOLS: [u8; 162] = [
    0x01, 0x02, 0x03, 0x00, 0x04, 0x11, 0x05, 0x12,
    0x21, 0x31, 0x41, 0x06, 0x13, 0x51, 0x61, 0x07,
    0x22, 0x71, 0x14, 0x32, 0x81, 0x91, 0xa1, 0x08,
    0x23, 0x42, 0xb1, 0xc1, 0x15, 0x52, 0xd1, 0xf0,
    0x24, 0x33, 0x62, 0x72, 0x82, 0x09, 0x0a, 0x16,
    0x17, 0x18, 0x19, 0x1a, 0x25, 0x26, 0x27, 0x28,
    0x29, 0x2a, 0x34, 0x35, 0x36, 0x37, 0x38, 0x39,
    0x3a, 0x43, 0x44, 0x45, 0x46, 0x47, 0x48, 0x49,
    0x4a, 0x53, 0x54, 0x55, 0x56, 0x57, 0x58, 0x59,
    0x5a, 0x63, 0x64, 0x65, 0x66, 0x67, 0x68, 0x69,
    0x6a, 0x73, 0x74, 0x75, 0x76, 0x77, 0x78, 0x79,
    0x7a, 0x83, 0x84, 0x85, 0x86, 0x87, 0x88, 0x89,
    0x8a, 0x92, 0x93, 0x94, 0x95, 0x96, 0x97, 0x98,
    0x99, 0x9a, 0xa2, 0xa3, 0xa4, 0xa5, 0xa6, 0xa7,
    0xa8, 0xa9, 0xaa, 0xb2, 0xb3, 0xb4, 0xb5, 0xb6,
    0xb7, 0xb8, 0xb9, 0xba, 0xc2, 0xc3, 0xc4, 0xc5,
    0xc6, 0xc7, 0xc8, 0xc9, 0xca, 0xd2, 0xd3, 0xd4,
    0xd5, 0xd6, 0xd7, 0xd8, 0xd9, 0xda, 0xe1, 0xe2,
    0xe3, 0xe4, 0xe5, 0xe6, 0xe7, 0xe8, 0xe9, 0xea,
    0xf1, 0xf2, 0xf3, 0xf4, 0xf5, 0xf6, 0xf7, 0xf8,
    0xf9, 0xfa,
];

// Chrominance Huffman tables.
pub const CHM_DC_CODELENS: [u8; 16] = [0, 3, 1, 1, 1, 1, 1, 1, 1, 1, 1, 0, 0, 0, 0, 0];

pub const CHM_DC_SYMBOLS: [u8; 12] = [0, 1, 2, 3, 4, 5, 6, 7, 8, 9, 10, 11];

pub const CHM_AC_CODELENS: [u8; 16] = [0, 2, 1, 2, 4, 4, 3, 4, 7, 5, 4, 4, 0, 1, 2, 0x77];

pub const CHM_AC_SYMBOLS: [u8; 162] = [
    0x00, 0x01, 0x02, 0x03, 0x11, 0x04, 0x05, 0x21,
    0x31, 0x06, 0x12, 0x41, 0x51, 0x07, 0x61, 0x71,
    0x13, 0x22, 0x32, 0x81, 0x08, 0x14, 0x42, 0x91,
    0xa1, 0xb1, 0xc1, 0x09, 0x23, 0x33, 0x52, 0xf0,
    0x15, 0x62, 0x72, 0xd1, 0x0a, 0x16, 0x24, 0x34,
    0xe1, 0x25, 0xf1, 0x17, 0x18, 0x19, 0x1a, 0x26,
    0x27, 0x28, 0x29, 0x2a, 0x35, 0x36, 0x37, 0x38,
    0x39, 0x3a, 0x43, 0x44, 0x45, 0x46, 0x47, 0x48,
    0x49, 0x4a, 0x53, 0x54, 0x55, 0x56, 0x57, 0x58,
    0x59, 0x5a, 0x63, 0x64, 0x65, 0x66, 0x67, 0x68,
    0x69, 0x6a, 0x73, 0x74, 0x75, 0x76, 0x77, 0x78,
    0x79, 0x7a, 0x82, 0x83, 0x84, 0x85, 0x86, 0x87,
    0x88, 0x89, 0x8a, 0x92, 0x93, 0x94, 0x95, 0x96,
    0x97, 0x98, 0x99, 0x9a, 0xa2, 0xa3, 0xa4, 0xa5,
    0xa6, 0xa7, 0xa8, 0xa9, 0xaa, 0xb2, 0xb3, 0xb4,
    0xb5, 0xb6, 0xb7, 0xb8, 0xb9, 0xba, 0xc2, 0xc3,
    0xc4, 0xc5, 0xc6, 0xc7, 0xc8, 0xc9, 0xca, 0xd2,
    0xd3, 0xd4, 0xd5, 0xd6, 0xd7, 0xd8, 0xd9, 0xda,
    0xe2, 0xe3, 0xe4, 0xe5, 0xe6, 0xe7, 0xe8, 0xe9,
    0xea, 0xf2, 0xf3, 0xf4, 0xf5, 0xf6, 0xf7, 0xf8,
    0xf9, 0xfa,
];

/// The example luminance quantization table of the JPEG standard (K.1).
pub const JPEG_LUMA_QUANTIZER: [i32; 64] = [
    16, 11, 10, 16, 24, 40, 51, 61,
    12, 12, 14, 19, 26, 58, 60, 55,
    14, 13, 16, 24, 40, 57, 69, 56,
    14, 17, 22, 29, 51, 87, 80, 62,
    18, 22, 37, 56, 68, 109, 103, 77,
    24, 35, 55, 64, 81, 104, 113, 92,
    49, 64, 78, 87, 103, 121, 120, 101,
    72, 92, 95, 98, 112, 100, 103, 99,
];

/// The example chrominance quantization table of the JPEG standard (K.2).
pub const JPEG_CHROMA_QUANTIZER: [i32; 64] = [
    17, 18, 24, 47, 99, 99, 99, 99,
    18, 21, 26, 66, 99, 99, 99, 99,
    24, 26, 56, 99, 99, 99, 99, 99,
    47, 66, 99, 99, 99, 99, 99, 99,
    99, 99, 99, 99, 99, 99, 99, 99,
    99, 99, 99, 99, 99, 99, 99, 99,
    99, 99, 99, 99, 99, 99, 99, 99,
    99, 99, 99, 99, 99, 99, 99, 99,
];

/// Big-endian bytes of a `u16`.
pub open spec fn be16(v: u16) -> Seq<u8> {
    seq![(v / 256) as u8, (v % 256) as u8]
}

/// A DQT segment holding the 64-entry table `qt` as table `table_number`.
pub open spec fn spec_quant_segment(qt: Seq<u8>, table_number: u8) -> Seq<u8> {
    seq![0xFFu8, 0xDB, 0x00, 0x43, table_number] + qt
}

/// A DHT segment holding the code lengths and symbols of one Huffman table.
pub open spec fn spec_huffman_segment(
    codelens: Seq<u8>,
    symbols: Seq<u8>,
    table_number: u8,
    table_class: u8,
) -> Seq<u8> {
    seq![0xFFu8, 0xC4] + be16((3 + codelens.len() + symbols.len()) as u16) + seq![
        (16 * table_class + table_number) as u8,
    ] + codelens + symbols
}

/// A DRI segment for a restart interval of `dri` MCUs.
pub open spec fn spec_dri_segment(dri: u16) -> Seq<u8> {
    seq![0xFFu8, 0xDD, 0x00, 0x04] + be16(dri)
}

/// The SOF0 segment: eight-bit precision, the picture size in pixels, and
/// three components, the first subsampled 2x1 for type 0 and 2x2 for type 1.
pub open spec fn spec_frame_segment(headers_type: u8, w: u16, h: u16) -> Seq<u8> {
    seq![0xFFu8, 0xC0, 0x00, 0x11, 0x08] + be16(h) + be16(w) + seq![
        0x03u8,
        0x00,
        if headers_type == 0 { 0x21u8 } else { 0x22u8 },
        0x00,
        0x01,
        0x11,
        0x01,
        0x02,
        0x11,
        0x01,
    ]
}

/// The four Huffman table segments of the standard tables.
pub open spec fn spec_huffman_segments() -> Seq<u8> {
    spec_huffman_segment(LUM_DC_CODELENS@, LUM_DC_SYMBOLS@, 0, 0) + spec_huffman_segment(
        LUM_AC_CODELENS@,
        LUM_AC_SYMBOLS@,
        0,
        1,
    ) + spec_huffman_segment(CHM_DC_CODELENS@, CHM_DC_SYMBOLS@, 1, 0) + spec_huffman_segment(
        CHM_AC_CODELENS@,
        CHM_AC_SYMBOLS@,
        1,
        1,
    )
}

/// The SOS segment: three components, full spectral range.
pub open spec fn spec_scan_segment() -> Seq<u8> {
    seq![0xFFu8, 0xDA, 0x00, 0x0C, 0x03, 0x00, 0x00, 0x01, 0x11, 0x02, 0x11, 0x00, 63, 0x00]
}

/// The frame and scan headers that, prepended to an RTP/JPEG payload, make a
/// JPEG interchange-format image (RFC 2435, appendix B).
pub open spec fn spec_headers(
    headers_type: u8,
    blocks_w: u16,
    blocks_h: u16,
    lqt: Seq<u8>,
    cqt: Seq<u8>,
    dri: u16,
) -> Seq<u8> {
    seq![0xFFu8, 0xD8] + spec_quant_segment(lqt, 0) + spec_quant_segment(cqt, 1) + (if dri != 0 {
        spec_dri_segment(dri)
    } else {
        Seq::<u8>::empty()
    }) + spec_frame_segment(headers_type, (8 * blocks_w) as u16, (8 * blocks_h) as u16)
        + spec_huffman_segments() + spec_scan_segment()
}

/// In the headers, the first quantization segment holds `lqt` as table 0
/// and the second `cqt` as table 1; the frame header that follows (after the
/// restart segment, when there is one) is a baseline SOF0 with three
/// components, numbered 0, 1 and 2, of which component 0 (luminance) is
/// decoded with the table holding `lqt` and components 1 and 2
/// (chrominance) with the table holding `cqt`.
#[verifier::spinoff_prover]
pub proof fn lemma_components_use_their_tables(
    headers_type: u8,
    blocks_w: u16,
    blocks_h: u16,
    lqt: Seq<u8>,
    cqt: Seq<u8>,
    dri: u16,
)
    requires
        lqt.len() == 64,
        cqt.len() == 64,
    ensures
        ({
            let hd = spec_headers(headers_type, blocks_w, blocks_h, lqt, cqt, dri);
            let f: int = if dri != 0 { 146 } else { 140 };
            &&& hd[2] == 0xFF && hd[3] == 0xDB && hd[6] == 0
            &&& hd.subrange(7, 71) == lqt
            &&& hd[71] == 0xFF && hd[72] == 0xDB && hd[75] == 1
            &&& hd.subrange(76, 140) == cqt
            &&& hd[f] == 0xFF && hd[f + 1] == 0xC0 && hd[f + 9] == 3
            &&& hd[f + 10] == 0 && hd[f + 13] == 1 && hd[f + 16] == 2
            &&& hd[f + 12] == hd[6]
            &&& hd[f + 15] == hd[75]
            &&& hd[f + 18] == hd[75]
        }),
{
    let q0 = spec_quant_segment(lqt, 0);
    let q1 = spec_quant_segment(cqt, 1);
    let d = if dri != 0 { spec_dri_segment(dri) } else { Seq::<u8>::empty() };
    let sof = spec_frame_segment(headers_type, (8 * blocks_w) as u16, (8 * blocks_h) as u16);
    let a = seq![0xFFu8, 0xD8] + q0;
    let b = a + q1;
    let c = b + d;
    let e = c + sof;
    let g = e + spec_huffman_segments();
    let hd = spec_headers(headers_type, blocks_w, blocks_h, lqt, cqt, dri);
    let f: int = if dri != 0 { 146 } else { 140 };
    assert(hd == g + spec_scan_segment());
    assert(q0.len() == 69 && q1.len() == 69);
    assert(a.len() == 71 && b.len() == 140 && c.len() == f);
    assert(sof.len() == 19);
    assert forall|i: int| 0 <= i < e.len() implies #[trigger] hd[i] == e[i] by {
        assert(hd[i] == g[i]);
        assert(g[i] == e[i]);
    }
    assert forall|i: int| 0 <= i < b.len() implies #[trigger] e[i] == b[i] by {
        assert(e[i] == c[i]);
        assert(c[i] == b[i]);
    }
    assert forall|k: int| 0 <= k < 19 implies #[trigger] e[f + k] == sof[k] by {}
    assert forall|k: int| 0 <= k < 69 implies #[trigger] b[2 + k] == q0[k] by {
        assert(b[2 + k] == a[2 + k]);
    }
    assert forall|k: int| 0 <= k < 69 implies #[trigger] b[71 + k] == q1[k] by {}
    assert(hd[6] == q0[4]);
    assert(hd[75] == q1[4]);
    assert(hd[f + 12] == sof[12]);
    assert(hd[f + 15] == sof[15]);
    assert(hd[f + 18] == sof[18]);
    assert(hd[f + 10] == sof[10] && hd[f + 13] == sof[13] && hd[f + 16] == sof[16]);
    assert(hd[f] == sof[0] && hd[f + 1] == sof[1] && hd[f + 9] == sof[9]);
    assert(hd[2] == q0[0] && hd[3] == q0[1] && hd[71] == q1[0] && hd[72] == q1[1]);
    assert forall|k: int| 0 <= k < 64 implies #[trigger] hd.subrange(7, 71)[k] == lqt[k] by {
        assert(hd[7 + k] == b[7 + k]);
        assert(b[7 + k] == q0[5 + k]);
    }
    assert(hd.subrange(7, 71) =~= lqt);
    assert forall|k: int| 0 <= k < 64 implies #[trigger] hd.subrange(76, 140)[k] == cqt[k] by {
        assert(hd[76 + k] == b[76 + k]);
        assert(b[76 + k] == q1[5 + k]);
    }
    assert(hd.subrange(76, 140) =~= cqt);
}

/// Appends `bytes` to `p`.
fn append(p: &mut Vec<u8>, bytes: &[u8])
    ensures
        final(p)@ == old(p)@ + bytes@,
{
    let mut i: usize = 0;
    while i < bytes.len()
        invariant
            i <= bytes.len(),
            p@ == old(p)@ + bytes@.take(i as int),
        decreases bytes.len() - i,
    {
        p.push(bytes[i]);
        i = i + 1;
        assert(p@ =~= old(p)@ + bytes@.take(i as int));
    }
    assert(bytes@.take(bytes.len() as int) =~= bytes@);
}

fn be16_bytes(v: u16) -> (r: [u8; 2])
    ensures
        r@ == be16(v),
{
    let r = [(v / 256) as u8, (v % 256) as u8];
    assert(r@ =~= be16(v));
    r
}

/// Appends the DQT segment for `qt` as table `table_number`.
fn make_quant_header(p: &mut Vec<u8>, qt: &[u8], table_number: u8) -> (r: Result<(), Error>)
    requires
        qt.len() == 64,
    ensures
        r is Ok,
        final(p)@ == old(p)@ + spec_quant_segment(qt@, table_number),
{
    let head: [u8; 5] = [0xFF, 0xDB, 0x00, 0x43, table_number];
    append(p, &head);
    append(p, qt);
    assert(head@ =~= seq![0xFFu8, 0xDB, 0x00, 0x43, table_number]);
    assert(p@ =~= old(p)@ + spec_quant_segment(qt@, table_number));
    Ok(())
}

/// Appends the DHT segment for one Huffman table.
fn make_huffman_header(
    p: &mut Vec<u8>,
    codelens: &[u8],
    symbols: &[u8],
    table_number: u8,
    table_class: u8,
) -> (r: Result<(), Error>)
    requires
        codelens.len() == 16,
        symbols.len() <= 1000,
        table_number < 16,
        table_class < 16,
    ensures
        r is Ok,
        final(p)@ == old(p)@ + spec_huffman_segment(codelens@, symbols@, table_number, table_class),
{
    let length = be16_bytes((3 + codelens.len() + symbols.len()) as u16);
    let head: [u8; 5] = [0xFF, 0xC4, length[0], length[1], 16 * table_class + table_number];
    append(p, &head);
    append(p, codelens);
    append(p, symbols);
    assert(p@ =~= old(p)@ + spec_huffman_segment(codelens@, symbols@, table_number, table_class));
    Ok(())
}

/// The quality-scaled quantizer value: `base` scaled by `scale` percent,
/// rounded, and held to `1..=255`.
pub open spec fn spec_scaled_quantizer(base: i32, scale: int) -> u8 {
    let v = (base * scale + 50) / 100;
    (if v < 1 { 1 } else if v > 255 { 255 } else { v }) as u8
}

/// The percentage by which a Q value below 128 scales the standard tables
/// (RFC 2435, appendix A); Q is first held to `1..=99`.
pub open spec fn spec_quality_scale(q: i32) -> int {
    let factor: int = if q < 1 { 1 } else if q > 99 { 99 } else { q as int };
    if q < 50 { 5000int / factor } else { 200int - factor * 2 }
}

proof fn lemma_standard_tables_bounded()
    ensures
        forall|i: int| 0 <= i < 64 ==> 1 <= #[trigger] JPEG_LUMA_QUANTIZER@[i] <= 121,
        forall|i: int| 0 <= i < 64 ==> 1 <= #[trigger] JPEG_CHROMA_QUANTIZER@[i] <= 99,
{
}

proof fn lemma_quality_scale_monotone(q1: i32, q2: i32)
    requires
        q1 <= q2 < 128,
    ensures
        spec_quality_scale(q1) >= spec_quality_scale(q2),
        spec_quality_scale(q2) >= 2,
{
    let f1: int = if q1 < 1 { 1 } else if q1 > 99 { 99 } else { q1 as int };
    let f2: int = if q2 < 1 { 1 } else if q2 > 99 { 99 } else { q2 as int };
    assert(5000int / 49 == 102) by (nonlinear_arith);
    if q2 < 50 {
        vstd::arithmetic::div_mod::lemma_div_is_ordered_by_denominator(5000, f1, f2);
        vstd::arithmetic::div_mod::lemma_div_is_ordered_by_denominator(5000, f2, 49);
    } else if q1 < 50 {
        vstd::arithmetic::div_mod::lemma_div_is_ordered_by_denominator(5000, f1, 49);
    }
}

proof fn lemma_scaled_quantizer_monotone(base: i32, s1: int, s2: int)
    requires
        1 <= base,
        0 <= s2 <= s1,
    ensures
        1 <= spec_scaled_quantizer(base, s2) <= spec_scaled_quantizer(base, s1) <= 255,
{
    vstd::arithmetic::mul::lemma_mul_inequality(s2, s1, base as int);
    assert(base * s2 == s2 * base) by (nonlinear_arith);
    assert(base * s1 == s1 * base) by (nonlinear_arith);
    vstd::arithmetic::div_mod::lemma_div_is_ordered(base * s2 + 50, base * s1 + 50, 100);
}

/// A higher quality factor never gives a coarser table: for Q values
/// `q1 <= q2` below 128, every entry of the tables scaled for `q2` is at most
/// the entry for `q1`, and every entry lies in `1..=255`.
pub proof fn lemma_tables_finer_with_quality(q1: i32, q2: i32)
    requires
        q1 <= q2 < 128,
    ensures
        forall|i: int|
            0 <= i < 64 ==> {
                &&& 1 <= #[trigger] spec_scaled_quantizer(JPEG_LUMA_QUANTIZER@[i], spec_quality_scale(q2))
                &&& spec_scaled_quantizer(JPEG_LUMA_QUANTIZER@[i], spec_quality_scale(q2))
                    <= spec_scaled_quantizer(JPEG_LUMA_QUANTIZER@[i], spec_quality_scale(q1)) <= 255
                &&& 1 <= spec_scaled_quantizer(JPEG_CHROMA_QUANTIZER@[i], spec_quality_scale(q2))
                &&& spec_scaled_quantizer(JPEG_CHROMA_QUANTIZER@[i], spec_quality_scale(q2))
                    <= spec_scaled_quantizer(JPEG_CHROMA_QUANTIZER@[i], spec_quality_scale(q1)) <= 255
            },
{
    lemma_quality_scale_monotone(q1, q2);
    lemma_standard_tables_bounded();
    assert forall|i: int| 0 <= i < 64 implies {
        &&& 1 <= #[trigger] spec_scaled_quantizer(JPEG_LUMA_QUANTIZER@[i], spec_quality_scale(q2))
        &&& spec_scaled_quantizer(JPEG_LUMA_QUANTIZER@[i], spec_quality_scale(q2))
            <= spec_scaled_quantizer(JPEG_LUMA_QUANTIZER@[i], spec_quality_scale(q1)) <= 255
        &&& 1 <= spec_scaled_quantizer(JPEG_CHROMA_QUANTIZER@[i], spec_quality_scale(q2))
        &&& spec_scaled_quantizer(JPEG_CHROMA_QUANTIZER@[i], spec_quality_scale(q2))
            <= spec_scaled_quantizer(JPEG_CHROMA_QUANTIZER@[i], spec_quality_scale(q1)) <= 255
    } by {
        let l = JPEG_LUMA_QUANTIZER@[i];
        let c = JPEG_CHROMA_QUANTIZER@[i];
        assert(1 <= l && 1 <= c);
        lemma_scaled_quantizer_monotone(l, spec_quality_scale(q1), spec_quality_scale(q2));
        lemma_scaled_quantizer_monotone(c, spec_quality_scale(q1), spec_quality_scale(q2));
    }
}

/// Fills `lqt` and `cqt` with the standard tables scaled for quality `q`.
/// For `q` of 128 or more the tables are left as they are.
fn make_tables(q: i32, lqt: &mut [u8; 64], cqt: &mut [u8; 64])
    ensures
        q >= 128 ==> final(lqt)@ == old(lqt)@ && final(cqt)@ == old(cqt)@,
        q < 128 ==> forall|i: int|
            0 <= i < 64 ==> {
                &&& #[trigger] final(lqt)@[i] == spec_scaled_quantizer(
                    JPEG_LUMA_QUANTIZER@[i],
                    spec_quality_scale(q),
                )
                &&& final(cqt)@[i] == spec_scaled_quantizer(
                    JPEG_CHROMA_QUANTIZER@[i],
                    spec_quality_scale(q),
                )
            },
{
    if q >= 128 {
        return;
    }
    let mut factor = q;
    if q < 1 {
        factor = 1;
    } else if q > 99 {
        factor = 99;
    }
    let scale: i64 = if q < 50 { (5000 / factor) as i64 } else { (200 - factor * 2) as i64 };
    assert(scale == spec_quality_scale(q));
    if q < 50 {
        assert(1 <= 5000int / (factor as int) <= 5000) by (nonlinear_arith)
            requires
                1 <= factor <= 99,
        ;
    }
    assert(1 <= scale <= 5000);
    let mut i: usize = 0;
    while i < 64
        invariant
            i <= 64,
            scale == spec_quality_scale(q),
            1 <= scale <= 5000,
            forall|j: int|
                0 <= j < i ==> {
                    &&& #[trigger] lqt@[j] == spec_scaled_quantizer(JPEG_LUMA_QUANTIZER@[j], scale as int)
                    &&& cqt@[j] == spec_scaled_quantizer(JPEG_CHROMA_QUANTIZER@[j], scale as int)
                },
        decreases 64 - i,
    {
        proof {
            lemma_standard_tables_bounded();
            assert(1 <= JPEG_LUMA_QUANTIZER@[i as int] <= 121);
            assert(1 <= JPEG_CHROMA_QUANTIZER@[i as int] <= 121);
        }
        let lq = scaled_quantizer(JPEG_LUMA_QUANTIZER[i], scale);
        let cq = scaled_quantizer(JPEG_CHROMA_QUANTIZER[i], scale);
        let ghost before_l = lqt@;
        let ghost before_c = cqt@;
        lqt[i] = lq;
        cqt[i] = cq;
        assert(lqt@ == before_l.update(i as int, lq));
        assert(cqt@ == before_c.update(i as int, cq));
        assert forall|j: int| 0 <= j < i + 1 implies {
            &&& #[trigger] lqt@[j] == spec_scaled_quantizer(JPEG_LUMA_QUANTIZER@[j], scale as int)
            &&& cqt@[j] == spec_scaled_quantizer(JPEG_CHROMA_QUANTIZER@[j], scale as int)
        } by {
            if j < i {
                assert(before_l[j] == spec_scaled_quantizer(JPEG_LUMA_QUANTIZER@[j], scale as int));
            }
        }
        i = i + 1;
    }
}

fn scaled_quantizer(base: i32, scale: i64) -> (r: u8)
    requires
        1 <= base <= 121,
        1 <= scale <= 5000,
    ensures
        r == spec_scaled_quantizer(base, scale as int),
{
    assert(base * scale <= 121 * 5000) by (nonlinear_arith)
        requires
            1 <= base <= 121,
            1 <= scale <= 5000,
    ;
    assert(base * scale >= 1) by (nonlinear_arith)
        requires
            1 <= base <= 121,
            1 <= scale <= 5000,
    ;
    let v: i64 = (base as i64 * scale + 50) / 100;
    let clamped = if v < 1 { 1 } else if v > 255 { 255 } else { v };
    clamped as u8
}

/// Appends the DRI segment for a restart interval of `dri`.
fn make_dri_header(p: &mut Vec<u8>, dri: u16) -> (r: Result<(), Error>)
    ensures
        r is Ok,
        final(p)@ == old(p)@ + spec_dri_segment(dri),
{
    let d = be16_bytes(dri);
    let bytes: [u8; 6] = [0xFF, 0xDD, 0x00, 0x04, d[0], d[1]];
    append(p, &bytes);
    assert(bytes@ =~= spec_dri_segment(dri));
    Ok(())
}

/// Appends the frame and scan headers that, prepended to an RTP/JPEG
/// payload, make a JPEG interchange-format image (except for trailing
/// garbage and the missing EOI marker).
///
/// `headers_type`, `blocks_w` and `blocks_h` are as in the RTP/JPEG header
/// (the size in blocks of eight pixels); `lqt` and `cqt` are the two 64-entry
/// quantization tables; `dri` is the restart interval in MCUs, or 0 for none.
pub fn make_headers(
    p: &mut Vec<u8>,
    headers_type: u8,
    blocks_w: u16,
    blocks_h: u16,
    lqt: &mut [u8],
    cqt: &mut [u8],
    dri: u16,
) -> (r: Result<(), Error>)
    requires
        headers_type == 0 || headers_type == 1,
        8 * blocks_w <= u16::MAX,
        8 * blocks_h <= u16::MAX,
        old(lqt)@.len() == 64,
        old(cqt)@.len() == 64,
    ensures
        r is Ok,
        final(lqt)@ == old(lqt)@,
        final(cqt)@ == old(cqt)@,
        final(p)@ == old(p)@ + spec_headers(headers_type, blocks_w, blocks_h, old(lqt)@, old(cqt)@, dri),
{
    let h: u16 = blocks_h * 8;
    let w: u16 = blocks_w * 8;
    let ghost start = p@;
    let soi: [u8; 2] = [0xFF, 0xD8];
    append(p, &soi);
    let _ = make_quant_header(p, lqt, 0);
    let _ = make_quant_header(p, cqt, 1);
    let ghost after_tables = p@;
    if dri != 0 {
        let _ = make_dri_header(p, dri);
    }
    let ghost after_dri = p@;
    let hb = be16_bytes(h);
    let wb = be16_bytes(w);
    let sampling: u8 = if headers_type == 0 { 0x21 } else { 0x22 };
    let frame: [u8; 19] = [
        0xFF,
        0xC0,
        0x00,
        0x11,
        0x08,
        hb[0],
        hb[1],
        wb[0],
        wb[1],
        0x03,
        0x00,
        sampling,
        0x00,
        0x01,
        0x11,
        0x01,
        0x02,
        0x11,
        0x01,
    ];
    append(p, &frame);
    let ghost after_frame = p@;
    let _ = make_huffman_header(p, &LUM_DC_CODELENS, &LUM_DC_SYMBOLS, 0, 0);
    let _ = make_huffman_header(p, &LUM_AC_CODELENS, &LUM_AC_SYMBOLS, 0, 1);
    let _ = make_huffman_header(p, &CHM_DC_CODELENS, &CHM_DC_SYMBOLS, 1, 0);
    let _ = make_huffman_header(p, &CHM_AC_CODELENS, &CHM_AC_SYMBOLS, 1, 1);
    let ghost after_huffman = p@;
    let scan: [u8; 14] = [0xFF, 0xDA, 0x00, 0x0C, 0x03, 0x00, 0x00, 0x01, 0x11, 0x02, 0x11, 0x00, 63, 0x00];
    append(p, &scan);
    proof {
        assert(soi@ =~= seq![0xFFu8, 0xD8]);
        assert(frame@ =~= spec_frame_segment(headers_type, w, h));
        assert(scan@ =~= spec_scan_segment());
        assert(after_tables =~= start + seq![0xFFu8, 0xD8] + spec_quant_segment(lqt@, 0)
            + spec_quant_segment(cqt@, 1));
        let dri_part = if dri != 0 { spec_dri_segment(dri) } else { Seq::<u8>::empty() };
        assert(after_dri =~= after_tables + dri_part);
        assert(after_huffman =~= after_frame + spec_huffman_segments());
        assert(p@ =~= start + spec_headers(headers_type, blocks_w, blocks_h, lqt@, cqt@, dri));
    }
    Ok(())
}

/// The image `create_image` appends: the headers for the main header's
/// type, size and restart interval, the payloads, and the EOI marker.
pub open spec fn spec_image(
    packet_type: u8,
    width: u16,
    height: u16,
    dri: u16,
    lqt: Seq<u8>,
    cqt: Seq<u8>,
    payloads: Seq<u8>,
) -> Seq<u8> {
    spec_headers(packet_type % 64, width / 8, height / 8, lqt, cqt, dri) + payloads + seq![
        0xFFu8,
        0xD9,
    ]
}

/// The restart interval an image is built with: that of the restart
/// header, or 0 (no restarts) when there is none.
pub open spec fn spec_restart_interval(h: Option<JpegRestartHeader>) -> u16 {
    match h {
        Some(r) => r.restart_interval,
        None => 0,
    }
}

/// Builds a JPEG image from the main header of its first packet and the
/// payloads of all its packets, appending it to `out_buffer`.
///
/// The tables `lqt` and `cqt` are filled for the header's Q value when it is
/// below 128 (otherwise they must already hold the tables the stream
/// carried). Packet types above 127 are refused; of the other types, only
/// 0, 1, 64 and 65 are defined. Without a restart header the restart
/// interval is 0: the image has no DRI segment.
#[verifier::spinoff_prover]
pub fn create_image(
    out_buffer: &mut Vec<u8>,
    jpeg_main_header: &JpegMainHeader,
    all_payloads: &mut [u8],
    lqt: &mut [u8; 64],
    cqt: &mut [u8; 64],
    _thumbnail: Option<Thumbnail>,
) -> (r: Result<(), Error>)
    requires
        jpeg_main_header.packet_type <= 127 ==> jpeg_main_header.packet_type % 64 <= 1,
    ensures
        final(all_payloads)@ == old(all_payloads)@,
        jpeg_main_header.packet_type > 127 ==> {
            &&& r == Err::<(), Error>(
                Error::Custom("JPEG packet types above 127 are not implemented."),
            )
            &&& final(out_buffer)@ == old(out_buffer)@
            &&& final(lqt)@ == old(lqt)@
            &&& final(cqt)@ == old(cqt)@
        },
        jpeg_main_header.packet_type <= 127 ==> {
            &&& r is Ok
            &&& (jpeg_main_header.quantization >= 128 ==> final(lqt)@ == old(lqt)@ && final(cqt)@
                == old(cqt)@)
            &&& (jpeg_main_header.quantization < 128 ==> forall|i: int|
                0 <= i < 64 ==> {
                    &&& #[trigger] final(lqt)@[i] == spec_scaled_quantizer(
                        JPEG_LUMA_QUANTIZER@[i],
                        spec_quality_scale(jpeg_main_header.quantization as i32),
                    )
                    &&& final(cqt)@[i] == spec_scaled_quantizer(
                        JPEG_CHROMA_QUANTIZER@[i],
                        spec_quality_scale(jpeg_main_header.quantization as i32),
                    )
                })
            &&& final(out_buffer)@ == old(out_buffer)@ + spec_image(
                jpeg_main_header.packet_type,
                jpeg_main_header.width,
                jpeg_main_header.height,
                spec_restart_interval(jpeg_main_header.restart_header),
                final(lqt)@,
                final(cqt)@,
                old(all_payloads)@,
            )
        },
{
    if jpeg_main_header.packet_type > 127 {
        return Err(Error::Custom("JPEG packet types above 127 are not implemented."));
    }
    let packet_type = jpeg_main_header.packet_type % 64;
    make_tables(jpeg_main_header.quantization as i32, lqt, cqt);
    let ghost tables = (lqt@, cqt@);
    let dri = match &jpeg_main_header.restart_header {
        Some(restart) => restart.restart_interval,
        None => 0,
    };
    let ghost start = out_buffer@;
    let _ = make_headers(
        out_buffer,
        packet_type,
        jpeg_main_header.width / 8,
        jpeg_main_header.height / 8,
        lqt,
        cqt,
        dri,
    );
    append(out_buffer, all_payloads);
    let eoi: [u8; 2] = [0xFF, 0xD9];
    append(out_buffer, &eoi);
    proof {
        assert(lqt@ == tables.0 && cqt@ == tables.1);
        assert(eoi@ =~= seq![0xFFu8, 0xD9]);
        assert(out_buffer@ =~= start + spec_image(
            jpeg_main_header.packet_type,
            jpeg_main_header.width,
            jpeg_main_header.height,
            dri,
            lqt@,
            cqt@,
            all_payloads@,
        ));
    }
    Ok(())
}

/// Every image `create_image` builds starts with the SOI marker and ends
/// with the EOI marker, and carries the payloads just before the EOI marker.
pub proof fn lemma_image_framing(
    packet_type: u8,
    width: u16,
    height: u16,
    dri: u16,
    lqt: Seq<u8>,
    cqt: Seq<u8>,
    payloads: Seq<u8>,
)
    ensures
        ({
            let img = spec_image(packet_type, width, height, dri, lqt, cqt, payloads);
            &&& img[0] == 0xFF
            &&& img[1] == 0xD8
            &&& img[img.len() - 2] == 0xFF
            &&& img[img.len() - 1] == 0xD9
            &&& img.subrange(img.len() - 2 - payloads.len(), img.len() - 2) == payloads
        }),
{
    let img = spec_image(packet_type, width, height, dri, lqt, cqt, payloads);
    let headers = spec_headers(packet_type % 64, width / 8, height / 8, lqt, cqt, dri);
    assert(img.subrange(img.len() - 2 - payloads.len(), img.len() - 2) =~= payloads);
}

} // verus!

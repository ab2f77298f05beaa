use takeflight::error::Error;
use takeflight::video::nalu::{Nal, NriPriority};
use takeflight::video::rfc2435::{create_image, make_headers};
use takeflight::video::rtp::{
    JpegMainHeader, JpegQuantizationTableHeader, JpegRestartHeader, RTPHeader, Thumbnail,
};

#[test]
fn rtp_header_fields() {
    let bytes = [0x80, 0xe0, 0x01, 0x02, 1, 0, 0, 0, 0xde, 0xad, 0xbe, 0xef, 0x55];
    let (h, n) = RTPHeader::from_stream(&bytes).unwrap();
    assert_eq!(n, 12);
    assert_eq!(h.version, 2);
    assert_eq!(h.payload_type, 96);
    assert!(h.is_last_in_frame);
    assert_eq!(h.sequence_number, 0x0201);
    assert_eq!(h.timestamp, 1);
    assert_eq!(h.ssrc, 0xefbeadde);
}

#[test]
fn rtp_header_short_stream_reads_zeros() {
    let (h, n) = RTPHeader::from_stream(&[0x80, 0x1a]).unwrap();
    assert_eq!(n, 2);
    assert_eq!(h.payload_type, 26);
    assert!(!h.is_last_in_frame);
    assert_eq!((h.sequence_number, h.timestamp, h.ssrc), (0, 0, 0));
}

#[test]
fn restart_header_flags() {
    let (r, n) = JpegRestartHeader::from_stream(&[0x00, 0x10, 0xc5, 0x02]).unwrap();
    assert_eq!(n, 4);
    assert_eq!(r.restart_interval, 16);
    assert!(r.f);
    assert!(r.l);
    assert_eq!(r.restart_count, 0x0205);
    let (short, m) = JpegRestartHeader::from_stream(&[0x01]).unwrap();
    assert_eq!(m, 1);
    assert_eq!(short.restart_interval, 0x0100);
    assert_eq!(short.restart_count, 0);
}

#[test]
fn quantization_table_header() {
    let (q, n) = JpegQuantizationTableHeader::from_stream(&[0, 0, 0x00, 0x03, 7, 8, 9, 10]).unwrap();
    assert_eq!(n, 7);
    assert_eq!(q.table, vec![7, 8, 9]);
    assert_eq!(
        JpegQuantizationTableHeader::from_stream(&[0, 0, 0, 5, 1]),
        Err(Error::UnexpectedEof)
    );
    // A stream that runs dry before the length reads a zero length.
    let (empty, m) = JpegQuantizationTableHeader::from_stream(&[5]).unwrap();
    assert_eq!((empty.mbz, empty.table.len(), m), (5, 0, 1));
}

fn main_header_bytes() -> Vec<u8> {
    vec![1, 0x00, 0x01, 0x02, 65, 255, 80, 60, 0, 8, 0, 0, 0, 0, 0, 2, 11, 12, 99]
}

#[test]
fn jpeg_main_header_with_both_extra_headers() {
    let bytes = main_header_bytes();
    let (h, n) = JpegMainHeader::from_stream(&bytes, false).unwrap();
    assert_eq!(n, 18);
    assert_eq!(h.type_specific, 1);
    assert_eq!(h.fragment_offset, 0x000102);
    assert_eq!((h.packet_type, h.quantization), (65, 255));
    assert_eq!((h.width, h.height), (640, 480));
    assert_eq!(h.restart_header.unwrap().restart_interval, 8);
    assert_eq!(h.quantization_header.as_ref().unwrap().table, vec![11, 12]);
    assert!(h.is_image_start());
}

#[test]
fn jpeg_main_header_ignoring_quantization() {
    let bytes = main_header_bytes();
    let (h, n) = JpegMainHeader::from_stream(&bytes, true).unwrap();
    assert_eq!(n, 12);
    assert!(h.quantization_header.is_none());
    assert!(!h.is_image_start());
}

#[test]
fn jpeg_main_header_too_short() {
    assert_eq!(
        JpegMainHeader::from_stream(&[1, 2, 3, 4, 5, 6, 7], false),
        Err(Error::UnexpectedEof)
    );
    // The quantization table runs past the end.
    let bytes = [0, 0, 0, 0, 0, 200, 1, 1, 0, 0, 0, 9, 1];
    assert_eq!(JpegMainHeader::from_stream(&bytes, false), Err(Error::UnexpectedEof));
}

#[test]
fn headers_layout() {
    let mut p = Vec::new();
    let mut lqt = [1u8; 64];
    let mut cqt = [2u8; 64];
    make_headers(&mut p, 0, 2, 1, &mut lqt, &mut cqt, 0).unwrap();
    assert_eq!(p.len(), 605);
    assert_eq!(&p[..5], &[0xff, 0xd8, 0xff, 0xdb, 0x00]);
    assert_eq!(p[6], 0);
    assert_eq!(p[7], 1);
    assert_eq!(p[2 + 69 + 4], 1);
    // The frame header follows the two tables.
    assert_eq!(&p[140..151], &[0xff, 0xc0, 0x00, 0x11, 0x08, 0x00, 0x08, 0x00, 0x10, 0x03, 0x00]);
    assert_eq!(p[151], 0x21);
    assert_eq!(&p[p.len() - 14..p.len() - 10], &[0xff, 0xda, 0x00, 0x0c]);

    let mut q = Vec::new();
    make_headers(&mut q, 1, 2, 1, &mut lqt, &mut cqt, 0x0102).unwrap();
    assert_eq!(q.len(), 611);
    assert_eq!(&q[140..146], &[0xff, 0xdd, 0x00, 0x04, 0x01, 0x02]);
    assert_eq!(q[157], 0x22);
}

#[test]
fn image_from_payloads() {
    let header = JpegMainHeader {
        type_specific: 0,
        fragment_offset: 0,
        packet_type: 65,
        quantization: 50,
        width: 16,
        height: 8,
        restart_header: Some(JpegRestartHeader { restart_interval: 0, f: false, l: false, restart_count: 0 }),
        quantization_header: None,
    };
    let mut out = Vec::new();
    let mut payload = [1u8, 2, 3];
    let mut lqt = [0u8; 64];
    let mut cqt = [0u8; 64];
    let thumbnail: Option<Thumbnail> = None;
    create_image(&mut out, &header, &mut payload, &mut lqt, &mut cqt, thumbnail).unwrap();
    // Q = 50 scales by 100%: the standard tables as they are.
    assert_eq!(lqt[0], 16);
    assert_eq!(lqt[63], 99);
    assert_eq!(cqt[0], 17);
    assert_eq!(out.len(), 610);
    assert_eq!(&out[..2], &[0xff, 0xd8]);
    assert_eq!(&out[out.len() - 5..], &[1, 2, 3, 0xff, 0xd9]);
    // Type 65 is type 1 with restart markers: 2x2 subsampling.
    assert_eq!(out[151], 0x22);
}

#[test]
fn image_without_restart_header_has_no_dri_segment() {
    let header = JpegMainHeader {
        type_specific: 0,
        fragment_offset: 0,
        packet_type: 1,
        quantization: 50,
        width: 16,
        height: 8,
        restart_header: None,
        quantization_header: None,
    };
    let mut out = Vec::new();
    let mut payload = [1u8, 2, 3];
    let mut lqt = [0u8; 64];
    let mut cqt = [0u8; 64];
    create_image(&mut out, &header, &mut payload, &mut lqt, &mut cqt, None).unwrap();
    // The same bytes as the headers built with a restart interval of 0.
    let mut expected = Vec::new();
    let (mut l2, mut c2) = (lqt, cqt);
    make_headers(&mut expected, 1, 2, 1, &mut l2, &mut c2, 0).unwrap();
    expected.extend_from_slice(&[1, 2, 3, 0xff, 0xd9]);
    assert_eq!(out, expected);
    assert!(!out.windows(2).any(|w| w == [0xff, 0xdd]));
}

#[test]
fn image_quality_scaling() {
    let mut header = JpegMainHeader {
        type_specific: 0,
        fragment_offset: 0,
        packet_type: 0,
        quantization: 1,
        width: 8,
        height: 8,
        restart_header: Some(JpegRestartHeader { restart_interval: 0, f: false, l: false, restart_count: 0 }),
        quantization_header: None,
    };
    let mut out = Vec::new();
    let mut payload = [0u8; 0];
    let mut lqt = [0u8; 64];
    let mut cqt = [0u8; 64];
    create_image(&mut out, &header, &mut payload, &mut lqt, &mut cqt, None).unwrap();
    // Q = 1 scales by 5000%: clamped to 255.
    assert_eq!(lqt[0], 255);
    // Q = 99 scales by 2%.
    header.quantization = 99;
    create_image(&mut out, &header, &mut payload, &mut lqt, &mut cqt, None).unwrap();
    assert_eq!(lqt[0], 1);
    assert_eq!(lqt[63], 2);
    // Q of 128 and above keeps the tables given.
    header.quantization = 200;
    let mut given = [7u8; 64];
    create_image(&mut out, &header, &mut payload, &mut given, &mut cqt, None).unwrap();
    assert_eq!(given, [7u8; 64]);
}

#[test]
fn image_type_above_127_is_refused() {
    let header = JpegMainHeader {
        type_specific: 0,
        fragment_offset: 0,
        packet_type: 200,
        quantization: 50,
        width: 8,
        height: 8,
        restart_header: None,
        quantization_header: None,
    };
    let mut out = vec![9u8];
    let mut payload = [1u8];
    let mut lqt = [0u8; 64];
    let mut cqt = [0u8; 64];
    let r = create_image(&mut out, &header, &mut payload, &mut lqt, &mut cqt, None);
    assert_eq!(r, Err(Error::Custom("JPEG packet types above 127 are not implemented.")));
    assert_eq!(out, vec![9u8]);
}

#[test]
fn nal_header_byte() {
    assert!(0x65u8.is_forbidden());
    assert!(!0xe5u8.is_forbidden());
    assert_eq!(0x65u8.nri(), NriPriority::Highest);
    assert_eq!(0x45u8.nri(), NriPriority::High);
    assert_eq!(0x25u8.nri(), NriPriority::Low);
    assert_eq!(0x05u8.nri(), NriPriority::Lowest);
    assert_eq!(0x65u8.unit_type(), 5);
    assert_eq!(0xffu8.unit_type(), 31);
}

#[test]
fn higher_quality_never_gives_coarser_tables() {
    let header = |q: u8| JpegMainHeader {
        type_specific: 0,
        fragment_offset: 0,
        packet_type: 0,
        quantization: q,
        width: 8,
        height: 8,
        restart_header: None,
        quantization_header: None,
    };
    let tables = |q: u8| {
        let (mut out, mut payload, mut lqt, mut cqt) = (Vec::new(), [0u8; 0], [0u8; 64], [0u8; 64]);
        create_image(&mut out, &header(q), &mut payload, &mut lqt, &mut cqt, None).unwrap();
        (lqt, cqt)
    };
    let (l10, c10) = tables(10);
    let (l90, c90) = tables(90);
    for i in 0..64 {
        assert!(1 <= l90[i] && l90[i] <= l10[i]);
        assert!(1 <= c90[i] && c90[i] <= c10[i]);
    }
    assert!(l90[0] < l10[0]);
}

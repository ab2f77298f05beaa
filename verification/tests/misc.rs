use takeflight::drone_interface::ConnectionState;
use takeflight::drone_pro::{create_command, rtsp_session_id, spin_rotors, DroneCommandState, DroneProVideo};
use takeflight::error::Error;
use takeflight::network::SSIDs;
use takeflight::vision::{digits_from_points, BoundBox, Coord2D, Coord3D, DigitIndices, Hand, PointIndices};

#[test]
fn drone_pro_commands() {
    assert_eq!(
        create_command(0, 0, 0, 0, DroneCommandState::Takeoff),
        [0x03, 0x66, 0x80, 0x80, 0x80, 0x80, 0x01, 0x01, 0x99]
    );
    assert_eq!(
        create_command(0, 0, -0x6b, 0, DroneCommandState::BasicMovement),
        [0x03, 0x66, 0x80, 0x80, 0x15, 0x80, 0x00, 0x95, 0x99]
    );
    assert_eq!(
        create_command(0x25, -0x02, 0, 0x58, DroneCommandState::EmergencyLand),
        [0x03, 0x66, 0xa5, 0x7e, 0x80, 0xd8, 0x04, 0x25 ^ 0xfe ^ 0x58 ^ 0x04, 0x99]
    );
    assert_eq!(spin_rotors(0x10), [0x03, 0x66, 0x80, 0x80, 0x10, 0x80, 0x00, 0x90, 0x99]);
}

#[test]
fn digits_group_the_landmarks() {
    let points: Vec<u32> = (0..63).collect();
    let digits = digits_from_points(&points);
    let thumb_base = digits[DigitIndices::Thumb as usize][0];
    assert_eq!((thumb_base.x, thumb_base.y, thumb_base.z), (3, 4, 5));
    let pinky_tip = digits[DigitIndices::Pinky as usize][3];
    let tip = PointIndices::PinkyTip as u32;
    assert_eq!((pinky_tip.x, pinky_tip.y, pinky_tip.z), (3 * tip, 3 * tip + 1, 3 * tip + 2));
    let index_mcp = digits[DigitIndices::Index as usize][0];
    assert_eq!(index_mcp.x, 3 * PointIndices::IndexFingerMCP as u32);
}

#[test]
fn plain_types() {
    let c = Coord3D { x: 1.5f32, y: 2.0, z: -1.0 };
    let d = c;
    assert_eq!(d.x, 1.5);
    let e = Coord2D { x: 1, y: 2 };
    assert_eq!(e.x + e.y, 3);
    let b = BoundBox { x: 0.5f32, y: 0.5, w: 1.0, h: 1.0 };
    assert_eq!(b.w * b.h, 1.0);
    assert_ne!(Hand::Left, Hand::Right);
    assert_ne!(ConnectionState::Connected, ConnectionState::Disconnected);
    let s = SSIDs { ssids: vec!["Hello".to_string()] };
    assert_eq!(s.ssids.len(), 1);
}

fn drone_pro_datagram(last: bool, jpeg: &[u8], payload: &[u8]) -> Vec<u8> {
    let mut d = vec![0x80, if last { 0x9a } else { 0x1a }, 0, 0, 0, 0, 0, 0, 0, 0, 0, 0];
    d.extend_from_slice(jpeg);
    d.extend_from_slice(payload);
    d
}

fn image_start_header() -> Vec<u8> {
    // type 1, Q 255, 16x8 pixels, then a restart header (interval 0) and a
    // 128-byte quantization table.
    let mut h = vec![0, 0, 0, 0, 65, 255, 2, 1, 0, 0, 0xff, 0xff, 0, 0, 0, 128];
    h.extend((0..128u32).map(|i| (i % 50 + 1) as u8));
    h
}

#[test]
fn drone_pro_video_reassembles_a_frame() {
    let mut video = DroneProVideo::new();
    let first = drone_pro_datagram(false, &image_start_header(), &[1, 2, 3]);
    assert_eq!(video.receive_datagram(&first), Ok(None));
    assert_eq!(video.inner_raw_img_buf, vec![1, 2, 3]);
    assert!(video.inner_main_jpg_header.is_some());
    let second = drone_pro_datagram(true, &[0, 0, 0, 3, 65, 0, 2, 1, 0, 0, 0xff, 0xff], &[4, 5]);
    let image = video.receive_datagram(&second).unwrap().unwrap();
    assert_eq!(&image[..2], &[0xff, 0xd8]);
    assert_eq!(&image[image.len() - 7..], &[1, 2, 3, 4, 5, 0xff, 0xd9]);
    assert!(video.inner_main_jpg_header.is_none());
    assert!(video.inner_raw_img_buf.is_empty());
}

#[test]
fn drone_pro_video_drops_a_frame_without_its_start() {
    let mut video = DroneProVideo::new();
    let last = drone_pro_datagram(true, &[0, 0, 0, 3, 65, 0, 2, 1, 0, 0, 0xff, 0xff], &[4, 5]);
    assert_eq!(video.receive_datagram(&last), Ok(None));
    assert!(video.inner_raw_img_buf.is_empty());
}

#[test]
fn drone_pro_video_refuses_high_packet_types() {
    let mut video = DroneProVideo::new();
    let mut h = image_start_header();
    h[4] = 200;
    let d = drone_pro_datagram(true, &h, &[9]);
    assert_eq!(
        video.receive_datagram(&d),
        Err(Error::Custom("JPEG packet types above 127 are not implemented."))
    );
    assert_eq!(video.inner_raw_img_buf, vec![9]);
}

#[test]
fn drone_pro_video_reports_a_short_jpeg_header() {
    let mut video = DroneProVideo::new();
    let d = drone_pro_datagram(false, &[], &[]);
    assert_eq!(video.receive_datagram(&d), Err(Error::UnexpectedEof));
    video.cleanup_image();
    assert!(video.inner_raw_img_buf.is_empty());
}

#[test]
fn rtsp_session_is_read_from_the_setup_reply() {
    let reply = b"RTSP/1.0 200 OK\r\nCSeq: 3\r\nSession: 12345678;timeout=60\r\n\r\n";
    assert_eq!(rtsp_session_id(reply), b"12345678;timeout=60".to_vec());
    assert_eq!(rtsp_session_id(b"RTSP/1.0 200 OK\r\nCSeq: 3\r\n\r\n"), Vec::<u8>::new());
    assert_eq!(rtsp_session_id(b""), Vec::<u8>::new());
    // The last line naming a session wins; a line without its line feed
    // keeps a final carriage return.
    assert_eq!(rtsp_session_id(b"Session: a\nX-Session: b\r"), b"b\r".to_vec());
    let mut buffer = vec![0u8; 32];
    buffer[..11].copy_from_slice(b"Session: 7\n");
    assert_eq!(rtsp_session_id(&buffer), b"7".to_vec());
}

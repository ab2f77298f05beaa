use takeflight::error::Error;
use takeflight::tello::drone::{CommandReport, TelloDrone, TextReport};
use takeflight::tello::packet::{land, set_sticks_at, takeoff};
use takeflight::tello::video::{ParameterSet, TelloVideo};
use takeflight::tello::video_packet::VideoPacket;

#[test]
fn commands_advance_the_sequence_number() {
    let mut drone = TelloDrone::new();
    assert_eq!(drone.takeoff(), takeoff(0));
    assert_eq!(drone.seq_number, 1);
    assert_eq!(drone.graceful_land(), land(1));
    assert_eq!(drone.seq_number, 2);
    let request = drone.request_sps_pps();
    assert_eq!(&request[5..9], &[0x25, 0x00, 0x00, 0x00]);
    assert_eq!(drone.seq_number, 3);
}

#[test]
fn rc_records_sticks() {
    let mut drone = TelloDrone::new();
    let p = drone.rc(10, 20, 30, 40);
    assert_eq!((drone.forward_percent, drone.sideway_percent), (30, 10));
    assert_eq!((drone.rotate_percent, drone.updown_percent), (40, 20));
    assert_eq!(drone.seq_number, 1);
    let expected = set_sticks_at(0, 30, 10, 40, 20, p[15], p[16], p[17], u16::from_le_bytes([p[18], p[19]]));
    assert_eq!(p, expected);
}

#[test]
fn heartbeat_only_while_flying() {
    let drone = TelloDrone::new();
    assert!(drone.send_heartbeat().is_none());
}

#[test]
fn connect_request_bytes() {
    assert_eq!(TelloDrone::connect_request(0x1234), *b"conn_req:\x34\x12");
}

fn message(id: [u8; 2], payload: &[u8]) -> (Vec<u8>, usize) {
    let mut buf = vec![0xcc, 0, 0, 0, 0x48, id[0], id[1], 0, 0];
    buf.extend_from_slice(payload);
    buf.extend_from_slice(&[0, 0]);
    let n = buf.len();
    buf.resize(4096, 0);
    (buf, n)
}

#[test]
fn flight_status_updates_battery() {
    let mut drone = TelloDrone::new();
    let mut payload = [0u8; 24];
    payload[12] = 77;
    let (buf, n) = message([0x56, 0x00], &payload);
    assert_eq!(
        drone.handle_cmd_bytes(&buf, n),
        Ok(CommandReport::FlightStatus { battery_percent: 77, battery_changed: true })
    );
    assert_eq!(drone.battery_percent, 77);
    assert_eq!(
        drone.handle_cmd_bytes(&buf, n),
        Ok(CommandReport::FlightStatus { battery_percent: 77, battery_changed: false })
    );
}

#[test]
fn other_binary_messages() {
    let mut drone = TelloDrone::new();
    let (buf, n) = message([0x1a, 0x00], &[55, 12]);
    assert_eq!(
        drone.handle_cmd_bytes(&buf, n),
        Ok(CommandReport::WifiStatus { wifi_percent: 55, interference_percent: 12 })
    );
    let (buf, n) = message([0x35, 0x00], &[0]);
    assert_eq!(drone.handle_cmd_bytes(&buf, n), Ok(CommandReport::LightStrength { good: false }));
    let (buf, n) = message([0x54, 0x00], &[]);
    assert_eq!(drone.handle_cmd_bytes(&buf, n), Ok(CommandReport::TakeOff));
    let (buf, n) = message([0x43, 0x00], &[]);
    assert_eq!(drone.handle_cmd_bytes(&buf, n), Ok(CommandReport::Error1));
    let (buf, n) = message([0x50, 0x10], &[]);
    assert_eq!(drone.handle_cmd_bytes(&buf, n), Ok(CommandReport::LogHeader));
}

#[test]
fn connection_acknowledgement() {
    let mut drone = TelloDrone::new();
    let mut buf = b"conn_ack:\x39\x30".to_vec();
    let n = buf.len();
    buf.resize(64, 0);
    assert_eq!(drone.handle_cmd_string(&buf, n, 0x3039), Ok(TextReport::Connected));
    assert!(drone.is_connected);
}

#[test]
fn connection_acknowledgement_wrong_port() {
    let mut drone = TelloDrone::new();
    let buf = b"conn_ack:\x39\x30".to_vec();
    assert_eq!(
        drone.handle_cmd_string(&buf, buf.len(), 0x1111),
        Err(Error::Custom("Received the wrong value as acknowledgment from Tello."))
    );
    assert!(!drone.is_connected);
}

#[test]
fn unknown_command_notice() {
    let mut drone = TelloDrone::new();
    let buf = b"unknown command: flip x".to_vec();
    assert_eq!(drone.handle_cmd_string(&buf, buf.len(), 1), Ok(TextReport::UnknownCommand));
    assert!(!drone.is_connected);
}

#[test]
fn video_packet_classification() {
    let mut sps = vec![3u8, 0x80];
    sps.extend_from_slice(&[7u8; 13]);
    let p = VideoPacket::from_datagram(&sps, 15);
    assert!(p.is_sps() && !p.is_pps() && !p.is_idr());
    assert_eq!(p.payload(), &[7u8; 13]);
    let pps = [3u8, 0x80, 1, 2, 3, 4, 5, 6, 7, 8];
    assert!(VideoPacket::from_datagram(&pps, 10).is_pps());
    let idr = [9u8, 0x01, 0, 0, 0, 1, 0x65, 0xaa];
    let q = VideoPacket::from_datagram(&idr, idr.len());
    assert!(q.is_idr());
    assert_eq!((q.frame_number(), q.local_number()), (9, 1));
    assert!(!q.is_end_of_frame());
    let other = [0x85u8, 0x02, 0, 0, 0, 1, 0x41];
    let r = VideoPacket::from_datagram(&other, other.len());
    assert!(!r.is_idr() && !r.is_sps() && !r.is_pps());
    assert!(r.is_end_of_frame());
    // Only the first `bytes_read` bytes count.
    let s = VideoPacket::from_datagram(&[1, 2, 3, 4, 5], 3);
    assert_eq!(s.payload(), &[3]);
}

#[test]
fn video_frames_are_assembled() {
    let mut video = TelloVideo::new();
    let mut sps = vec![0u8, 0x80];
    sps.extend_from_slice(&[0xa0; 13]);
    let step = video.receive_datagram(&sps);
    assert_eq!(step.updated, Some(ParameterSet::Sps));
    assert!(step.frame.is_none());
    let pps = [0u8, 0x80, 0xb0, 0xb1, 0xb2, 0xb3, 0xb4, 0xb5, 0xb6, 0xb7];
    assert_eq!(video.receive_datagram(&pps).updated, Some(ParameterSet::Pps));
    // Nothing is buffered before the first IDR.
    assert!(video.frame_buffer.is_empty());

    // The IDR of frame 1, in two datagrams.
    let idr_start = [1u8, 0x00, 0, 0, 0, 1, 0x65, 0x11];
    let step = video.receive_datagram(&idr_start);
    assert!(step.frame.is_none() && step.updated.is_none());
    assert_eq!(video.idr_frame_number, Some(1));
    assert_eq!(video.idr, vec![0, 0, 0, 1, 0x65, 0x11]);
    let idr_end = [1u8, 0x81, 0x22];
    assert!(video.receive_datagram(&idr_end).frame.is_none());
    assert_eq!(video.idr, vec![0, 0, 0, 1, 0x65, 0x11, 0x22]);
    assert_eq!(video.frame_buffer, vec![0x22]);

    // Frame 2 finishes the buffered frame.
    let next = [2u8, 0x00, 0x33];
    let step = video.receive_datagram(&next);
    let mut expected = vec![0xa0; 13];
    expected.extend_from_slice(&[0xb0, 0xb1, 0xb2, 0xb3, 0xb4, 0xb5, 0xb6, 0xb7]);
    expected.extend_from_slice(&[0, 0, 0, 1, 0x65, 0x11, 0x22]);
    expected.push(0x22);
    assert_eq!(step.frame, Some(expected));
    assert_eq!(video.vid_frame_number, 2);
    assert_eq!(video.frame_buffer, vec![0x33]);
}

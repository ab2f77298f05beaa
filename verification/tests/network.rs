use takeflight::error::Error;
use takeflight::network::{
    handle_info_packet, handshake_socket_type, image_packet, validate_tokens_exist,
    ClientSocketType, InfoID, InfoPacket, RoShamBo, VideoCode,
};

#[test]
fn info_packet_read() {
    let bytes = [0, 1, 0x00, 0x02, 9, 9, 42];
    let (p, n) = InfoPacket::read(&bytes).unwrap();
    assert_eq!(n, 6);
    assert_eq!(p.id, InfoID::SSIDs);
    assert_eq!(p.play, RoShamBo::Paper);
    assert_eq!(p.payload, vec![9, 9]);
}

#[test]
fn info_packet_read_unknown_codes() {
    let (p, _) = InfoPacket::read(&[77, 77, 0, 0]).unwrap();
    assert_eq!(p.id, InfoID::Invalid);
    assert_eq!(p.play, RoShamBo::Invalid);
}

#[test]
fn info_packet_read_short() {
    assert_eq!(InfoPacket::read(&[0, 1, 0]), Err(Error::UnexpectedEof));
    assert_eq!(InfoPacket::read(&[0, 1, 0, 3, 1, 2]), Err(Error::UnexpectedEof));
}

#[test]
fn info_packet_write() {
    let p = InfoPacket { id: InfoID::RecordRequest, play: RoShamBo::Scissors, payload: vec![5, 6, 7] };
    let mut out = vec![1];
    p.write(&mut out).unwrap();
    assert_eq!(out, vec![1, 2, 2, 0, 3, 5, 6, 7]);
}

#[test]
fn info_packet_roundtrip() {
    let p = InfoPacket { id: InfoID::DroneStateDump, play: RoShamBo::Rock, payload: vec![4; 257] };
    let mut out = Vec::new();
    p.write(&mut out).unwrap();
    assert_eq!(&out[..4], &[1, 0, 1, 1]);
    let (back, n) = InfoPacket::read(&out).unwrap();
    assert_eq!(n, 261);
    assert_eq!(back, p);
    let empty = InfoPacket { id: InfoID::SSIDs, play: RoShamBo::Paper, payload: vec![] };
    let mut out2 = Vec::new();
    empty.write(&mut out2).unwrap();
    assert_eq!(InfoPacket::read(&out2).unwrap().0, empty);
}

#[test]
fn info_packet_length_is_big_endian() {
    let p = InfoPacket { id: InfoID::SSIDs, play: RoShamBo::Rock, payload: vec![0xab] };
    let mut out = Vec::new();
    p.write(&mut out).unwrap();
    assert_eq!(out, vec![0x00, 0x00, 0x00, 0x01, 0xab]);
    out.extend_from_slice(&[9, 9]);
    let (back, n) = InfoPacket::read(&out).unwrap();
    assert_eq!((back, n), (p, 5));
}

#[test]
fn counterplay_cycle() {
    assert_eq!(RoShamBo::Rock.counterplay(), RoShamBo::Paper);
    assert_eq!(RoShamBo::Paper.counterplay(), RoShamBo::Scissors);
    assert_eq!(RoShamBo::Scissors.counterplay(), RoShamBo::Rock);
    assert_eq!(RoShamBo::Invalid.counterplay(), RoShamBo::Invalid);
    let p = RoShamBo::Paper;
    assert_eq!(p.counterplay().counterplay().counterplay(), p);
}

#[test]
fn ssid_reply() {
    let request = InfoPacket { id: InfoID::SSIDs, play: RoShamBo::Scissors, payload: vec![] };
    let reply = handle_info_packet(&request, b"{}".to_vec()).unwrap();
    assert_eq!(reply.id, InfoID::SSIDs);
    assert_eq!(reply.play, RoShamBo::Rock);
    assert_eq!(reply.payload, b"{}".to_vec());
    let invalid = InfoPacket { id: InfoID::Invalid, play: RoShamBo::Rock, payload: vec![] };
    assert_eq!(
        handle_info_packet(&invalid, vec![]),
        Err(Error::Custom("Attempted to handle invalid info packet."))
    );
}

#[test]
fn enum_codes() {
    assert_eq!(u8::from(VideoCode::Jpeg), 26);
    assert_eq!(u8::from(VideoCode::Png), 19);
    assert_eq!(VideoCode::from(19u8), VideoCode::Png);
    assert_eq!(VideoCode::from(3u8), VideoCode::Invalid);
    assert_eq!(u8::from(InfoID::Invalid), 255);
    assert_eq!(InfoID::from(2u8), InfoID::RecordRequest);
    assert_eq!(ClientSocketType::from(3u8), ClientSocketType::Info);
    assert_eq!(u8::from(ClientSocketType::Control), 1);
    assert_eq!(RoShamBo::from(0xffu8), RoShamBo::Invalid);
}

#[test]
fn handshake() {
    assert_eq!(handshake_socket_type([0x42, 0x42, 1]), ClientSocketType::Control);
    assert_eq!(handshake_socket_type([0x42, 0x42, 2]), ClientSocketType::Video);
    assert_eq!(handshake_socket_type([0x42, 0x42, 9]), ClientSocketType::Invalid);
}

#[test]
fn framed_image() {
    assert_eq!(image_packet(VideoCode::Png, &vec![1, 2, 3]), vec![19, 0, 3, 1, 2, 3]);
    let big = vec![0u8; 0x0102];
    let framed = image_packet(VideoCode::Jpeg, &big);
    assert_eq!(&framed[..3], &[26, 1, 2]);
    assert_eq!(framed.len(), 0x0105);
}

#[test]
fn video_tokens() {
    assert_eq!(validate_tokens_exist(Some(1), None), Err(Error::NoVideoTarget));
    assert_eq!(validate_tokens_exist(None, None), Err(Error::NoVideoTarget));
    assert_eq!(validate_tokens_exist(None, Some(2)), Err(Error::NoVideoSource));
    assert_eq!(validate_tokens_exist(Some(1), Some(2)), Ok((1, 2)));
}

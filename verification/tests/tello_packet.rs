use takeflight::error::Error;
use takeflight::tello::crc::{crc16_ref, crc8_ref};
use takeflight::tello::packet::{
    cancel_land, land, packet_size, query_video_bitrate, query_video_sps_pps, request_4_3_video,
    set_sticks, set_sticks_at, strip_payload, takeoff, Command, FlightData,
};

#[test]
fn test_takeoff() {
    let seq = u16::from_be(0x5003);
    let result = takeoff(seq);
    assert_eq!(result, [0xcc, 0x58, 0x00, 0x7c, 0x68, 0x54, 0x00, 0x50, 0x03, 0xde, 0x68]);
}

#[test]
fn test_land() {
    let seq = u16::from_be(0x2a06);
    let result = land(seq);
    assert_eq!(result, [0xcc_u8, 0x60, 0x00, 0x27, 0x68, 0x55, 0x00, 0x2a, 0x06, 0x00, 0xef, 0xca]);
}

#[test]
fn crc_seeds_and_values() {
    assert_eq!(crc8_ref(&[]), 0x77);
    assert_eq!(crc8_ref(&[0xcc, 0x58, 0x00]), 0x7c);
    assert_eq!(crc8_ref(&[0xcc, 0x60, 0x00]), 0x27);
    assert_eq!(crc16_ref(&[]), 0x3692);
    assert_eq!(crc16_ref(&[1, 2, 3]), 0x8544);
}

#[test]
fn cancel_land_packet() {
    assert_eq!(
        cancel_land(0x1234),
        [0xcc, 0x60, 0x00, 0x27, 0x68, 0x55, 0x00, 0x34, 0x12, 0x01, 0x19, 0xbc]
    );
}

#[test]
fn video_query_packets() {
    assert_eq!(
        query_video_bitrate(1),
        [0xcc, 0x58, 0x00, 0x7c, 0x48, 0x28, 0x00, 0x01, 0x00, 0x8a, 0x3d]
    );
    assert_eq!(
        query_video_sps_pps(0),
        [0xcc, 0x58, 0x00, 0x7c, 0x60, 0x25, 0x00, 0x00, 0x00, 0x6c, 0x95]
    );
    assert_eq!(
        request_4_3_video(2),
        [0xcc, 0x58, 0x00, 0x7c, 0x68, 0x31, 0x00, 0x02, 0x00, 0xb1, 0x4d]
    );
}

#[test]
fn packet_size_field() {
    assert_eq!(packet_size(0), [0x58, 0x00]);
    assert_eq!(packet_size(1), [0x60, 0x00]);
    // (8181 + 11) * 8 = 65536 wraps to zero.
    assert_eq!(packet_size(8181), [0x00, 0x00]);
}

#[test]
fn stick_packet_at_a_given_time() {
    let p = set_sticks_at(7, 50, 0, 99, 25, 13, 45, 30, 300);
    assert_eq!(
        p,
        [
            0xcc, 0xb0, 0x00, 0x7f, 0x60, 0x50, 0x00, 0x07, 0x00, 0x21, 0x04, 0x60, 0x10, 0x21,
            0x08, 0x0d, 0x2d, 0x1e, 0x2c, 0x01, 0xe6, 0xb9
        ]
    );
}

#[test]
fn stick_packet_now_carries_a_time_of_day() {
    let p = set_sticks(7, 50, 0, 99, 25);
    // Everything but the time and the CRC is fixed.
    assert_eq!(&p[..15], &[0xcc, 0xb0, 0x00, 0x7f, 0x60, 0x50, 0x00, 0x07, 0x00, 0x21, 0x04, 0x60, 0x10, 0x21, 0x08]);
    assert!(p[15] < 24);
    assert!(p[16] < 60);
    assert!(p[17] < 60);
    assert!(u16::from_le_bytes([p[18], p[19]]) < 2000);
    let expected = set_sticks_at(7, 50, 0, 99, 25, p[15], p[16], p[17], u16::from_le_bytes([p[18], p[19]]));
    assert_eq!(p, expected);
}

#[test]
fn strip_payload_gives_back_the_payload() {
    assert_eq!(strip_payload(&land(9)), &[0x00]);
    assert_eq!(strip_payload(&cancel_land(9)), &[0x01]);
    let empty: &[u8] = &[];
    assert_eq!(strip_payload(&takeoff(9)), empty);
    let sticks = set_sticks_at(1, 0, 0, 0, 0, 1, 2, 3, 4);
    assert_eq!(strip_payload(&sticks).len(), 11);
    assert_eq!(&strip_payload(&sticks)[6..], &[1, 2, 3, 4, 0]);
}

#[test]
fn command_ids() {
    assert_eq!(Command::from_id(0x0054), Command::TakeOff);
    assert_eq!(Command::from_id(0x1052), Command::LogConfig);
    assert_eq!(Command::from_id(0x1234), Command::Undefined);
    assert_eq!(Command::FlightStatus.id(), 0x0056);
    assert_eq!(Command::from_id(Command::WifiStatus.id()), Command::WifiStatus);
}

#[test]
fn flight_data_full_payload() {
    let payload = [
        0x10, 0x02, 0x01, 0x00, 0xff, 0xff, 0x00, 0x01, 0x05, 0x00, 0xa5, 7, 88, 0x34, 0x12, 0xb8,
        0x0f, 0x5a, 6, 1, 2, 3, 0x05, 1,
    ];
    let fd = FlightData::new(&payload).unwrap();
    assert_eq!(fd.height, 0x0210);
    assert_eq!(fd.v_north, 1);
    assert_eq!(fd.v_east, 0xffff);
    assert_eq!(fd.v_vert, 256);
    assert_eq!(fd.fly_time, 5);
    assert!(fd.imu_state && !fd.pressure_state && fd.below_state && !fd.power_state);
    assert!(!fd.battery_state && fd.gravity_state && fd.wind_state);
    assert_eq!(fd.imu_calibration, 7);
    assert_eq!(fd.battery_percent, 88);
    assert_eq!(fd.time_remaining, 0x1234);
    assert_eq!(fd.battery_mvolts, 0x0fb8);
    assert!(!fd.is_flying && fd.is_on_ground && !fd.is_em_open && fd.is_hovering);
    assert!(fd.outage_recording && !fd.is_battery_low && fd.is_battery_crit && !fd.is_factory_mode);
    assert_eq!((fd.fly_mode, fd.throw_fly_timer, fd.camera_state, fd.electrical_machinery_state), (6, 1, 2, 3));
    assert!(fd.front_in && !fd.front_out && fd.front_lsc);
    assert!(fd.error_state);
}

#[test]
fn flight_data_short_payload_reads_zeros() {
    let fd = FlightData::new(&[0x34, 0x12, 0x56]).unwrap();
    assert_eq!(fd.height, 0x1234);
    assert_eq!(fd.v_north, 0x56);
    assert_eq!(fd.v_east, 0);
    assert_eq!(fd.battery_percent, 0);
    assert!(!fd.error_state);
    let empty = FlightData::new(&[]);
    assert!(empty.is_ok());
    let _unused: Option<Error> = None;
}

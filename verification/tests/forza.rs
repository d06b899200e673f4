use logitech_sim_led::forza::packet::{
    i32_at, parse, u16_at, u32_at, DASH_LEN, DASH_TIRE_WEAR_LEN, SLED_LEN,
};
use logitech_sim_led::forza::ForzaSource;

fn put_f32(buf: &mut [u8], offset: usize, value: f32) {
    buf[offset..offset + 4].copy_from_slice(&value.to_le_bytes());
}

fn put_i32(buf: &mut [u8], offset: usize, value: i32) {
    buf[offset..offset + 4].copy_from_slice(&value.to_le_bytes());
}

fn sample(len: usize) -> Vec<u8> {
    let mut buf = vec![0u8; len];
    put_i32(&mut buf, 0, 1);
    buf[4..8].copy_from_slice(&123456u32.to_le_bytes());
    put_f32(&mut buf, 8, 7200.0);
    put_f32(&mut buf, 12, 800.0);
    put_f32(&mut buf, 16, 4213.5);
    put_f32(&mut buf, 32, 3.0);
    put_f32(&mut buf, 36, -4.0);
    put_f32(&mut buf, 40, 12.0);
    put_i32(&mut buf, 212, 2345);
    put_i32(&mut buf, 216, 4);
    put_i32(&mut buf, 220, 801);
    put_i32(&mut buf, 224, 2);
    put_i32(&mut buf, 228, 8);
    if len >= DASH_LEN {
        put_f32(&mut buf, 244, 39.5);
        put_f32(&mut buf, 256, 80.0);
        put_f32(&mut buf, 268, 83.0);
        put_f32(&mut buf, 276, 0.62);
        put_f32(&mut buf, 292, 71.25);
        buf[300..302].copy_from_slice(&3u16.to_le_bytes());
        buf[302] = 2;
        buf[303] = 255;
        buf[304] = 10;
        buf[307] = 4;
        buf[308] = (-64i8) as u8;
        buf[310] = 0x80;
    }
    if len >= DASH_TIRE_WEAR_LEN {
        put_f32(&mut buf, DASH_LEN, 0.1);
        put_f32(&mut buf, DASH_LEN + 12, 0.4);
    }
    buf
}

#[test]
fn too_short_packet_is_rejected() {
    assert!(parse(&[]).is_none());
    assert!(parse(&vec![0u8; SLED_LEN - 1]).is_none());
}

#[test]
fn sled_packet_has_no_dash_block() {
    let pkt = parse(&sample(SLED_LEN)).expect("a Sled-sized packet parses");
    assert!(pkt.dash.is_none());
    assert!(pkt.tire_wear.is_none());
    assert!(pkt.sled.is_race_on);
    assert_eq!(pkt.sled.timestamp_ms, 123456);
    assert_eq!(f32::from_bits(pkt.sled.engine_max_rpm), 7200.0);
    assert_eq!(f32::from_bits(pkt.sled.engine_idle_rpm), 800.0);
    assert_eq!(f32::from_bits(pkt.sled.current_engine_rpm), 4213.5);
    assert_eq!(pkt.sled.velocity.map(f32::from_bits), [3.0, -4.0, 12.0]);
    assert_eq!(pkt.sled.car_ordinal, 2345);
    assert_eq!(pkt.sled.car_class, 4);
    assert_eq!(pkt.sled.car_performance_index, 801);
    assert_eq!(pkt.sled.drivetrain_type, 2);
    assert_eq!(pkt.sled.num_cylinders, 8);
}

#[test]
fn dash_packet_reads_the_dash_block() {
    let pkt = parse(&sample(DASH_LEN)).expect("a Dash packet parses");
    assert!(pkt.tire_wear.is_none());
    let dash = pkt.dash.expect("Dash block present at 311 bytes");
    assert_eq!(f32::from_bits(dash.speed_mps), 39.5);
    assert_eq!(f32::from_bits(dash.tire_temp[0]), 80.0);
    assert_eq!(f32::from_bits(dash.tire_temp[3]), 83.0);
    assert_eq!(f32::from_bits(dash.fuel), 0.62);
    assert_eq!(f32::from_bits(dash.current_lap_s), 71.25);
    assert_eq!(dash.lap_number, 3);
    assert_eq!(dash.race_position, 2);
    assert_eq!(dash.accel, 255);
    assert_eq!(dash.brake, 10);
    assert_eq!(dash.gear, 4);
    assert_eq!(dash.steer, -64);
    assert_eq!(dash.normalized_ai_brake_difference, -128);
}

#[test]
fn longer_packet_reads_the_tire_wear_extension() {
    let pkt = parse(&sample(DASH_TIRE_WEAR_LEN)).expect("parses");
    assert!(pkt.dash.is_some());
    let tw = pkt.tire_wear.expect("tire wear present at 327 bytes");
    assert_eq!(f32::from_bits(tw.front_left), 0.1);
    assert_eq!(f32::from_bits(tw.front_right), 0.0);
    assert_eq!(f32::from_bits(tw.rear_right), 0.4);
    // One byte short of the extension: no tire wear.
    let pkt = parse(&sample(DASH_TIRE_WEAR_LEN - 1)).expect("parses");
    assert!(pkt.tire_wear.is_none());
}

#[test]
fn race_flag_is_any_nonzero_word() {
    let mut buf = sample(SLED_LEN);
    put_i32(&mut buf, 0, 0);
    assert!(!parse(&buf).unwrap().sled.is_race_on);
    put_i32(&mut buf, 0, -7);
    assert!(parse(&buf).unwrap().sled.is_race_on);
}

#[test]
fn little_endian_readers() {
    let buf = [0x01, 0x02, 0x03, 0x04, 0xff, 0xff, 0xff, 0xff];
    assert_eq!(u32_at(&buf, 0), 0x0403_0201);
    assert_eq!(u16_at(&buf, 1), 0x0302);
    assert_eq!(i32_at(&buf, 4), -1);
    assert_eq!(u32_at(&buf, 4), u32::MAX);
}

#[test]
fn source_labels_and_address() {
    let source = ForzaSource::new("0.0.0.0:5300");
    assert_eq!(source.id(), "forza");
    assert_eq!(source.bind_addr(), "0.0.0.0:5300");
    assert_eq!(source.game_label(), "forza");
    let source = source.with_game_label("forza_horizon_5");
    assert_eq!(source.game_label(), "forza_horizon_5");
    assert_eq!(source.bind_addr(), "0.0.0.0:5300");
}

#[test]
fn source_publishes_only_running_races() {
    let source = ForzaSource::new("127.0.0.1:5300");
    let running = sample(DASH_LEN);
    let published = source.packet_to_publish(&running).expect("race on: published");
    assert_eq!(f32::from_bits(published.sled.current_engine_rpm), 4213.5);

    let mut paused = sample(DASH_LEN);
    put_i32(&mut paused, 0, 0);
    assert!(source.packet_to_publish(&paused).is_none());
    assert!(source.packet_to_publish(&running[..100]).is_none());
}

use sigma_racer_sidearm::performance_mode::PerformanceMode;
use sigma_racer_sidearm::signals::M7Signals;
use sigma_racer_sidearm::wire::{decode, encode, MAGIC, PACKET_LEN, VERSION};

fn sample() -> M7Signals {
    M7Signals {
        engine_rpm: 3_500.0f32.to_bits(),
        coolant_c: 82,
        oil_c: 95,
        redline: false,
        throttle_pct: 15.0f32.to_bits(),
        gear: 2,
        performance_mode: PerformanceMode::Sport,
        side_stand: true,
        ground_speed: 60.0f32.to_bits(),
        lean_angle: 5.0f32.to_bits(),
        long_accel: (-0.1f32).to_bits(),
        fuel_pct: 70.0f32.to_bits(),
        battery_v: 13.8f32.to_bits(),
        can_load: 5,
        abs_active: false,
        tc_active: true,
        dtc_count: 0,
        odometer: 12_345.6f32.to_bits(),
        trip1: 10.0f32.to_bits(),
        trip2: 2.5f32.to_bits(),
    }
}

#[test]
fn wire_round_trip() {
    let sample = sample();
    let mut buf = [0u8; 64];
    let n = encode(42, &sample, &mut buf).unwrap();
    assert_eq!(n, PACKET_LEN);
    let mut out = M7Signals::default();
    let seq = decode(&buf[..n], &mut out).unwrap();
    assert_eq!(seq, 42);
    // Every field must survive the round trip byte-exactly.
    assert_eq!(out, sample);
}

#[test]
fn rejects_short_buffers() {
    let sample = M7Signals::default();
    let mut buf = [0u8; 64];
    // A buffer one byte short of a full packet must fail to encode…
    assert_eq!(encode(1, &sample, &mut buf[..PACKET_LEN - 1]), None);
    // …and a full packet truncated by one byte must fail to decode.
    let n = encode(1, &sample, &mut buf).unwrap();
    let mut out = M7Signals::default();
    assert_eq!(decode(&buf[..n - 1], &mut out), None);
}

#[test]
fn header_layout_is_little_endian() {
    let mut buf = [0xAAu8; 64];
    encode(0x1234, &sample(), &mut buf).unwrap();
    assert_eq!(&buf[0..4], &MAGIC.to_le_bytes());
    assert_eq!(&buf[0..4], b"GS7M");
    assert_eq!(&buf[4..6], &VERSION.to_le_bytes());
    assert_eq!(&buf[6..8], &[0x34, 0x12]);
    assert_eq!(&buf[8..12], &3_500.0f32.to_le_bytes());
    assert_eq!(buf[16], 0);
    assert_eq!(buf[22], 2);
    assert_eq!(buf[23], 1);
    // Bytes past the packet are left alone.
    assert_eq!(&buf[60..64], &[0xAA; 4]);
}

#[test]
fn bad_magic_or_version_is_rejected_and_leaves_output() {
    let mut buf = [0u8; 60];
    encode(7, &sample(), &mut buf).unwrap();
    let mut bad_magic = buf;
    bad_magic[0] ^= 1;
    let mut out = M7Signals::default();
    assert_eq!(decode(&bad_magic, &mut out), None);
    assert_eq!(out, M7Signals::default());
    let mut bad_version = buf;
    bad_version[4] = 2;
    assert_eq!(decode(&bad_version, &mut out), None);
    assert_eq!(out, M7Signals::default());
}

#[test]
fn decode_normalizes_flags_and_modes() {
    let mut buf = [0u8; 60];
    encode(9, &M7Signals::default(), &mut buf).unwrap();
    buf[16] = 7; // any nonzero byte is a set flag
    buf[22] = 9; // out-of-table mode
    buf[21] = 0xFF; // reverse gear -1
    let mut out = M7Signals::default();
    assert_eq!(decode(&buf, &mut out), Some(9));
    assert!(out.redline);
    assert_eq!(out.performance_mode, PerformanceMode::Std);
    assert_eq!(out.gear, -1);
}

#[test]
fn negative_temperatures_round_trip() {
    let mut s = M7Signals::default();
    s.coolant_c = -40;
    s.oil_c = i16::MIN;
    s.gear = i8::MIN;
    let mut buf = [0u8; 60];
    encode(u16::MAX, &s, &mut buf).unwrap();
    let mut out = M7Signals::default();
    assert_eq!(decode(&buf, &mut out), Some(u16::MAX));
    assert_eq!(out, s);
}

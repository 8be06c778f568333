use sigma_racer_sidearm::dictionary::{
    apply, frame_payload, message_field, message_field_count, signal_field, signal_value, store, FieldKind,
    SignalField, SignalValue,
};
use sigma_racer_sidearm::performance_mode::PerformanceMode;
use sigma_racer_sidearm::signals::M7Signals;
use sigma_racer_sidearm::{
    CHASSIS_ELECTRICAL, ENGINE_STATUS, M7_HEARTBEAT, MESSAGE_IDS, THROTTLE_GEAR, TRIP_ODOMETER,
    WHEEL_SPEED,
};

#[test]
fn message_ids_in_transmit_order() {
    assert_eq!(MESSAGE_IDS, [0x0A0, 0x0C0, 0x120, 0x200, 0x220]);
    assert_eq!(M7_HEARTBEAT, 0x080);
}

#[test]
fn routes_known_signals() {
    assert_eq!(signal_field(ENGINE_STATUS, "EngineRPM"), Some(SignalField::EngineRpm));
    assert_eq!(signal_field(THROTTLE_GEAR, "PerformanceMode"), Some(SignalField::RideMode));
    assert_eq!(signal_field(WHEEL_SPEED, "LeanAngle"), Some(SignalField::LeanAngle));
    assert_eq!(signal_field(CHASSIS_ELECTRICAL, "DtcCount"), Some(SignalField::DtcCount));
    assert_eq!(signal_field(TRIP_ODOMETER, "Trip2"), Some(SignalField::Trip2));
}

#[test]
fn does_not_route_across_messages_or_unknown_names() {
    assert_eq!(signal_field(ENGINE_STATUS, "LeanAngle"), None);
    assert_eq!(signal_field(M7_HEARTBEAT, "EngineRPM"), None);
    assert_eq!(signal_field(WHEEL_SPEED, "leanangle"), None);
    assert_eq!(signal_field(TRIP_ODOMETER, "Trip3"), None);
}

#[test]
fn every_field_routes_back_to_itself() {
    for id in MESSAGE_IDS {
        let fields = fields_of(id);
        assert!(!fields.is_empty());
        for f in fields {
            assert_eq!(f.message_id(), id);
            assert_eq!(signal_field(id, f.signal_name()), Some(f));
        }
    }
    let total: usize = MESSAGE_IDS.iter().map(|id| fields_of(*id).len()).sum();
    assert_eq!(total, 20);
    assert!(fields_of(M7_HEARTBEAT).is_empty());
}

#[test]
fn encode_order_of_throttle_message() {
    assert_eq!(
        fields_of(THROTTLE_GEAR),
        vec![
            SignalField::ThrottlePos,
            SignalField::CurrentGear,
            SignalField::RideMode,
            SignalField::SideStand
        ]
    );
    assert_eq!(SignalField::RideMode.signal_name(), "PerformanceMode");
}

#[test]
fn apply_updates_only_the_routed_field() {
    let mut out = M7Signals::default();
    apply(ENGINE_STATUS, "CoolantTemp", SignalValue::Int(-12), &mut out);
    let mut expected = M7Signals::default();
    expected.coolant_c = -12;
    assert_eq!(out, expected);
    // A signal of another message, or an unknown one, changes nothing.
    apply(WHEEL_SPEED, "CoolantTemp", SignalValue::Int(99), &mut out);
    apply(ENGINE_STATUS, "Bogus", SignalValue::Int(99), &mut out);
    assert_eq!(out, expected);
}

#[test]
fn apply_narrows_and_maps_modes() {
    let mut out = M7Signals::default();
    apply(THROTTLE_GEAR, "PerformanceMode", SignalValue::Int(3), &mut out);
    assert_eq!(out.performance_mode, PerformanceMode::Track);
    apply(THROTTLE_GEAR, "PerformanceMode", SignalValue::Int(6), &mut out);
    assert_eq!(out.performance_mode, PerformanceMode::Std);
    apply(CHASSIS_ELECTRICAL, "CanBusLoad", SignalValue::Int(300), &mut out);
    assert_eq!(out.can_load, 300i64 as u8);
    apply(ENGINE_STATUS, "Redline", SignalValue::Flag(true), &mut out);
    assert!(out.redline);
    apply(WHEEL_SPEED, "GroundSpeed", SignalValue::Float(128.0f32.to_bits()), &mut out);
    assert_eq!(f32::from_bits(out.ground_speed), 128.0);
}

#[test]
fn store_ignores_value_of_wrong_kind() {
    let mut out = M7Signals::default();
    store(SignalField::Redline, SignalValue::Int(1), &mut out);
    store(SignalField::EngineRpm, SignalValue::Flag(true), &mut out);
    assert_eq!(out, M7Signals::default());
}

#[test]
fn signal_values_and_kinds() {
    let mut s = M7Signals::default();
    s.gear = -1;
    s.performance_mode = PerformanceMode::Sport;
    s.abs_active = true;
    s.engine_rpm = 6_000.0f32.to_bits();
    assert_eq!(signal_value(&s, SignalField::CurrentGear), SignalValue::Int(0));
    s.gear = 3;
    assert_eq!(signal_value(&s, SignalField::CurrentGear), SignalValue::Int(3));
    assert_eq!(signal_value(&s, SignalField::RideMode), SignalValue::Int(2));
    assert_eq!(signal_value(&s, SignalField::AbsActive), SignalValue::Flag(true));
    assert_eq!(
        signal_value(&s, SignalField::EngineRpm),
        SignalValue::Float(6_000.0f32.to_bits())
    );
    assert_eq!(SignalField::EngineRpm.kind(), FieldKind::Float);
    assert_eq!(SignalField::DtcCount.kind(), FieldKind::Int);
    assert_eq!(SignalField::TcActive.kind(), FieldKind::Flag);
}

#[test]
fn value_round_trip_through_dictionary() {
    let mut s = M7Signals::default();
    s.coolant_c = 90;
    s.oil_c = -5;
    s.gear = 4;
    s.performance_mode = PerformanceMode::Rain;
    s.side_stand = true;
    s.dtc_count = 2;
    s.trip1 = 100.0f32.to_bits();
    let mut out = M7Signals::default();
    for id in MESSAGE_IDS {
        for f in fields_of(id) {
            store(f, signal_value(&s, f), &mut out);
        }
    }
    assert_eq!(out, s);
}

#[test]
fn frame_payload_pads_and_truncates() {
    assert_eq!(frame_payload(&[1, 2, 3]), [1, 2, 3, 0, 0, 0, 0, 0]);
    assert_eq!(frame_payload(&[9; 12]), [9; 8]);
    assert_eq!(frame_payload(&[]), [0; 8]);
}

/// The signals of message `id`, in encode order.
fn fields_of(id: u32) -> Vec<SignalField> {
    (0..message_field_count(id)).map(|k| message_field(id, k)).collect()
}

#[test]
fn chassis_message_carries_the_most_signals() {
    assert_eq!(message_field_count(CHASSIS_ELECTRICAL), 6);
    assert_eq!(message_field(CHASSIS_ELECTRICAL, 5), SignalField::DtcCount);
    assert_eq!(message_field_count(M7_HEARTBEAT), 0);
}

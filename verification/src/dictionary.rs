//! The signal dictionary: which message carries which signal, under which
//! DBC name, and which [`crate::M7Signals`] field it fills.
//!
//! The physical values themselves are floating point and are converted by the
//! code that talks to the DBC engine; this module is the routing table that
//! both directions of the CAN codec share.

use vstd::prelude::*;

use crate::message::{
    CHASSIS_ELECTRICAL, ENGINE_STATUS, THROTTLE_GEAR, TRIP_ODOMETER, WHEEL_SPEED,
};
use crate::performance_mode::{spec_mode_from_raw, spec_mode_raw, PerformanceMode};
use crate::signals::M7Signals;
use crate::text::str_eq;

verus! {

/// One signal of the M7 dictionary, named after the [`crate::M7Signals`] field it fills.
#[derive(Debug, Clone, Copy, PartialEq, Eq, Structural)]
pub enum SignalField {
    /// Engine speed (`EngineRPM`, `f32` rpm).
    EngineRpm,
    /// Coolant temperature (`CoolantTemp`, whole °C).
    CoolantTemp,
    /// Oil temperature (`OilTemp`, whole °C).
    OilTemp,
    /// Redline flag (`Redline`).
    Redline,
    /// Throttle position (`ThrottlePos`, `f32` %).
    ThrottlePos,
    /// Current gear (`CurrentGear`, 0 = neutral).
    CurrentGear,
    /// Ride mode (`PerformanceMode`, raw `VAL_` value).
    RideMode,
    /// Side-stand flag (`SideStand`).
    SideStand,
    /// Ground speed (`GroundSpeed`, `f32`).
    GroundSpeed,
    /// Lean angle (`LeanAngle`, `f32` degrees).
    LeanAngle,
    /// Longitudinal acceleration (`LongAccel`, `f32`).
    LongAccel,
    /// Fuel level (`FuelLevel`, `f32` %).
    FuelLevel,
    /// Battery voltage (`BatteryVoltage`, `f32` V).
    BatteryVoltage,
    /// CAN bus load (`CanBusLoad`, whole %).
    CanBusLoad,
    /// ABS intervention flag (`AbsActive`).
    AbsActive,
    /// Traction-control intervention flag (`TcActive`).
    TcActive,
    /// Stored diagnostic trouble codes (`DtcCount`).
    DtcCount,
    /// Odometer (`Odometer`, `f32`).
    Odometer,
    /// Trip meter 1 (`Trip1`, `f32`).
    Trip1,
    /// Trip meter 2 (`Trip2`, `f32`).
    Trip2,
}

/// The message that carries a signal.
pub open spec fn field_message(f: SignalField) -> u32 {
    match f {
        SignalField::EngineRpm => ENGINE_STATUS,
        SignalField::CoolantTemp => ENGINE_STATUS,
        SignalField::OilTemp => ENGINE_STATUS,
        SignalField::Redline => ENGINE_STATUS,
        SignalField::ThrottlePos => THROTTLE_GEAR,
        SignalField::CurrentGear => THROTTLE_GEAR,
        SignalField::RideMode => THROTTLE_GEAR,
        SignalField::SideStand => THROTTLE_GEAR,
        SignalField::GroundSpeed => WHEEL_SPEED,
        SignalField::LeanAngle => WHEEL_SPEED,
        SignalField::LongAccel => WHEEL_SPEED,
        SignalField::FuelLevel => CHASSIS_ELECTRICAL,
        SignalField::BatteryVoltage => CHASSIS_ELECTRICAL,
        SignalField::CanBusLoad => CHASSIS_ELECTRICAL,
        SignalField::AbsActive => CHASSIS_ELECTRICAL,
        SignalField::TcActive => CHASSIS_ELECTRICAL,
        SignalField::DtcCount => CHASSIS_ELECTRICAL,
        SignalField::Odometer => TRIP_ODOMETER,
        SignalField::Trip1 => TRIP_ODOMETER,
        SignalField::Trip2 => TRIP_ODOMETER,
    }
}

/// The DBC name of a signal.
pub open spec fn field_name(f: SignalField) -> Seq<char> {
    match f {
        SignalField::EngineRpm => "EngineRPM"@,
        SignalField::CoolantTemp => "CoolantTemp"@,
        SignalField::OilTemp => "OilTemp"@,
        SignalField::Redline => "Redline"@,
        SignalField::ThrottlePos => "ThrottlePos"@,
        SignalField::CurrentGear => "CurrentGear"@,
        SignalField::RideMode => "PerformanceMode"@,
        SignalField::SideStand => "SideStand"@,
        SignalField::GroundSpeed => "GroundSpeed"@,
        SignalField::LeanAngle => "LeanAngle"@,
        SignalField::LongAccel => "LongAccel"@,
        SignalField::FuelLevel => "FuelLevel"@,
        SignalField::BatteryVoltage => "BatteryVoltage"@,
        SignalField::CanBusLoad => "CanBusLoad"@,
        SignalField::AbsActive => "AbsActive"@,
        SignalField::TcActive => "TcActive"@,
        SignalField::DtcCount => "DtcCount"@,
        SignalField::Odometer => "Odometer"@,
        SignalField::Trip1 => "Trip1"@,
        SignalField::Trip2 => "Trip2"@,
    }
}

/// The field that signal `name` of message `id` fills, if the dictionary has one.
pub open spec fn spec_signal_field(id: u32, name: Seq<char>) -> Option<SignalField> {
    if id == ENGINE_STATUS {
        if name == "EngineRPM"@ {
            Some(SignalField::EngineRpm)
        } else if name == "CoolantTemp"@ {
            Some(SignalField::CoolantTemp)
        } else if name == "OilTemp"@ {
            Some(SignalField::OilTemp)
        } else if name == "Redline"@ {
            Some(SignalField::Redline)
        } else {
            None
        }
    } else if id == THROTTLE_GEAR {
        if name == "ThrottlePos"@ {
            Some(SignalField::ThrottlePos)
        } else if name == "CurrentGear"@ {
            Some(SignalField::CurrentGear)
        } else if name == "PerformanceMode"@ {
            Some(SignalField::RideMode)
        } else if name == "SideStand"@ {
            Some(SignalField::SideStand)
        } else {
            None
        }
    } else if id == WHEEL_SPEED {
        if name == "GroundSpeed"@ {
            Some(SignalField::GroundSpeed)
        } else if name == "LeanAngle"@ {
            Some(SignalField::LeanAngle)
        } else if name == "LongAccel"@ {
            Some(SignalField::LongAccel)
        } else {
            None
        }
    } else if id == CHASSIS_ELECTRICAL {
        if name == "FuelLevel"@ {
            Some(SignalField::FuelLevel)
        } else if name == "BatteryVoltage"@ {
            Some(SignalField::BatteryVoltage)
        } else if name == "CanBusLoad"@ {
            Some(SignalField::CanBusLoad)
        } else if name == "AbsActive"@ {
            Some(SignalField::AbsActive)
        } else if name == "TcActive"@ {
            Some(SignalField::TcActive)
        } else if name == "DtcCount"@ {
            Some(SignalField::DtcCount)
        } else {
            None
        }
    } else if id == TRIP_ODOMETER {
        if name == "Odometer"@ {
            Some(SignalField::Odometer)
        } else if name == "Trip1"@ {
            Some(SignalField::Trip1)
        } else if name == "Trip2"@ {
            Some(SignalField::Trip2)
        } else {
            None
        }
    } else {
        None
    }
}

/// The signals of message `id`, in the order its frame is encoded.
pub open spec fn spec_message_fields(id: u32) -> Seq<SignalField> {
    if id == ENGINE_STATUS {
        seq![SignalField::EngineRpm, SignalField::CoolantTemp, SignalField::OilTemp, SignalField::Redline]
    } else if id == THROTTLE_GEAR {
        seq![SignalField::ThrottlePos, SignalField::CurrentGear, SignalField::RideMode, SignalField::SideStand]
    } else if id == WHEEL_SPEED {
        seq![SignalField::GroundSpeed, SignalField::LeanAngle, SignalField::LongAccel]
    } else if id == CHASSIS_ELECTRICAL {
        seq![SignalField::FuelLevel, SignalField::BatteryVoltage, SignalField::CanBusLoad, SignalField::AbsActive, SignalField::TcActive, SignalField::DtcCount]
    } else if id == TRIP_ODOMETER {
        seq![SignalField::Odometer, SignalField::Trip1, SignalField::Trip2]
    } else {
        Seq::empty()
    }
}

impl SignalField {
    /// The message that carries this signal.
    pub fn message_id(self) -> (r: u32)
        ensures
            r == field_message(self),
    {
        match self {
            SignalField::EngineRpm => ENGINE_STATUS,
            SignalField::CoolantTemp => ENGINE_STATUS,
            SignalField::OilTemp => ENGINE_STATUS,
            SignalField::Redline => ENGINE_STATUS,
            SignalField::ThrottlePos => THROTTLE_GEAR,
            SignalField::CurrentGear => THROTTLE_GEAR,
            SignalField::RideMode => THROTTLE_GEAR,
            SignalField::SideStand => THROTTLE_GEAR,
            SignalField::GroundSpeed => WHEEL_SPEED,
            SignalField::LeanAngle => WHEEL_SPEED,
            SignalField::LongAccel => WHEEL_SPEED,
            SignalField::FuelLevel => CHASSIS_ELECTRICAL,
            SignalField::BatteryVoltage => CHASSIS_ELECTRICAL,
            SignalField::CanBusLoad => CHASSIS_ELECTRICAL,
            SignalField::AbsActive => CHASSIS_ELECTRICAL,
            SignalField::TcActive => CHASSIS_ELECTRICAL,
            SignalField::DtcCount => CHASSIS_ELECTRICAL,
            SignalField::Odometer => TRIP_ODOMETER,
            SignalField::Trip1 => TRIP_ODOMETER,
            SignalField::Trip2 => TRIP_ODOMETER,
        }
    }

    /// The DBC name of this signal.
    pub fn signal_name(self) -> (r: &'static str)
        ensures
            r@ == field_name(self),
    {
        match self {
            SignalField::EngineRpm => "EngineRPM",
            SignalField::CoolantTemp => "CoolantTemp",
            SignalField::OilTemp => "OilTemp",
            SignalField::Redline => "Redline",
            SignalField::ThrottlePos => "ThrottlePos",
            SignalField::CurrentGear => "CurrentGear",
            SignalField::RideMode => "PerformanceMode",
            SignalField::SideStand => "SideStand",
            SignalField::GroundSpeed => "GroundSpeed",
            SignalField::LeanAngle => "LeanAngle",
            SignalField::LongAccel => "LongAccel",
            SignalField::FuelLevel => "FuelLevel",
            SignalField::BatteryVoltage => "BatteryVoltage",
            SignalField::CanBusLoad => "CanBusLoad",
            SignalField::AbsActive => "AbsActive",
            SignalField::TcActive => "TcActive",
            SignalField::DtcCount => "DtcCount",
            SignalField::Odometer => "Odometer",
            SignalField::Trip1 => "Trip1",
            SignalField::Trip2 => "Trip2",
        }
    }
}

/// Route one decoded signal of message `id` to the field it fills. Signals the
/// dictionary does not know, and messages outside it, route nowhere.
pub fn signal_field(id: u32, name: &str) -> (r: Option<SignalField>)
    ensures
        r == spec_signal_field(id, name@),
{
    if id == ENGINE_STATUS {
        if str_eq(name, "EngineRPM") {
            Some(SignalField::EngineRpm)
        } else if str_eq(name, "CoolantTemp") {
            Some(SignalField::CoolantTemp)
        } else if str_eq(name, "OilTemp") {
            Some(SignalField::OilTemp)
        } else if str_eq(name, "Redline") {
            Some(SignalField::Redline)
        } else {
            None
        }
    } else if id == THROTTLE_GEAR {
        if str_eq(name, "ThrottlePos") {
            Some(SignalField::ThrottlePos)
        } else if str_eq(name, "CurrentGear") {
            Some(SignalField::CurrentGear)
        } else if str_eq(name, "PerformanceMode") {
            Some(SignalField::RideMode)
        } else if str_eq(name, "SideStand") {
            Some(SignalField::SideStand)
        } else {
            None
        }
    } else if id == WHEEL_SPEED {
        if str_eq(name, "GroundSpeed") {
            Some(SignalField::GroundSpeed)
        } else if str_eq(name, "LeanAngle") {
            Some(SignalField::LeanAngle)
        } else if str_eq(name, "LongAccel") {
            Some(SignalField::LongAccel)
        } else {
            None
        }
    } else if id == CHASSIS_ELECTRICAL {
        if str_eq(name, "FuelLevel") {
            Some(SignalField::FuelLevel)
        } else if str_eq(name, "BatteryVoltage") {
            Some(SignalField::BatteryVoltage)
        } else if str_eq(name, "CanBusLoad") {
            Some(SignalField::CanBusLoad)
        } else if str_eq(name, "AbsActive") {
            Some(SignalField::AbsActive)
        } else if str_eq(name, "TcActive") {
            Some(SignalField::TcActive)
        } else if str_eq(name, "DtcCount") {
            Some(SignalField::DtcCount)
        } else {
            None
        }
    } else if id == TRIP_ODOMETER {
        if str_eq(name, "Odometer") {
            Some(SignalField::Odometer)
        } else if str_eq(name, "Trip1") {
            Some(SignalField::Trip1)
        } else if str_eq(name, "Trip2") {
            Some(SignalField::Trip2)
        } else {
            None
        }
    } else {
        None
    }
}

/// Most signals a message of the dictionary carries.
pub const MAX_MESSAGE_FIELDS: usize = 6;

/// How many signals message `id` carries (none for an id outside the dictionary).
pub fn message_field_count(id: u32) -> (r: usize)
    ensures
        r == spec_message_fields(id).len(),
        r <= MAX_MESSAGE_FIELDS,
{
    if id == ENGINE_STATUS {
        4
    } else if id == THROTTLE_GEAR {
        4
    } else if id == WHEEL_SPEED {
        3
    } else if id == CHASSIS_ELECTRICAL {
        6
    } else if id == TRIP_ODOMETER {
        3
    } else {
        0
    }
}

/// Signal `k` of message `id`, in the order its frame is encoded.
pub fn message_field(id: u32, k: usize) -> (r: SignalField)
    requires
        k < spec_message_fields(id).len(),
    ensures
        r == spec_message_fields(id)[k as int],
{
    if id == ENGINE_STATUS {
        if k == 0 {
            SignalField::EngineRpm
        } else if k == 1 {
            SignalField::CoolantTemp
        } else if k == 2 {
            SignalField::OilTemp
        } else {
            SignalField::Redline
        }
    } else if id == THROTTLE_GEAR {
        if k == 0 {
            SignalField::ThrottlePos
        } else if k == 1 {
            SignalField::CurrentGear
        } else if k == 2 {
            SignalField::RideMode
        } else {
            SignalField::SideStand
        }
    } else if id == WHEEL_SPEED {
        if k == 0 {
            SignalField::GroundSpeed
        } else if k == 1 {
            SignalField::LeanAngle
        } else {
            SignalField::LongAccel
        }
    } else if id == CHASSIS_ELECTRICAL {
        if k == 0 {
            SignalField::FuelLevel
        } else if k == 1 {
            SignalField::BatteryVoltage
        } else if k == 2 {
            SignalField::CanBusLoad
        } else if k == 3 {
            SignalField::AbsActive
        } else if k == 4 {
            SignalField::TcActive
        } else {
            SignalField::DtcCount
        }
    } else {
        if k == 0 {
            SignalField::Odometer
        } else if k == 1 {
            SignalField::Trip1
        } else {
            SignalField::Trip2
        }
    }
}

/// Within each message the DBC names are pairwise distinct.
proof fn lemma_names_distinct()
    ensures
        "EngineRPM"@ != "CoolantTemp"@,
        "EngineRPM"@ != "OilTemp"@,
        "EngineRPM"@ != "Redline"@,
        "CoolantTemp"@ != "OilTemp"@,
        "CoolantTemp"@ != "Redline"@,
        "OilTemp"@ != "Redline"@,
        "ThrottlePos"@ != "CurrentGear"@,
        "ThrottlePos"@ != "PerformanceMode"@,
        "ThrottlePos"@ != "SideStand"@,
        "CurrentGear"@ != "PerformanceMode"@,
        "CurrentGear"@ != "SideStand"@,
        "PerformanceMode"@ != "SideStand"@,
        "GroundSpeed"@ != "LeanAngle"@,
        "GroundSpeed"@ != "LongAccel"@,
        "LeanAngle"@ != "LongAccel"@,
        "FuelLevel"@ != "BatteryVoltage"@,
        "FuelLevel"@ != "CanBusLoad"@,
        "FuelLevel"@ != "AbsActive"@,
        "FuelLevel"@ != "TcActive"@,
        "FuelLevel"@ != "DtcCount"@,
        "BatteryVoltage"@ != "CanBusLoad"@,
        "BatteryVoltage"@ != "AbsActive"@,
        "BatteryVoltage"@ != "TcActive"@,
        "BatteryVoltage"@ != "DtcCount"@,
        "CanBusLoad"@ != "AbsActive"@,
        "CanBusLoad"@ != "TcActive"@,
        "CanBusLoad"@ != "DtcCount"@,
        "AbsActive"@ != "TcActive"@,
        "AbsActive"@ != "DtcCount"@,
        "TcActive"@ != "DtcCount"@,
        "Odometer"@ != "Trip1"@,
        "Odometer"@ != "Trip2"@,
        "Trip1"@ != "Trip2"@,
{
    reveal_strlit("EngineRPM");
    reveal_strlit("CoolantTemp");
    reveal_strlit("OilTemp");
    reveal_strlit("Redline");
    reveal_strlit("ThrottlePos");
    reveal_strlit("CurrentGear");
    reveal_strlit("PerformanceMode");
    reveal_strlit("SideStand");
    reveal_strlit("GroundSpeed");
    reveal_strlit("LeanAngle");
    reveal_strlit("LongAccel");
    reveal_strlit("FuelLevel");
    reveal_strlit("BatteryVoltage");
    reveal_strlit("CanBusLoad");
    reveal_strlit("AbsActive");
    reveal_strlit("TcActive");
    reveal_strlit("DtcCount");
    reveal_strlit("Odometer");
    reveal_strlit("Trip1");
    reveal_strlit("Trip2");
    assert("EngineRPM"@.len() != "CoolantTemp"@.len());
    assert("EngineRPM"@.len() != "OilTemp"@.len());
    assert("EngineRPM"@.len() != "Redline"@.len());
    assert("CoolantTemp"@.len() != "OilTemp"@.len());
    assert("CoolantTemp"@.len() != "Redline"@.len());
    assert("OilTemp"@[0] != "Redline"@[0]);
    assert("ThrottlePos"@[0] != "CurrentGear"@[0]);
    assert("ThrottlePos"@.len() != "PerformanceMode"@.len());
    assert("ThrottlePos"@.len() != "SideStand"@.len());
    assert("CurrentGear"@.len() != "PerformanceMode"@.len());
    assert("CurrentGear"@.len() != "SideStand"@.len());
    assert("PerformanceMode"@.len() != "SideStand"@.len());
    assert("GroundSpeed"@.len() != "LeanAngle"@.len());
    assert("GroundSpeed"@.len() != "LongAccel"@.len());
    assert("LeanAngle"@[1] != "LongAccel"@[1]);
    assert("FuelLevel"@.len() != "BatteryVoltage"@.len());
    assert("FuelLevel"@.len() != "CanBusLoad"@.len());
    assert("FuelLevel"@[0] != "AbsActive"@[0]);
    assert("FuelLevel"@.len() != "TcActive"@.len());
    assert("FuelLevel"@.len() != "DtcCount"@.len());
    assert("BatteryVoltage"@.len() != "CanBusLoad"@.len());
    assert("BatteryVoltage"@.len() != "AbsActive"@.len());
    assert("BatteryVoltage"@.len() != "TcActive"@.len());
    assert("BatteryVoltage"@.len() != "DtcCount"@.len());
    assert("CanBusLoad"@.len() != "AbsActive"@.len());
    assert("CanBusLoad"@.len() != "TcActive"@.len());
    assert("CanBusLoad"@.len() != "DtcCount"@.len());
    assert("AbsActive"@.len() != "TcActive"@.len());
    assert("AbsActive"@.len() != "DtcCount"@.len());
    assert("TcActive"@[0] != "DtcCount"@[0]);
    assert("Odometer"@.len() != "Trip1"@.len());
    assert("Odometer"@.len() != "Trip2"@.len());
    assert("Trip1"@[4] != "Trip2"@[4]);
}

/// Every signal routes back to itself: the field that message
/// `field_message(f)` fills under the name `field_name(f)` is `f`.
pub proof fn law_signal_routes_to_itself(f: SignalField)
    ensures
        spec_signal_field(field_message(f), field_name(f)) == Some(f),
{
    lemma_names_distinct();
}

/// A routed signal belongs to the message it arrived in and has the name it
/// arrived under.
pub proof fn law_routing_exact(id: u32, name: Seq<char>)
    ensures
        spec_signal_field(id, name) matches Some(f) ==> field_message(f) == id && field_name(f)
            == name,
{
}

/// Each message encodes exactly the signals that route to it: every signal is
/// listed in its own message's frame, and every listed signal belongs there.
pub proof fn law_message_fields_cover(f: SignalField, id: u32)
    ensures
        spec_message_fields(field_message(f)).contains(f),
        spec_message_fields(id).contains(f) ==> field_message(f) == id,
{
    let s = spec_message_fields(field_message(f));
    assert(exists|i: int| 0 <= i < s.len() && s[i] == f);
    if spec_message_fields(id).contains(f) {
        let t = spec_message_fields(id);
        let i = choose|i: int| 0 <= i < t.len() && t[i] == f;
    }
}


/// How a signal's physical value is carried between the DBC engine and [`M7Signals`].
#[derive(Debug, Clone, Copy, PartialEq, Eq, Structural)]
pub enum FieldKind {
    /// An `f32` reading, kept as its bit pattern.
    Float,
    /// A whole number (rounded half away from zero when decoded).
    Int,
    /// An on/off flag (nonzero when set).
    Flag,
}

/// A signal's value in the form its field takes.
#[derive(Debug, Clone, Copy, PartialEq, Eq, Structural)]
pub enum SignalValue {
    /// The bit pattern of an `f32` reading.
    Float(u32),
    /// A whole number.
    Int(i64),
    /// A flag.
    Flag(bool),
}

/// How signal `f` is carried.
pub open spec fn field_kind(f: SignalField) -> FieldKind {
    match f {
        SignalField::EngineRpm => FieldKind::Float,
        SignalField::CoolantTemp => FieldKind::Int,
        SignalField::OilTemp => FieldKind::Int,
        SignalField::Redline => FieldKind::Flag,
        SignalField::ThrottlePos => FieldKind::Float,
        SignalField::CurrentGear => FieldKind::Int,
        SignalField::RideMode => FieldKind::Int,
        SignalField::SideStand => FieldKind::Flag,
        SignalField::GroundSpeed => FieldKind::Float,
        SignalField::LeanAngle => FieldKind::Float,
        SignalField::LongAccel => FieldKind::Float,
        SignalField::FuelLevel => FieldKind::Float,
        SignalField::BatteryVoltage => FieldKind::Float,
        SignalField::CanBusLoad => FieldKind::Int,
        SignalField::AbsActive => FieldKind::Flag,
        SignalField::TcActive => FieldKind::Flag,
        SignalField::DtcCount => FieldKind::Int,
        SignalField::Odometer => FieldKind::Float,
        SignalField::Trip1 => FieldKind::Float,
        SignalField::Trip2 => FieldKind::Float,
    }
}

/// The snapshot with field `f` set from `v`, when `v` has `f`'s kind; whole
/// numbers are narrowed as `as` narrows them, and the ride mode is read from
/// its raw value. A value of another kind leaves the snapshot as it is.
pub open spec fn spec_store(out: M7Signals, f: SignalField, v: SignalValue) -> M7Signals {
    match (f, v) {
        (SignalField::EngineRpm, SignalValue::Float(b)) => M7Signals { engine_rpm: b, ..out },
        (SignalField::CoolantTemp, SignalValue::Int(i)) => M7Signals { coolant_c: i as i16, ..out },
        (SignalField::OilTemp, SignalValue::Int(i)) => M7Signals { oil_c: i as i16, ..out },
        (SignalField::Redline, SignalValue::Flag(b)) => M7Signals { redline: b, ..out },
        (SignalField::ThrottlePos, SignalValue::Float(b)) => M7Signals { throttle_pct: b, ..out },
        (SignalField::CurrentGear, SignalValue::Int(i)) => M7Signals { gear: i as i8, ..out },
        (SignalField::RideMode, SignalValue::Int(i)) => M7Signals { performance_mode: spec_mode_from_raw(i as u8), ..out },
        (SignalField::SideStand, SignalValue::Flag(b)) => M7Signals { side_stand: b, ..out },
        (SignalField::GroundSpeed, SignalValue::Float(b)) => M7Signals { ground_speed: b, ..out },
        (SignalField::LeanAngle, SignalValue::Float(b)) => M7Signals { lean_angle: b, ..out },
        (SignalField::LongAccel, SignalValue::Float(b)) => M7Signals { long_accel: b, ..out },
        (SignalField::FuelLevel, SignalValue::Float(b)) => M7Signals { fuel_pct: b, ..out },
        (SignalField::BatteryVoltage, SignalValue::Float(b)) => M7Signals { battery_v: b, ..out },
        (SignalField::CanBusLoad, SignalValue::Int(i)) => M7Signals { can_load: i as u8, ..out },
        (SignalField::AbsActive, SignalValue::Flag(b)) => M7Signals { abs_active: b, ..out },
        (SignalField::TcActive, SignalValue::Flag(b)) => M7Signals { tc_active: b, ..out },
        (SignalField::DtcCount, SignalValue::Int(i)) => M7Signals { dtc_count: i as u8, ..out },
        (SignalField::Odometer, SignalValue::Float(b)) => M7Signals { odometer: b, ..out },
        (SignalField::Trip1, SignalValue::Float(b)) => M7Signals { trip1: b, ..out },
        (SignalField::Trip2, SignalValue::Float(b)) => M7Signals { trip2: b, ..out },
        _ => out,
    }
}

/// The value signal `f` is encoded from: the field of `s`, with a negative
/// (reverse) gear sent as 0 and the ride mode as its raw value.
pub open spec fn spec_signal_value(s: M7Signals, f: SignalField) -> SignalValue {
    match f {
        SignalField::EngineRpm => SignalValue::Float(s.engine_rpm),
        SignalField::CoolantTemp => SignalValue::Int(s.coolant_c as i64),
        SignalField::OilTemp => SignalValue::Int(s.oil_c as i64),
        SignalField::Redline => SignalValue::Flag(s.redline),
        SignalField::ThrottlePos => SignalValue::Float(s.throttle_pct),
        SignalField::CurrentGear => SignalValue::Int(if s.gear >= 0 { s.gear as i64 } else { 0 }),
        SignalField::RideMode => SignalValue::Int(spec_mode_raw(s.performance_mode) as i64),
        SignalField::SideStand => SignalValue::Flag(s.side_stand),
        SignalField::GroundSpeed => SignalValue::Float(s.ground_speed),
        SignalField::LeanAngle => SignalValue::Float(s.lean_angle),
        SignalField::LongAccel => SignalValue::Float(s.long_accel),
        SignalField::FuelLevel => SignalValue::Float(s.fuel_pct),
        SignalField::BatteryVoltage => SignalValue::Float(s.battery_v),
        SignalField::CanBusLoad => SignalValue::Int(s.can_load as i64),
        SignalField::AbsActive => SignalValue::Flag(s.abs_active),
        SignalField::TcActive => SignalValue::Flag(s.tc_active),
        SignalField::DtcCount => SignalValue::Int(s.dtc_count as i64),
        SignalField::Odometer => SignalValue::Float(s.odometer),
        SignalField::Trip1 => SignalValue::Float(s.trip1),
        SignalField::Trip2 => SignalValue::Float(s.trip2),
    }
}

/// Whether `a` and `b` agree on field `f`.
pub open spec fn same_field(a: M7Signals, b: M7Signals, f: SignalField) -> bool {
    match f {
        SignalField::EngineRpm => a.engine_rpm == b.engine_rpm,
        SignalField::CoolantTemp => a.coolant_c == b.coolant_c,
        SignalField::OilTemp => a.oil_c == b.oil_c,
        SignalField::Redline => a.redline == b.redline,
        SignalField::ThrottlePos => a.throttle_pct == b.throttle_pct,
        SignalField::CurrentGear => a.gear == b.gear,
        SignalField::RideMode => a.performance_mode == b.performance_mode,
        SignalField::SideStand => a.side_stand == b.side_stand,
        SignalField::GroundSpeed => a.ground_speed == b.ground_speed,
        SignalField::LeanAngle => a.lean_angle == b.lean_angle,
        SignalField::LongAccel => a.long_accel == b.long_accel,
        SignalField::FuelLevel => a.fuel_pct == b.fuel_pct,
        SignalField::BatteryVoltage => a.battery_v == b.battery_v,
        SignalField::CanBusLoad => a.can_load == b.can_load,
        SignalField::AbsActive => a.abs_active == b.abs_active,
        SignalField::TcActive => a.tc_active == b.tc_active,
        SignalField::DtcCount => a.dtc_count == b.dtc_count,
        SignalField::Odometer => a.odometer == b.odometer,
        SignalField::Trip1 => a.trip1 == b.trip1,
        SignalField::Trip2 => a.trip2 == b.trip2,
    }
}

impl SignalField {
    /// How this signal is carried.
    pub fn kind(self) -> (r: FieldKind)
        ensures
            r == field_kind(self),
    {
        match self {
            SignalField::EngineRpm => FieldKind::Float,
            SignalField::CoolantTemp => FieldKind::Int,
            SignalField::OilTemp => FieldKind::Int,
            SignalField::Redline => FieldKind::Flag,
            SignalField::ThrottlePos => FieldKind::Float,
            SignalField::CurrentGear => FieldKind::Int,
            SignalField::RideMode => FieldKind::Int,
            SignalField::SideStand => FieldKind::Flag,
            SignalField::GroundSpeed => FieldKind::Float,
            SignalField::LeanAngle => FieldKind::Float,
            SignalField::LongAccel => FieldKind::Float,
            SignalField::FuelLevel => FieldKind::Float,
            SignalField::BatteryVoltage => FieldKind::Float,
            SignalField::CanBusLoad => FieldKind::Int,
            SignalField::AbsActive => FieldKind::Flag,
            SignalField::TcActive => FieldKind::Flag,
            SignalField::DtcCount => FieldKind::Int,
            SignalField::Odometer => FieldKind::Float,
            SignalField::Trip1 => FieldKind::Float,
            SignalField::Trip2 => FieldKind::Float,
        }
    }
}

/// Store one value into its field of `out` (see [`spec_store`]).
pub fn store(f: SignalField, v: SignalValue, out: &mut M7Signals)
    ensures
        *final(out) == spec_store(*old(out), f, v),
{
    match (f, v) {
        (SignalField::EngineRpm, SignalValue::Float(b)) => out.engine_rpm = b,
        (SignalField::CoolantTemp, SignalValue::Int(i)) => out.coolant_c = i as i16,
        (SignalField::OilTemp, SignalValue::Int(i)) => out.oil_c = i as i16,
        (SignalField::Redline, SignalValue::Flag(b)) => out.redline = b,
        (SignalField::ThrottlePos, SignalValue::Float(b)) => out.throttle_pct = b,
        (SignalField::CurrentGear, SignalValue::Int(i)) => out.gear = i as i8,
        (SignalField::RideMode, SignalValue::Int(i)) => out.performance_mode = PerformanceMode::from_raw(i as u8),
        (SignalField::SideStand, SignalValue::Flag(b)) => out.side_stand = b,
        (SignalField::GroundSpeed, SignalValue::Float(b)) => out.ground_speed = b,
        (SignalField::LeanAngle, SignalValue::Float(b)) => out.lean_angle = b,
        (SignalField::LongAccel, SignalValue::Float(b)) => out.long_accel = b,
        (SignalField::FuelLevel, SignalValue::Float(b)) => out.fuel_pct = b,
        (SignalField::BatteryVoltage, SignalValue::Float(b)) => out.battery_v = b,
        (SignalField::CanBusLoad, SignalValue::Int(i)) => out.can_load = i as u8,
        (SignalField::AbsActive, SignalValue::Flag(b)) => out.abs_active = b,
        (SignalField::TcActive, SignalValue::Flag(b)) => out.tc_active = b,
        (SignalField::DtcCount, SignalValue::Int(i)) => out.dtc_count = i as u8,
        (SignalField::Odometer, SignalValue::Float(b)) => out.odometer = b,
        (SignalField::Trip1, SignalValue::Float(b)) => out.trip1 = b,
        (SignalField::Trip2, SignalValue::Float(b)) => out.trip2 = b,
        _ => {},
    }
}

/// Apply one decoded signal of message `id` to `out`: the field the
/// dictionary routes it to takes the value; a signal the dictionary does not
/// route changes nothing.
pub fn apply(id: u32, name: &str, value: SignalValue, out: &mut M7Signals)
    ensures
        *final(out) == decoded(id, name@, *old(out), value),
{
    match signal_field(id, name) {
        Some(f) => store(f, value, out),
        None => {},
    }
}

/// The value signal `f` is encoded from (see [`spec_signal_value`]).
pub fn signal_value(s: &M7Signals, f: SignalField) -> (r: SignalValue)
    ensures
        r == spec_signal_value(*s, f),
{
    match f {
        SignalField::EngineRpm => SignalValue::Float(s.engine_rpm),
        SignalField::CoolantTemp => SignalValue::Int(s.coolant_c as i64),
        SignalField::OilTemp => SignalValue::Int(s.oil_c as i64),
        SignalField::Redline => SignalValue::Flag(s.redline),
        SignalField::ThrottlePos => SignalValue::Float(s.throttle_pct),
        SignalField::CurrentGear => SignalValue::Int(if s.gear >= 0 { s.gear as i64 } else { 0 }),
        SignalField::RideMode => SignalValue::Int(s.performance_mode.to_raw() as i64),
        SignalField::SideStand => SignalValue::Flag(s.side_stand),
        SignalField::GroundSpeed => SignalValue::Float(s.ground_speed),
        SignalField::LeanAngle => SignalValue::Float(s.lean_angle),
        SignalField::LongAccel => SignalValue::Float(s.long_accel),
        SignalField::FuelLevel => SignalValue::Float(s.fuel_pct),
        SignalField::BatteryVoltage => SignalValue::Float(s.battery_v),
        SignalField::CanBusLoad => SignalValue::Int(s.can_load as i64),
        SignalField::AbsActive => SignalValue::Flag(s.abs_active),
        SignalField::TcActive => SignalValue::Flag(s.tc_active),
        SignalField::DtcCount => SignalValue::Int(s.dtc_count as i64),
        SignalField::Odometer => SignalValue::Float(s.odometer),
        SignalField::Trip1 => SignalValue::Float(s.trip1),
        SignalField::Trip2 => SignalValue::Float(s.trip2),
    }
}

/// The 8-byte frame payload holding (the first 8 bytes of) an encoded message,
/// zero-filled past its end.
pub fn frame_payload(payload: &[u8]) -> (r: [u8; 8])
    ensures
        forall|i: int| 0 <= i < 8 ==> #[trigger] r@[i] == if i < payload@.len() {
            payload@[i]
        } else {
            0u8
        },
{
    let mut frame = [0u8; 8];
    let len = if payload.len() < 8 {
        payload.len()
    } else {
        8
    };
    let mut i: usize = 0;
    while i < len
        invariant
            len <= 8,
            len <= payload@.len(),
            len == payload@.len() || len == 8,
            i <= len,
            forall|j: int| 0 <= j < i ==> #[trigger] frame@[j] == payload@[j],
            forall|j: int| i <= j < 8 ==> #[trigger] frame@[j] == 0u8,
        decreases len - i,
    {
        frame[i] = payload[i];
        i = i + 1;
    }
    frame
}

/// Storing a value into one field leaves every other field as it was.
pub proof fn law_store_touches_one_field(out: M7Signals, f: SignalField, g: SignalField, v: SignalValue)
    requires
        f != g,
    ensures
        same_field(spec_store(out, f, v), out, g),
{
}

/// Decoding a frame updates only the fields its message carries: a signal of
/// message `id` never changes a field of another message.
pub proof fn law_apply_stays_in_message(id: u32, name: Seq<char>, out: M7Signals, v: SignalValue, g: SignalField)
    requires
        field_message(g) != id,
    ensures
        same_field(
            match spec_signal_field(id, name) {
                Some(f) => spec_store(out, f, v),
                None => out,
            },
            out,
            g,
        ),
{
}

/// What a field encodes to, stored back, restores the field: every field
/// survives the dictionary's encode/store pair, except that a reverse (negative)
/// gear is sent as neutral.
pub proof fn law_value_round_trip(s: M7Signals, out: M7Signals, f: SignalField)
    requires
        f == SignalField::CurrentGear ==> s.gear >= 0,
    ensures
        same_field(spec_store(out, f, spec_signal_value(s, f)), s, f),
        field_kind(f) == (match spec_signal_value(s, f) {
            SignalValue::Float(_) => FieldKind::Float,
            SignalValue::Int(_) => FieldKind::Int,
            SignalValue::Flag(_) => FieldKind::Flag,
        }),
{
    match f {
        SignalField::CoolantTemp => {
            let x = s.coolant_c;
            assert((x as i64) as i16 == x) by (bit_vector);
        },
        SignalField::OilTemp => {
            let x = s.oil_c;
            assert((x as i64) as i16 == x) by (bit_vector);
        },
        SignalField::CurrentGear => {
            let x = s.gear;
            assert(x >= 0 ==> (x as i64) as i8 == x) by (bit_vector);
        },
        SignalField::RideMode => {
            assert((spec_mode_raw(s.performance_mode) as i64) as u8 == spec_mode_raw(
                s.performance_mode,
            ));
        },
        SignalField::CanBusLoad => {
            let x = s.can_load;
            assert((x as i64) as u8 == x) by (bit_vector);
        },
        SignalField::DtcCount => {
            let x = s.dtc_count;
            assert((x as i64) as u8 == x) by (bit_vector);
        },
        _ => {},
    }
}

/// A frame of a message outside the dictionary routes no signal anywhere.
pub proof fn law_unknown_message_routes_nowhere(id: u32, name: Seq<char>)
    requires
        !crate::message::is_dictionary_id(id),
    ensures
        spec_signal_field(id, name) is None,
        spec_message_fields(id).len() == 0,
{
}

/// A reverse gear is sent as neutral.
pub proof fn law_reverse_gear_sent_as_neutral(s: M7Signals)
    requires
        s.gear < 0,
    ensures
        spec_signal_value(s, SignalField::CurrentGear) == SignalValue::Int(0),
{
}

/// The state `out` becomes when message `id` delivers signal `name` with
/// value `v` (what [`apply`] does).
pub open spec fn decoded(id: u32, name: Seq<char>, out: M7Signals, v: SignalValue) -> M7Signals {
    match spec_signal_field(id, name) {
        Some(f) => spec_store(out, f, v),
        None => out,
    }
}

/// The DBC names of the engine status message (`EngineRPM`, `CoolantTemp`, `OilTemp`, `Redline`): a signal under
/// each name fills the [`M7Signals`] field of the same meaning, whatever the
/// state and the value, and when encoding, that field's value is sent under
/// that name in that message.
pub proof fn law_names_engine_status(out: M7Signals, s: M7Signals, bits: u32, n: i64, flag: bool)
    ensures
        decoded(ENGINE_STATUS, "EngineRPM"@, out, SignalValue::Float(bits)).engine_rpm == bits,
        spec_signal_field(ENGINE_STATUS, "EngineRPM"@) is Some,
        field_name(spec_signal_field(ENGINE_STATUS, "EngineRPM"@)->Some_0) == "EngineRPM"@,
        spec_message_fields(ENGINE_STATUS).contains(spec_signal_field(ENGINE_STATUS, "EngineRPM"@)->Some_0),
        spec_signal_value(s, spec_signal_field(ENGINE_STATUS, "EngineRPM"@)->Some_0) == SignalValue::Float(s.engine_rpm),
        decoded(ENGINE_STATUS, "CoolantTemp"@, out, SignalValue::Int(n)).coolant_c == n as i16,
        spec_signal_field(ENGINE_STATUS, "CoolantTemp"@) is Some,
        field_name(spec_signal_field(ENGINE_STATUS, "CoolantTemp"@)->Some_0) == "CoolantTemp"@,
        spec_message_fields(ENGINE_STATUS).contains(spec_signal_field(ENGINE_STATUS, "CoolantTemp"@)->Some_0),
        spec_signal_value(s, spec_signal_field(ENGINE_STATUS, "CoolantTemp"@)->Some_0) == SignalValue::Int(s.coolant_c as i64),
        decoded(ENGINE_STATUS, "OilTemp"@, out, SignalValue::Int(n)).oil_c == n as i16,
        spec_signal_field(ENGINE_STATUS, "OilTemp"@) is Some,
        field_name(spec_signal_field(ENGINE_STATUS, "OilTemp"@)->Some_0) == "OilTemp"@,
        spec_message_fields(ENGINE_STATUS).contains(spec_signal_field(ENGINE_STATUS, "OilTemp"@)->Some_0),
        spec_signal_value(s, spec_signal_field(ENGINE_STATUS, "OilTemp"@)->Some_0) == SignalValue::Int(s.oil_c as i64),
        decoded(ENGINE_STATUS, "Redline"@, out, SignalValue::Flag(flag)).redline == flag,
        spec_signal_field(ENGINE_STATUS, "Redline"@) is Some,
        field_name(spec_signal_field(ENGINE_STATUS, "Redline"@)->Some_0) == "Redline"@,
        spec_message_fields(ENGINE_STATUS).contains(spec_signal_field(ENGINE_STATUS, "Redline"@)->Some_0),
        spec_signal_value(s, spec_signal_field(ENGINE_STATUS, "Redline"@)->Some_0) == SignalValue::Flag(s.redline),
{
    lemma_names_distinct();
    reveal_strlit("EngineRPM");
    reveal_strlit("CoolantTemp");
    reveal_strlit("OilTemp");
    reveal_strlit("Redline");
    assert(spec_message_fields(ENGINE_STATUS)[0] == SignalField::EngineRpm);
    assert(spec_message_fields(ENGINE_STATUS)[1] == SignalField::CoolantTemp);
    assert(spec_message_fields(ENGINE_STATUS)[2] == SignalField::OilTemp);
    assert(spec_message_fields(ENGINE_STATUS)[3] == SignalField::Redline);
}

/// The DBC names of the throttle/gear message (`ThrottlePos`, `CurrentGear`, `PerformanceMode`, `SideStand`): a signal under
/// each name fills the [`M7Signals`] field of the same meaning, whatever the
/// state and the value, and when encoding, that field's value is sent under
/// that name in that message.
pub proof fn law_names_throttle_gear(out: M7Signals, s: M7Signals, bits: u32, n: i64, flag: bool)
    ensures
        decoded(THROTTLE_GEAR, "ThrottlePos"@, out, SignalValue::Float(bits)).throttle_pct == bits,
        spec_signal_field(THROTTLE_GEAR, "ThrottlePos"@) is Some,
        field_name(spec_signal_field(THROTTLE_GEAR, "ThrottlePos"@)->Some_0) == "ThrottlePos"@,
        spec_message_fields(THROTTLE_GEAR).contains(spec_signal_field(THROTTLE_GEAR, "ThrottlePos"@)->Some_0),
        spec_signal_value(s, spec_signal_field(THROTTLE_GEAR, "ThrottlePos"@)->Some_0) == SignalValue::Float(s.throttle_pct),
        decoded(THROTTLE_GEAR, "CurrentGear"@, out, SignalValue::Int(n)).gear == n as i8,
        spec_signal_field(THROTTLE_GEAR, "CurrentGear"@) is Some,
        field_name(spec_signal_field(THROTTLE_GEAR, "CurrentGear"@)->Some_0) == "CurrentGear"@,
        spec_message_fields(THROTTLE_GEAR).contains(spec_signal_field(THROTTLE_GEAR, "CurrentGear"@)->Some_0),
        spec_signal_value(s, spec_signal_field(THROTTLE_GEAR, "CurrentGear"@)->Some_0) == SignalValue::Int(if s.gear >= 0 { s.gear as i64 } else { 0 }),
        decoded(THROTTLE_GEAR, "PerformanceMode"@, out, SignalValue::Int(n)).performance_mode == spec_mode_from_raw(n as u8),
        spec_signal_field(THROTTLE_GEAR, "PerformanceMode"@) is Some,
        field_name(spec_signal_field(THROTTLE_GEAR, "PerformanceMode"@)->Some_0) == "PerformanceMode"@,
        spec_message_fields(THROTTLE_GEAR).contains(spec_signal_field(THROTTLE_GEAR, "PerformanceMode"@)->Some_0),
        spec_signal_value(s, spec_signal_field(THROTTLE_GEAR, "PerformanceMode"@)->Some_0) == SignalValue::Int(spec_mode_raw(s.performance_mode) as i64),
        decoded(THROTTLE_GEAR, "SideStand"@, out, SignalValue::Flag(flag)).side_stand == flag,
        spec_signal_field(THROTTLE_GEAR, "SideStand"@) is Some,
        field_name(spec_signal_field(THROTTLE_GEAR, "SideStand"@)->Some_0) == "SideStand"@,
        spec_message_fields(THROTTLE_GEAR).contains(spec_signal_field(THROTTLE_GEAR, "SideStand"@)->Some_0),
        spec_signal_value(s, spec_signal_field(THROTTLE_GEAR, "SideStand"@)->Some_0) == SignalValue::Flag(s.side_stand),
{
    lemma_names_distinct();
    reveal_strlit("ThrottlePos");
    reveal_strlit("CurrentGear");
    reveal_strlit("PerformanceMode");
    reveal_strlit("SideStand");
    assert(spec_message_fields(THROTTLE_GEAR)[0] == SignalField::ThrottlePos);
    assert(spec_message_fields(THROTTLE_GEAR)[1] == SignalField::CurrentGear);
    assert(spec_message_fields(THROTTLE_GEAR)[2] == SignalField::RideMode);
    assert(spec_message_fields(THROTTLE_GEAR)[3] == SignalField::SideStand);
}

/// The DBC names of the wheel speed message (`GroundSpeed`, `LeanAngle`, `LongAccel`): a signal under
/// each name fills the [`M7Signals`] field of the same meaning, whatever the
/// state and the value, and when encoding, that field's value is sent under
/// that name in that message.
pub proof fn law_names_wheel_speed(out: M7Signals, s: M7Signals, bits: u32, n: i64, flag: bool)
    ensures
        decoded(WHEEL_SPEED, "GroundSpeed"@, out, SignalValue::Float(bits)).ground_speed == bits,
        spec_signal_field(WHEEL_SPEED, "GroundSpeed"@) is Some,
        field_name(spec_signal_field(WHEEL_SPEED, "GroundSpeed"@)->Some_0) == "GroundSpeed"@,
        spec_message_fields(WHEEL_SPEED).contains(spec_signal_field(WHEEL_SPEED, "GroundSpeed"@)->Some_0),
        spec_signal_value(s, spec_signal_field(WHEEL_SPEED, "GroundSpeed"@)->Some_0) == SignalValue::Float(s.ground_speed),
        decoded(WHEEL_SPEED, "LeanAngle"@, out, SignalValue::Float(bits)).lean_angle == bits,
        spec_signal_field(WHEEL_SPEED, "LeanAngle"@) is Some,
        field_name(spec_signal_field(WHEEL_SPEED, "LeanAngle"@)->Some_0) == "LeanAngle"@,
        spec_message_fields(WHEEL_SPEED).contains(spec_signal_field(WHEEL_SPEED, "LeanAngle"@)->Some_0),
        spec_signal_value(s, spec_signal_field(WHEEL_SPEED, "LeanAngle"@)->Some_0) == SignalValue::Float(s.lean_angle),
        decoded(WHEEL_SPEED, "LongAccel"@, out, SignalValue::Float(bits)).long_accel == bits,
        spec_signal_field(WHEEL_SPEED, "LongAccel"@) is Some,
        field_name(spec_signal_field(WHEEL_SPEED, "LongAccel"@)->Some_0) == "LongAccel"@,
        spec_message_fields(WHEEL_SPEED).contains(spec_signal_field(WHEEL_SPEED, "LongAccel"@)->Some_0),
        spec_signal_value(s, spec_signal_field(WHEEL_SPEED, "LongAccel"@)->Some_0) == SignalValue::Float(s.long_accel),
{
    lemma_names_distinct();
    reveal_strlit("GroundSpeed");
    reveal_strlit("LeanAngle");
    reveal_strlit("LongAccel");
    assert(spec_message_fields(WHEEL_SPEED)[0] == SignalField::GroundSpeed);
    assert(spec_message_fields(WHEEL_SPEED)[1] == SignalField::LeanAngle);
    assert(spec_message_fields(WHEEL_SPEED)[2] == SignalField::LongAccel);
}

/// The DBC names of the chassis/electrical message (`FuelLevel`, `BatteryVoltage`, `CanBusLoad`, `AbsActive`, `TcActive`, `DtcCount`): a signal under
/// each name fills the [`M7Signals`] field of the same meaning, whatever the
/// state and the value, and when encoding, that field's value is sent under
/// that name in that message.
pub proof fn law_names_chassis_electrical(out: M7Signals, s: M7Signals, bits: u32, n: i64, flag: bool)
    ensures
        decoded(CHASSIS_ELECTRICAL, "FuelLevel"@, out, SignalValue::Float(bits)).fuel_pct == bits,
        spec_signal_field(CHASSIS_ELECTRICAL, "FuelLevel"@) is Some,
        field_name(spec_signal_field(CHASSIS_ELECTRICAL, "FuelLevel"@)->Some_0) == "FuelLevel"@,
        spec_message_fields(CHASSIS_ELECTRICAL).contains(spec_signal_field(CHASSIS_ELECTRICAL, "FuelLevel"@)->Some_0),
        spec_signal_value(s, spec_signal_field(CHASSIS_ELECTRICAL, "FuelLevel"@)->Some_0) == SignalValue::Float(s.fuel_pct),
        decoded(CHASSIS_ELECTRICAL, "BatteryVoltage"@, out, SignalValue::Float(bits)).battery_v == bits,
        spec_signal_field(CHASSIS_ELECTRICAL, "BatteryVoltage"@) is Some,
        field_name(spec_signal_field(CHASSIS_ELECTRICAL, "BatteryVoltage"@)->Some_0) == "BatteryVoltage"@,
        spec_message_fields(CHASSIS_ELECTRICAL).contains(spec_signal_field(CHASSIS_ELECTRICAL, "BatteryVoltage"@)->Some_0),
        spec_signal_value(s, spec_signal_field(CHASSIS_ELECTRICAL, "BatteryVoltage"@)->Some_0) == SignalValue::Float(s.battery_v),
        decoded(CHASSIS_ELECTRICAL, "CanBusLoad"@, out, SignalValue::Int(n)).can_load == n as u8,
        spec_signal_field(CHASSIS_ELECTRICAL, "CanBusLoad"@) is Some,
        field_name(spec_signal_field(CHASSIS_ELECTRICAL, "CanBusLoad"@)->Some_0) == "CanBusLoad"@,
        spec_message_fields(CHASSIS_ELECTRICAL).contains(spec_signal_field(CHASSIS_ELECTRICAL, "CanBusLoad"@)->Some_0),
        spec_signal_value(s, spec_signal_field(CHASSIS_ELECTRICAL, "CanBusLoad"@)->Some_0) == SignalValue::Int(s.can_load as i64),
        decoded(CHASSIS_ELECTRICAL, "AbsActive"@, out, SignalValue::Flag(flag)).abs_active == flag,
        spec_signal_field(CHASSIS_ELECTRICAL, "AbsActive"@) is Some,
        field_name(spec_signal_field(CHASSIS_ELECTRICAL, "AbsActive"@)->Some_0) == "AbsActive"@,
        spec_message_fields(CHASSIS_ELECTRICAL).contains(spec_signal_field(CHASSIS_ELECTRICAL, "AbsActive"@)->Some_0),
        spec_signal_value(s, spec_signal_field(CHASSIS_ELECTRICAL, "AbsActive"@)->Some_0) == SignalValue::Flag(s.abs_active),
        decoded(CHASSIS_ELECTRICAL, "TcActive"@, out, SignalValue::Flag(flag)).tc_active == flag,
        spec_signal_field(CHASSIS_ELECTRICAL, "TcActive"@) is Some,
        field_name(spec_signal_field(CHASSIS_ELECTRICAL, "TcActive"@)->Some_0) == "TcActive"@,
        spec_message_fields(CHASSIS_ELECTRICAL).contains(spec_signal_field(CHASSIS_ELECTRICAL, "TcActive"@)->Some_0),
        spec_signal_value(s, spec_signal_field(CHASSIS_ELECTRICAL, "TcActive"@)->Some_0) == SignalValue::Flag(s.tc_active),
        decoded(CHASSIS_ELECTRICAL, "DtcCount"@, out, SignalValue::Int(n)).dtc_count == n as u8,
        spec_signal_field(CHASSIS_ELECTRICAL, "DtcCount"@) is Some,
        field_name(spec_signal_field(CHASSIS_ELECTRICAL, "DtcCount"@)->Some_0) == "DtcCount"@,
        spec_message_fields(CHASSIS_ELECTRICAL).contains(spec_signal_field(CHASSIS_ELECTRICAL, "DtcCount"@)->Some_0),
        spec_signal_value(s, spec_signal_field(CHASSIS_ELECTRICAL, "DtcCount"@)->Some_0) == SignalValue::Int(s.dtc_count as i64),
{
    lemma_names_distinct();
    reveal_strlit("FuelLevel");
    reveal_strlit("BatteryVoltage");
    reveal_strlit("CanBusLoad");
    reveal_strlit("AbsActive");
    reveal_strlit("TcActive");
    reveal_strlit("DtcCount");
    assert(spec_message_fields(CHASSIS_ELECTRICAL)[0] == SignalField::FuelLevel);
    assert(spec_message_fields(CHASSIS_ELECTRICAL)[1] == SignalField::BatteryVoltage);
    assert(spec_message_fields(CHASSIS_ELECTRICAL)[2] == SignalField::CanBusLoad);
    assert(spec_message_fields(CHASSIS_ELECTRICAL)[3] == SignalField::AbsActive);
    assert(spec_message_fields(CHASSIS_ELECTRICAL)[4] == SignalField::TcActive);
    assert(spec_message_fields(CHASSIS_ELECTRICAL)[5] == SignalField::DtcCount);
}

/// The DBC names of the trip/odometer message (`Odometer`, `Trip1`, `Trip2`): a signal under
/// each name fills the [`M7Signals`] field of the same meaning, whatever the
/// state and the value, and when encoding, that field's value is sent under
/// that name in that message.
pub proof fn law_names_trip_odometer(out: M7Signals, s: M7Signals, bits: u32, n: i64, flag: bool)
    ensures
        decoded(TRIP_ODOMETER, "Odometer"@, out, SignalValue::Float(bits)).odometer == bits,
        spec_signal_field(TRIP_ODOMETER, "Odometer"@) is Some,
        field_name(spec_signal_field(TRIP_ODOMETER, "Odometer"@)->Some_0) == "Odometer"@,
        spec_message_fields(TRIP_ODOMETER).contains(spec_signal_field(TRIP_ODOMETER, "Odometer"@)->Some_0),
        spec_signal_value(s, spec_signal_field(TRIP_ODOMETER, "Odometer"@)->Some_0) == SignalValue::Float(s.odometer),
        decoded(TRIP_ODOMETER, "Trip1"@, out, SignalValue::Float(bits)).trip1 == bits,
        spec_signal_field(TRIP_ODOMETER, "Trip1"@) is Some,
        field_name(spec_signal_field(TRIP_ODOMETER, "Trip1"@)->Some_0) == "Trip1"@,
        spec_message_fields(TRIP_ODOMETER).contains(spec_signal_field(TRIP_ODOMETER, "Trip1"@)->Some_0),
        spec_signal_value(s, spec_signal_field(TRIP_ODOMETER, "Trip1"@)->Some_0) == SignalValue::Float(s.trip1),
        decoded(TRIP_ODOMETER, "Trip2"@, out, SignalValue::Float(bits)).trip2 == bits,
        spec_signal_field(TRIP_ODOMETER, "Trip2"@) is Some,
        field_name(spec_signal_field(TRIP_ODOMETER, "Trip2"@)->Some_0) == "Trip2"@,
        spec_message_fields(TRIP_ODOMETER).contains(spec_signal_field(TRIP_ODOMETER, "Trip2"@)->Some_0),
        spec_signal_value(s, spec_signal_field(TRIP_ODOMETER, "Trip2"@)->Some_0) == SignalValue::Float(s.trip2),
{
    lemma_names_distinct();
    reveal_strlit("Odometer");
    reveal_strlit("Trip1");
    reveal_strlit("Trip2");
    assert(spec_message_fields(TRIP_ODOMETER)[0] == SignalField::Odometer);
    assert(spec_message_fields(TRIP_ODOMETER)[1] == SignalField::Trip1);
    assert(spec_message_fields(TRIP_ODOMETER)[2] == SignalField::Trip2);
}

} // verus!

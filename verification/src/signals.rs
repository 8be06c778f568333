//! The shared M7 signal dictionary in physical units.
//!
//! Readings that are `f32` on the wire and in the dictionary are held here as
//! their IEEE-754 bit patterns (`f32::to_bits`), so that the byte-level codecs
//! are exact and every value keeps its identity bit for bit.

use vstd::prelude::*;

use crate::performance_mode::PerformanceMode;

verus! {

/// Neutral, `Copy` snapshot of the M7 signal dictionary.
///
/// This is the shared contract type: the codecs decode frames into it and
/// encode frames from it, independent of any consumer's own state model. Every
/// `u32` field holds the bit pattern of an `f32` physical reading.
#[derive(Debug, Clone, Copy, PartialEq, Eq, Structural)]
pub struct M7Signals {
    pub engine_rpm: u32,
    pub coolant_c: i16,
    pub oil_c: i16,
    pub redline: bool,
    pub throttle_pct: u32,
    pub gear: i8,
    pub performance_mode: PerformanceMode,
    pub side_stand: bool,
    pub ground_speed: u32,
    pub lean_angle: u32,
    pub long_accel: u32,
    pub fuel_pct: u32,
    pub battery_v: u32,
    pub can_load: u8,
    pub abs_active: bool,
    pub tc_active: bool,
    pub dtc_count: u8,
    pub odometer: u32,
    pub trip1: u32,
    pub trip2: u32,
}

/// The all-zero snapshot in `Std` mode (`0.0` has the all-zero bit pattern).
pub open spec fn spec_default_signals() -> M7Signals {
    M7Signals {
        engine_rpm: 0,
        coolant_c: 0,
        oil_c: 0,
        redline: false,
        throttle_pct: 0,
        gear: 0,
        performance_mode: PerformanceMode::Std,
        side_stand: false,
        ground_speed: 0,
        lean_angle: 0,
        long_accel: 0,
        fuel_pct: 0,
        battery_v: 0,
        can_load: 0,
        abs_active: false,
        tc_active: false,
        dtc_count: 0,
        odometer: 0,
        trip1: 0,
        trip2: 0,
    }
}

impl Default for M7Signals {
    fn default() -> (r: Self)
        ensures
            r == spec_default_signals(),
    {
        M7Signals {
            engine_rpm: 0,
            coolant_c: 0,
            oil_c: 0,
            redline: false,
            throttle_pct: 0,
            gear: 0,
            performance_mode: PerformanceMode::Std,
            side_stand: false,
            ground_speed: 0,
            lean_angle: 0,
            long_accel: 0,
            fuel_pct: 0,
            battery_v: 0,
            can_load: 0,
            abs_active: false,
            tc_active: false,
            dtc_count: 0,
            odometer: 0,
            trip1: 0,
            trip2: 0,
        }
    }
}

} // verus!

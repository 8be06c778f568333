//! Sigma Racer **M7 safety-bus** CAN dictionary, wire codec and safety-core logic.
//!
//! - [`message`] — the message IDs and [`MESSAGE_IDS`] transmit order
//! - [`performance_mode`] — the [`PerformanceMode`] ride-mode enum
//! - [`signals`] — the shared [`M7Signals`] contract type
//! - [`dictionary`] — which message carries which signal, under which name
//! - [`database`] — the DBC parse
//! - [`wire`] — the RPMsg snapshot wire format
//! - [`hw`] — register programs for the i.MX8M Plus M7 peripherals
//! - [`sidearm`] — the safety core: safety bus, heartbeat, Linux link, supervisor
//! - [`bringup`] — the UART boot proof's console output
//! - [`wingman`] — the earlier contract's ride-mode table

pub mod bringup;
pub mod database;
pub mod dictionary;
pub mod hw;
pub mod message;
pub mod performance_mode;
pub mod sidearm;
pub mod signals;
mod text;
pub mod wingman;
pub mod wire;

pub use database::parse;
pub use dbc_rs::{Dbc, DecodedSignal, Error};
pub use message::{
    CHASSIS_ELECTRICAL, ENGINE_STATUS, M7_HEARTBEAT, MESSAGE_IDS, THROTTLE_GEAR, TRIP_ODOMETER,
    WHEEL_SPEED,
};
pub use performance_mode::PerformanceMode;
pub use signals::M7Signals;
pub use wire::{
    decode as decode_wire, encode as encode_wire, MAGIC as WIRE_MAGIC, VERSION as WIRE_VERSION,
};

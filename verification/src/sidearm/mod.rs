//! The safety-core application logic: the safety bus and its heartbeat, the
//! RPMsg link to Linux, and the supervisor's bookkeeping.

pub mod frame;
pub mod heartbeat;
pub mod link;
pub mod safety_bus;
pub mod supervisor;

pub use frame::Frame;
pub use heartbeat::Heartbeat;
pub use link::RpmsgLink;
pub use safety_bus::SafetyBus;
pub use supervisor::{loop_count, millis_since_kick, service};

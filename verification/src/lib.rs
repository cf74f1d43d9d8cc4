//! Discovery of a Bluetooth Low-Energy peripheral by name prefix, and the
//! decisions that lead from a scan to a connected, service-enumerated sensor.
//!
//! The library holds every decision of that procedure as a deterministic
//! state machine over plain values. The caller owns the radio: it performs
//! the action that the machine asks for and hands back what happened.

pub mod driver;
pub mod error;
pub mod matcher;
pub mod options;
pub mod span;
pub mod traces;

pub use driver::{Action, Driver, Event, Input, PeripheralId, Phase, Sensor};
pub use error::Error;
pub use matcher::{device_matches, Properties};
pub use options::Options;
pub use span::Span;

//! A small model of a smart home: simulated devices grouped into rooms and
//! rooms grouped into a home, with a textual report of their state.
//!
//! Readings are whole numbers of thousandths of their unit; a report shows
//! them with two digits after the decimal point.

pub mod device;
pub mod error;
pub mod home;
pub mod room;
mod source;
pub mod text;

pub use device::{SmartDevice, SmartSocket, SmartThermometer};
pub use error::OutOfBounds;
pub use home::SmartHome;
pub use room::Room;

//! A clock capability and a UTC timestamp type with one canonical text form.

pub mod clock;
pub mod error;
pub mod timestamp;


pub use error::{Status, StatusResult, ValidationError};
pub use clock::{Clock, ClockFake, StdClock};
pub use timestamp::{Timestamp, WireTimestamp};

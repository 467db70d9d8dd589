//! Proof of presence: events bound to a place and a time window, and check-ins
//! that are accepted only inside both, at most once per attendee.

pub mod types;
pub mod presence;
pub mod registry;
pub mod laws;

pub use types::{Attendance, ErrorCode, Event, Identity};
pub use presence::{validate, within_radius};
pub use registry::{check_in, create_event, CheckIn, CreateEvent, Registry};


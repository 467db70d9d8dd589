use vstd::prelude::*;

verus! {

/// Longest event name accepted, in characters.
pub const MAX_NAME_LEN: usize = 64;

/// The 32-byte identity of a party (an organizer or an attendee).
#[derive(Clone, Copy, Debug)]
pub struct Identity {
    pub bytes: [u8; 32],
}

impl Identity {
    /// Two identities are the same party when their bytes agree.
    pub open spec fn same(self, other: Identity) -> bool {
        self.bytes@ == other.bytes@
    }

    pub fn new(bytes: [u8; 32]) -> (r: Identity)
        ensures
            r.bytes@ == bytes@,
    {
        Identity { bytes }
    }

    /// Compares two identities byte by byte.
    pub fn same_as(&self, other: &Identity) -> (r: bool)
        ensures
            r == self.same(*other),
    {
        let mut i: usize = 0;
        while i < 32
            invariant
                0 <= i <= 32,
                self.bytes@.len() == 32,
                other.bytes@.len() == 32,
                forall|j: int| 0 <= j < i ==> self.bytes@[j] == other.bytes@[j],
            decreases 32 - i,
        {
            if self.bytes[i] != other.bytes[i] {
                return false;
            }
            i = i + 1;
        }
        assert(self.bytes@ =~= other.bytes@);
        true
    }
}

/// An organizer-defined window in time and space for presence claims.
/// Coordinates are degrees scaled by 1,000,000; times are Unix seconds.
#[derive(Clone, Debug)]
pub struct Event {
    pub organizer: Identity,
    pub name: String,
    pub lat: i64,
    pub lng: i64,
    pub radius_meters: u32,
    pub starts_at: i64,
    pub ends_at: i64,
    pub attendee_count: u32,
}

/// The record of one attendee's successful check-in to one event.
#[derive(Clone, Copy, Debug)]
pub struct Attendance {
    pub attendee: Identity,
    /// The handle of the event in its registry.
    pub event: usize,
    pub is_checked_in: bool,
    pub checked_in_at: i64,
}

/// The error kinds that an operation of this library can report.
#[derive(Clone, Copy, Debug, PartialEq, Eq, Structural)]
pub enum ErrorCode {
    /// The current time lies outside the event's window.
    EventNotActive,
    /// The attendee has already checked in to this event.
    AlreadyCheckedIn,
    /// The claimed position lies outside the event's radius.
    OutOfRange,
    /// A record under the same key exists already.
    AlreadyExists,
    /// The event name is longer than the limit.
    InvalidName,
}

} // verus!

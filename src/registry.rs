use vstd::prelude::*;
use crate::presence::{validate, validation};
use crate::types::{Attendance, ErrorCode, Event, Identity, MAX_NAME_LEN};

verus! {

/// The keyed store of events and attendance records. An event is keyed by its
/// organizer and name, and addressed by its handle: its position in `events`.
/// An attendance record is keyed by its event handle and attendee.
pub struct Registry {
    pub events: Vec<Event>,
    pub attendances: Vec<Attendance>,
}

/// Who creates an event.
#[derive(Clone, Copy, Debug)]
pub struct CreateEvent {
    pub organizer: Identity,
}

/// Who checks in, to which event, and the time of the claim.
#[derive(Clone, Copy, Debug)]
pub struct CheckIn {
    pub attendee: Identity,
    pub event: usize,
    pub now: i64,
}

impl Registry {
    /// Events are unique by organizer and name; names respect the limit;
    /// attendance records name an existing event, are final, and are unique
    /// by event and attendee.
    pub open spec fn wf(self) -> bool {
        &&& forall|i: int| 0 <= i < self.events@.len() ==> self.events@[i].name@.len() <= MAX_NAME_LEN
        &&& forall|i: int, j: int|
            0 <= i < j < self.events@.len() ==> !(#[trigger] self.events@[i].organizer.same(
                #[trigger] self.events@[j].organizer) && self.events@[i].name@ == self.events@[j].name@)
        &&& forall|k: int| 0 <= k < self.attendances@.len() ==> {
            &&& (#[trigger] self.attendances@[k]).event < self.events@.len()
            &&& self.attendances@[k].is_checked_in
        }
        &&& forall|k: int, l: int|
            0 <= k < l < self.attendances@.len() ==> !(#[trigger] self.attendances@[k].event
                == #[trigger] self.attendances@[l].event && self.attendances@[k].attendee.same(
                self.attendances@[l].attendee))
    }

    /// Whether an event under this organizer and name exists.
    pub open spec fn has_event(self, organizer: Identity, name: Seq<char>) -> bool {
        exists|i: int|
            0 <= i < self.events@.len() && (#[trigger] self.events@[i]).organizer.same(organizer)
                && self.events@[i].name@ == name
    }

    /// Whether the attendee holds a check-in to the event.
    pub open spec fn checked_in(self, event: int, attendee: Identity) -> bool {
        exists|k: int|
            0 <= k < self.attendances@.len() && (#[trigger] self.attendances@[k]).event == event
                && self.attendances@[k].attendee.same(attendee)
                && self.attendances@[k].is_checked_in
    }

    /// An empty store.
    pub fn new() -> (r: Registry)
        ensures
            r.wf(),
            r.events@.len() == 0,
            r.attendances@.len() == 0,
    {
        Registry { events: Vec::new(), attendances: Vec::new() }
    }

    /// Reads back the event under a handle.
    pub fn event(&self, handle: usize) -> (r: &Event)
        requires
            handle < self.events@.len(),
        ensures
            *r == self.events@[handle as int],
    {
        &self.events[handle]
    }

    /// Finds the attendance record of the attendee at the event, if any.
    pub fn find_attendance(&self, event: usize, attendee: &Identity) -> (r: Option<usize>)
        requires
            self.wf(),
        ensures
            r is None <==> !self.checked_in(event as int, *attendee),
            r matches Some(k) ==> k < self.attendances@.len() && self.attendances@[k as int].event
                == event && self.attendances@[k as int].attendee.same(*attendee),
    {
        let mut k: usize = 0;
        while k < self.attendances.len()
            invariant
                self.wf(),
                0 <= k <= self.attendances@.len(),
                forall|l: int|
                    0 <= l < k ==> !((#[trigger] self.attendances@[l]).event == event
                        && self.attendances@[l].attendee.same(*attendee)),
            decreases self.attendances@.len() - k,
        {
            let a = &self.attendances[k];
            if a.event == event && a.attendee.same_as(attendee) {
                return Some(k);
            }
            k = k + 1;
        }
        None
    }

    /// Whether an event under this organizer and name exists.
    pub fn contains_event(&self, organizer: &Identity, name: &String) -> (r: bool)
        ensures
            r == self.has_event(*organizer, name@),
    {
        let mut i: usize = 0;
        while i < self.events.len()
            invariant
                0 <= i <= self.events@.len(),
                forall|j: int|
                    0 <= j < i ==> !((#[trigger] self.events@[j]).organizer.same(*organizer)
                        && self.events@[j].name@ == name@),
            decreases self.events@.len() - i,
        {
            let e = &self.events[i];
            if e.organizer.same_as(organizer) && e.name == *name {
                return true;
            }
            i = i + 1;
        }
        false
    }
}

/// The event that `create_event` stores.
pub open spec fn new_event(
    organizer: Identity,
    name: Seq<char>,
    lat: i64,
    lng: i64,
    radius_meters: u32,
    starts_at: i64,
    ends_at: i64,
    stored: Event,
) -> bool {
    &&& stored.organizer == organizer
    &&& stored.name@ == name
    &&& stored.lat == lat
    &&& stored.lng == lng
    &&& stored.radius_meters == radius_meters
    &&& stored.starts_at == starts_at
    &&& stored.ends_at == ends_at
    &&& stored.attendee_count == 0
}

/// What `create_event` reports: a name over the limit, then an existing key,
/// then the handle of the new event.
pub open spec fn create_outcome(registry: Registry, organizer: Identity, name: Seq<char>) -> Result<usize, ErrorCode> {
    if name.len() > MAX_NAME_LEN {
        Err(ErrorCode::InvalidName)
    } else if registry.has_event(organizer, name) {
        Err(ErrorCode::AlreadyExists)
    } else {
        Ok(registry.events@.len() as usize)
    }
}

/// Creates an event keyed by its organizer and name. The fields are stored as
/// given and the attendee count starts at zero.
pub fn create_event(
    registry: &mut Registry,
    ctx: CreateEvent,
    name: String,
    lat: i64,
    lng: i64,
    radius_meters: u32,
    starts_at: i64,
    ends_at: i64,
) -> (r: Result<usize, ErrorCode>)
    requires
        old(registry).wf(),
    ensures
        final(registry).wf(),
        r == create_outcome(*old(registry), ctx.organizer, name@),
        r is Err ==> *final(registry) == *old(registry),
        r matches Ok(h) ==> {
            &&& final(registry).events@.len() == old(registry).events@.len() + 1
            &&& final(registry).events@.subrange(0, h as int) == old(registry).events@
            &&& new_event(ctx.organizer, name@, lat, lng, radius_meters, starts_at, ends_at, final(registry).events@[h as int])
            &&& final(registry).attendances@ == old(registry).attendances@
        },
{
    if name.as_str().unicode_len() > MAX_NAME_LEN {
        return Err(ErrorCode::InvalidName);
    }
    if registry.contains_event(&ctx.organizer, &name) {
        return Err(ErrorCode::AlreadyExists);
    }
    let handle = registry.events.len();
    let event = Event {
        organizer: ctx.organizer,
        name,
        lat,
        lng,
        radius_meters,
        starts_at,
        ends_at,
        attendee_count: 0,
    };
    registry.events.push(event);
    assert(registry.events@.subrange(0, handle as int) =~= old(registry).events@);
    Ok(handle)
}

/// The record that a successful check-in writes.
pub open spec fn attendance_of(ctx: CheckIn) -> Attendance {
    Attendance { attendee: ctx.attendee, event: ctx.event, is_checked_in: true, checked_in_at: ctx.now }
}

/// What `check_in` reports: the presence decision, with an earlier check-in
/// of the same attendee to the same event counting as a duplicate.
pub open spec fn check_in_outcome(registry: Registry, ctx: CheckIn, user_lat: i64, user_lng: i64) -> Result<Attendance, ErrorCode> {
    match validation(
        registry.events@[ctx.event as int],
        ctx.now as int,
        user_lat as int,
        user_lng as int,
        registry.checked_in(ctx.event as int, ctx.attendee),
    ) {
        Ok(_) => Ok(attendance_of(ctx)),
        Err(e) => Err(e),
    }
}

/// The store after a successful check-in: the event's count is one higher,
/// every other event is unchanged, and the record is added.
pub open spec fn recorded(before: Registry, after: Registry, ctx: CheckIn) -> bool {
    let e = before.events@[ctx.event as int];
    &&& after.events@.len() == before.events@.len()
    &&& after.events@[ctx.event as int] == (Event { attendee_count: (e.attendee_count + 1) as u32, ..e })
    &&& forall|i: int| 0 <= i < before.events@.len() && i != ctx.event ==> after.events@[i] == before.events@[i]
    &&& after.attendances@ == before.attendances@.push(attendance_of(ctx))
}

/// Checks the attendee in to the event, at the time and position claimed.
/// On success the record is written and the event's count raised together;
/// on failure nothing changes.
pub fn check_in(registry: &mut Registry, ctx: CheckIn, user_lat: i64, user_lng: i64) -> (r: Result<Attendance, ErrorCode>)
    requires
        old(registry).wf(),
        ctx.event < old(registry).events@.len(),
        old(registry).events@[ctx.event as int].attendee_count < u32::MAX,
    ensures
        final(registry).wf(),
        r == check_in_outcome(*old(registry), ctx, user_lat, user_lng),
        r is Err ==> *final(registry) == *old(registry),
        r is Ok ==> recorded(*old(registry), *final(registry), ctx),
{
    let found = registry.find_attendance(ctx.event, &ctx.attendee);
    let decision = validate(&registry.events[ctx.event], ctx.now, user_lat, user_lng, found.is_some());
    if let Err(e) = decision {
        return Err(e);
    }
    let record = Attendance { attendee: ctx.attendee, event: ctx.event, is_checked_in: true, checked_in_at: ctx.now };
    let count = registry.events[ctx.event].attendee_count;
    registry.events[ctx.event].attendee_count = count + 1;
    registry.attendances.push(record);
    proof {
        let before = *old(registry);
        let after = *registry;
        assert forall|k: int, l: int|
            0 <= k < l < after.attendances@.len() implies !(#[trigger] after.attendances@[k].event
                == #[trigger] after.attendances@[l].event && after.attendances@[k].attendee.same(
                after.attendances@[l].attendee)) by {
            if l == before.attendances@.len() {
                assert(before.attendances@[k] == after.attendances@[k]);
            }
        }
    }
    Ok(record)
}

} // verus!

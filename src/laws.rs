use vstd::prelude::*;
use crate::presence::{in_radius, is_active, raw_distance};
use crate::registry::{attendance_of, check_in_outcome, recorded, CheckIn, Registry};
use crate::types::{Attendance, ErrorCode};

verus! {

/// A check-in before the event starts or after it ends is refused as not
/// active, whoever claims it and wherever they stand.
pub proof fn lemma_outside_window_not_active(registry: Registry, ctx: CheckIn, user_lat: i64, user_lng: i64)
    requires
        ctx.event < registry.events@.len(),
        ctx.now < registry.events@[ctx.event as int].starts_at
            || ctx.now > registry.events@[ctx.event as int].ends_at,
    ensures
        check_in_outcome(registry, ctx, user_lat, user_lng) == Err::<Attendance, ErrorCode>(ErrorCode::EventNotActive),
{
}

/// Both ends of the window belong to it: a first check-in within the radius
/// at exactly the start or the end is accepted.
pub proof fn lemma_window_ends_inclusive(registry: Registry, ctx: CheckIn, user_lat: i64, user_lng: i64)
    requires
        ctx.event < registry.events@.len(),
        registry.events@[ctx.event as int].starts_at <= registry.events@[ctx.event as int].ends_at,
        ctx.now == registry.events@[ctx.event as int].starts_at
            || ctx.now == registry.events@[ctx.event as int].ends_at,
        !registry.checked_in(ctx.event as int, ctx.attendee),
        in_radius(
            registry.events@[ctx.event as int].lat as int,
            registry.events@[ctx.event as int].lng as int,
            user_lat as int,
            user_lng as int,
            registry.events@[ctx.event as int].radius_meters as int,
        ),
    ensures
        check_in_outcome(registry, ctx, user_lat, user_lng) == Ok::<Attendance, ErrorCode>(attendance_of(ctx)),
{
}

/// Once an attendee has checked in to an event, every further check-in of
/// theirs to it within the window is refused as a duplicate, whatever the
/// position claimed.
pub proof fn lemma_second_check_in_refused(
    before: Registry,
    after: Registry,
    first: CheckIn,
    first_lat: i64,
    first_lng: i64,
    second: CheckIn,
    second_lat: i64,
    second_lng: i64,
)
    requires
        first.event < before.events@.len(),
        check_in_outcome(before, first, first_lat, first_lng) is Ok,
        recorded(before, after, first),
        second.event == first.event,
        second.attendee.same(first.attendee),
        is_active(after.events@[second.event as int], second.now as int),
    ensures
        check_in_outcome(after, second, second_lat, second_lng) == Err::<Attendance, ErrorCode>(ErrorCode::AlreadyCheckedIn),
{
    let k = before.attendances@.len() as int;
    assert(after.attendances@[k] == attendance_of(first));
    assert(after.checked_in(second.event as int, second.attendee));
}

/// A successful check-in raises its event's count by exactly one and leaves
/// the count of every other event as it was.
pub proof fn lemma_check_in_counts_once(before: Registry, after: Registry, ctx: CheckIn)
    requires
        ctx.event < before.events@.len(),
        before.events@[ctx.event as int].attendee_count < u32::MAX,
        recorded(before, after, ctx),
    ensures
        after.events@[ctx.event as int].attendee_count == before.events@[ctx.event as int].attendee_count + 1,
        forall|i: int|
            0 <= i < before.events@.len() && i != ctx.event ==> after.events@[i].attendee_count
                == before.events@[i].attendee_count,
{
}

/// A claim that differs from the event's point in latitude alone, by any
/// amount, is within every radius: the distance formula multiplies each term
/// by the longitude offset, which is zero here.
pub proof fn lemma_latitude_offset_within_radius(event_lat: int, event_lng: int, user_lat: int, radius: int)
    ensures
        in_radius(event_lat, event_lng, user_lat, event_lng, radius),
{
    let dlat = if user_lat >= event_lat { user_lat - event_lat } else { event_lat - user_lat };
    assert(raw_distance(dlat, 0) == 0);
    assert(radius * radius >= 0) by (nonlinear_arith);
}

} // verus!

use vstd::prelude::*;
use crate::types::{ErrorCode, Event};

verus! {

/// The magnitude of a difference of two coordinates.
pub open spec fn abs_diff(a: int, b: int) -> int {
    if a >= b { a - b } else { b - a }
}

/// The quantity whose square root, times 0.111, is the approximate distance in
/// meters. The formula is kept as the system defines it: it is not symmetric in
/// latitude and longitude, and a pure latitude offset contributes nothing.
pub open spec fn raw_distance(dlat: int, dlng: int) -> int {
    dlat * dlng + dlng * dlng
}

/// `sqrt(raw) * 0.111 <= radius`, stated exactly over the integers: both sides
/// are non-negative, so it is `raw * 111^2 <= (radius * 1000)^2`.
pub open spec fn in_radius(event_lat: int, event_lng: int, user_lat: int, user_lng: int, radius: int) -> bool {
    12321 * raw_distance(abs_diff(user_lat, event_lat), abs_diff(user_lng, event_lng))
        <= 1_000_000 * (radius * radius)
}

/// Whether `now` lies inside the event's window, both ends included.
pub open spec fn is_active(event: Event, now: int) -> bool {
    event.starts_at <= now <= event.ends_at
}

/// The decision on a presence claim: the window first, then an earlier
/// check-in, then the distance.
pub open spec fn validation(event: Event, now: int, user_lat: int, user_lng: int, already_checked_in: bool) -> Result<(), ErrorCode> {
    if !is_active(event, now) {
        Err(ErrorCode::EventNotActive)
    } else if already_checked_in {
        Err(ErrorCode::AlreadyCheckedIn)
    } else if !in_radius(event.lat as int, event.lng as int, user_lat, user_lng, event.radius_meters as int) {
        Err(ErrorCode::OutOfRange)
    } else {
        Ok(())
    }
}

/// The magnitude of `a - b`, which always fits in 64 unsigned bits.
fn magnitude(a: i64, b: i64) -> (r: u64)
    ensures
        r as int == abs_diff(a as int, b as int),
{
    let d: i128 = a as i128 - b as i128;
    if d < 0 {
        (-d) as u64
    } else {
        d as u64
    }
}

/// Decides whether the claimed position is within the radius of the point.
pub fn within_radius(event_lat: i64, event_lng: i64, user_lat: i64, user_lng: i64, radius_meters: u32) -> (r: bool)
    ensures
        r == in_radius(event_lat as int, event_lng as int, user_lat as int, user_lng as int, radius_meters as int),
{
    let dlat: u64 = magnitude(user_lat, event_lat);
    let dlng: u64 = magnitude(user_lng, event_lng);
    let ghost (x, y, rr) = (dlat as int, dlng as int, radius_meters as int);
    assert(x * y <= u64::MAX as int * u64::MAX as int) by (nonlinear_arith)
        requires 0 <= x <= u64::MAX, 0 <= y <= u64::MAX;
    assert(y * y <= u64::MAX as int * u64::MAX as int) by (nonlinear_arith)
        requires 0 <= y <= u64::MAX;
    assert(rr * rr <= u32::MAX as int * u32::MAX as int) by (nonlinear_arith)
        requires 0 <= rr <= u32::MAX;
    let cross: u128 = dlat as u128 * dlng as u128;
    let square: u128 = dlng as u128 * dlng as u128;
    let limit: u128 = 1_000_000u128 * (radius_meters as u128 * radius_meters as u128);
    assert(limit as int == 1_000_000 * (rr * rr));
    if cross > limit || square > limit {
        assert(12321 * (x * y + y * y) > 1_000_000 * (rr * rr)) by (nonlinear_arith)
            requires x * y >= 0, y * y >= 0, x * y > 1_000_000 * (rr * rr) || y * y > 1_000_000 * (rr * rr);
        false
    } else {
        let raw: u128 = cross + square;
        12321u128 * raw <= limit
    }
}

/// Decides a presence claim against the event at time `now`.
pub fn validate(event: &Event, now: i64, user_lat: i64, user_lng: i64, already_checked_in: bool) -> (r: Result<(), ErrorCode>)
    ensures
        r == validation(*event, now as int, user_lat as int, user_lng as int, already_checked_in),
{
    if !(event.starts_at <= now && now <= event.ends_at) {
        return Err(ErrorCode::EventNotActive);
    }
    if already_checked_in {
        return Err(ErrorCode::AlreadyCheckedIn);
    }
    if !within_radius(event.lat, event.lng, user_lat, user_lng, event.radius_meters) {
        return Err(ErrorCode::OutOfRange);
    }
    Ok(())
}

} // verus!

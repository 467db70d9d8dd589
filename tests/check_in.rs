use proof_of_presence::{
    check_in, create_event, validate, within_radius, CheckIn, CreateEvent, ErrorCode, Identity,
    Registry,
};

fn id(b: u8) -> Identity {
    Identity::new([b; 32])
}

fn registry_with_event(lat: i64, lng: i64, radius: u32, starts_at: i64, ends_at: i64) -> (Registry, usize) {
    let mut reg = Registry::new();
    let h = create_event(
        &mut reg,
        CreateEvent { organizer: id(1) },
        String::from("meetup"),
        lat,
        lng,
        radius,
        starts_at,
        ends_at,
    )
    .unwrap();
    (reg, h)
}

fn at(attendee: u8, event: usize, now: i64) -> CheckIn {
    CheckIn { attendee: id(attendee), event, now }
}

#[test]
fn end_to_end_scenario() {
    let (mut reg, h) = registry_with_event(12345678, 98765432, 50, 1000, 2000);
    let rec = check_in(&mut reg, at(7, h, 1500), 12345678, 98765432).unwrap();
    assert!(rec.is_checked_in);
    assert_eq!(rec.checked_in_at, 1500);
    assert_eq!(rec.event, h);
    assert_eq!(rec.attendee.bytes, [7u8; 32]);
    assert_eq!(reg.event(h).attendee_count, 1);
    assert_eq!(
        check_in(&mut reg, at(7, h, 1500), 12345678, 98765432).unwrap_err(),
        ErrorCode::AlreadyCheckedIn
    );
    assert_eq!(
        check_in(&mut reg, at(8, h, 2500), 12345678, 98765432).unwrap_err(),
        ErrorCode::EventNotActive
    );
    assert_eq!(reg.event(h).attendee_count, 1);
}

#[test]
fn window_bounds_are_inclusive() {
    let (mut reg, h) = registry_with_event(0, 0, 100, 1000, 2000);
    assert_eq!(check_in(&mut reg, at(2, h, 999), 0, 0).unwrap_err(), ErrorCode::EventNotActive);
    assert_eq!(check_in(&mut reg, at(2, h, 2001), 0, 0).unwrap_err(), ErrorCode::EventNotActive);
    assert!(check_in(&mut reg, at(2, h, 1000), 0, 0).is_ok());
    assert!(check_in(&mut reg, at(3, h, 2000), 0, 0).is_ok());
    assert_eq!(reg.event(h).attendee_count, 2);
}

#[test]
fn second_check_in_refused_anywhere() {
    let (mut reg, h) = registry_with_event(0, 0, 100, 0, 100);
    assert!(check_in(&mut reg, at(4, h, 10), 0, 0).is_ok());
    assert_eq!(check_in(&mut reg, at(4, h, 20), 0, 0).unwrap_err(), ErrorCode::AlreadyCheckedIn);
    assert_eq!(
        check_in(&mut reg, at(4, h, 20), 0, 5_000_000).unwrap_err(),
        ErrorCode::AlreadyCheckedIn
    );
    assert_eq!(reg.event(h).attendee_count, 1);
}

#[test]
fn count_rises_on_one_event_only() {
    let mut reg = Registry::new();
    let a = create_event(&mut reg, CreateEvent { organizer: id(1) }, String::from("a"), 0, 0, 10, 0, 10).unwrap();
    let b = create_event(&mut reg, CreateEvent { organizer: id(1) }, String::from("b"), 0, 0, 10, 0, 10).unwrap();
    assert_eq!((a, b), (0, 1));
    assert!(check_in(&mut reg, at(5, b, 5), 0, 0).is_ok());
    assert_eq!(reg.event(a).attendee_count, 0);
    assert_eq!(reg.event(b).attendee_count, 1);
}

#[test]
fn distance_zero_succeeds() {
    let (mut reg, h) = registry_with_event(0, 0, 100, 0, 10);
    assert!(check_in(&mut reg, at(6, h, 5), 0, 0).is_ok());
}

#[test]
fn pure_latitude_offset_succeeds() {
    let (mut reg, h) = registry_with_event(0, 0, 100, 0, 10);
    assert!(check_in(&mut reg, at(6, h, 5), 10_000_000, 0).is_ok());
    assert!(within_radius(0, 0, i64::MIN, 0, 0));
}

#[test]
fn longitude_offset_out_of_range() {
    // 1000 units of longitude: sqrt(1_000_000) * 0.111 = 111 m
    let (mut reg, h) = registry_with_event(0, 0, 100, 0, 10);
    assert_eq!(check_in(&mut reg, at(6, h, 5), 0, 1000).unwrap_err(), ErrorCode::OutOfRange);
    assert_eq!(reg.event(h).attendee_count, 0);
    // 900 units: 99.9 m
    assert!(check_in(&mut reg, at(6, h, 5), 0, 900).is_ok());
}

#[test]
fn distance_formula_values() {
    // dlat = 300, dlng = 400: raw = 120_000 + 160_000 = 280_000, sqrt ~ 529.15, * 0.111 ~ 58.74
    assert!(within_radius(0, 0, 300, 400, 59));
    assert!(!within_radius(0, 0, 300, 400, 58));
    // the same offsets mirrored around the event give the same result
    assert!(within_radius(1000, 1000, 700, 600, 59));
    assert!(!within_radius(1000, 1000, 700, 600, 58));
    // zero radius admits only a zero raw distance
    assert!(within_radius(5, 5, 5, 5, 0));
    assert!(!within_radius(5, 5, 5, 6, 0));
}

#[test]
fn extreme_coordinates_do_not_overflow() {
    assert!(!within_radius(i64::MIN, i64::MIN, i64::MAX, i64::MAX, u32::MAX));
    assert!(!within_radius(0, i64::MIN, 0, i64::MAX, u32::MAX));
    assert!(within_radius(i64::MAX, 0, i64::MIN, 0, 1));
}

#[test]
fn validate_checks_in_order() {
    let (reg, h) = registry_with_event(0, 0, 100, 0, 10);
    let ev = reg.event(h);
    assert_eq!(validate(ev, 11, 0, 5000, true), Err(ErrorCode::EventNotActive));
    assert_eq!(validate(ev, 5, 0, 5000, true), Err(ErrorCode::AlreadyCheckedIn));
    assert_eq!(validate(ev, 5, 0, 5000, false), Err(ErrorCode::OutOfRange));
    assert_eq!(validate(ev, 5, 0, 0, false), Ok(()));
}

#[test]
fn created_event_reads_back() {
    let mut reg = Registry::new();
    let h = create_event(
        &mut reg,
        CreateEvent { organizer: id(9) },
        String::from("launch party"),
        -33868800,
        151209300,
        250,
        1_700_000_000,
        1_600_000_000,
    )
    .unwrap();
    let ev = reg.event(h);
    assert_eq!(ev.organizer.bytes, [9u8; 32]);
    assert_eq!(ev.name, "launch party");
    assert_eq!(ev.lat, -33868800);
    assert_eq!(ev.lng, 151209300);
    assert_eq!(ev.radius_meters, 250);
    assert_eq!(ev.starts_at, 1_700_000_000);
    assert_eq!(ev.ends_at, 1_600_000_000);
    assert_eq!(ev.attendee_count, 0);
}

#[test]
fn same_organizer_and_name_collides() {
    let mut reg = Registry::new();
    let org = CreateEvent { organizer: id(1) };
    assert!(create_event(&mut reg, org, String::from("x"), 0, 0, 1, 0, 1).is_ok());
    assert_eq!(
        create_event(&mut reg, org, String::from("x"), 5, 5, 5, 5, 5).unwrap_err(),
        ErrorCode::AlreadyExists
    );
    assert!(create_event(&mut reg, CreateEvent { organizer: id(2) }, String::from("x"), 0, 0, 1, 0, 1).is_ok());
    assert_eq!(reg.events.len(), 2);
    assert_eq!(reg.event(0).lat, 0);
}

#[test]
fn name_length_limit() {
    let mut reg = Registry::new();
    let org = CreateEvent { organizer: id(1) };
    let long = "é".repeat(65);
    assert_eq!(create_event(&mut reg, org, long, 0, 0, 1, 0, 1).unwrap_err(), ErrorCode::InvalidName);
    let max = "é".repeat(64);
    assert!(create_event(&mut reg, org, max, 0, 0, 1, 0, 1).is_ok());
    assert!(create_event(&mut reg, org, String::new(), 0, 0, 1, 0, 1).is_ok());
    assert_eq!(reg.events.len(), 2);
}

#[test]
fn identities_compare_by_bytes() {
    let mut b = [3u8; 32];
    assert!(id(3).same_as(&Identity::new(b)));
    b[31] = 4;
    assert!(!id(3).same_as(&Identity::new(b)));
}

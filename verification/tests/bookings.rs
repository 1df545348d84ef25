use chrono::Duration;
use gym_booking::bookings::{
    book_session_no_max_bookings, book_session_with_max_bookings,
    check_limited_member_has_no_bookings_in_same_week, check_limited_member_in_week,
    create_booking, create_booking_at, delete_booking, delete_booking_at,
    get_session_date_and_cost, into_result, update_booking, BookingUpdate,
};
use gym_booking::calendar::{now, WeekBounds};
use gym_booking::claims::{Caller, Claims, Membership};
use gym_booking::error::{ApiError, ErrorKind};
use gym_booking::flow::{Denial, Fault, Job, Outcome, Refusal, Request};
use gym_booking::ledger::{Booking, Person, Session, SessionBooking, SessionDateAndCost};
use gym_booking::sessions::{SessionLocation, SessionType};
use gym_booking::store::BookingStore;

const DAY: i64 = 86_400_000_000;
// Wednesday 2024-05-15 12:00:00 UTC
const NOON: i64 = 1_715_774_400_000_000;

fn create_person(store: &mut BookingStore, email: &str, _roles: &str, credits: i32) -> i64 {
    let id = store.count_persons() as i64 + 1;
    assert!(store.add_person(Person {
        id,
        name: "Test User".to_string(),
        email: email.to_string(),
        credits,
    }));
    id
}

fn create_session_with(
    store: &mut BookingStore,
    id: i64,
    datetime: i64,
    session_type_name: &str,
    location_name: &str,
    cost: i16,
    max_bookings: Option<i64>,
) -> i64 {
    assert!(store.add_session(Session {
        id,
        datetime,
        duration_mins: 60,
        session_type: SessionType {
            id: if session_type_name == "HIIT" { 1 } else { 2 },
            name: session_type_name.to_string(),
            requires_trainer: true,
            cost,
        },
        location: Some(SessionLocation {
            id: 1,
            name: location_name.to_string(),
            address: "1 Park Lane".to_string(),
        }),
        cost,
        max_booking_count: max_bookings,
    }));
    id
}

fn create_session_max_bookings(
    store: &mut BookingStore,
    id: i64,
    datetime: i64,
    session_type_name: &str,
    location_name: &str,
    max_bookings: Option<i64>,
) -> i64 {
    create_session_with(store, id, datetime, session_type_name, location_name, 1, max_bookings)
}

fn create_session(
    store: &mut BookingStore,
    id: i64,
    datetime: i64,
    session_type_name: &str,
    location_name: &str,
) -> i64 {
    create_session_max_bookings(store, id, datetime, session_type_name, location_name, None)
}

fn claims(uid: i64, email: &str, roles: &[&str]) -> Claims {
    let roles: Vec<String> = roles.iter().map(|r| r.to_string()).collect();
    Claims::create(uid, email, &Some("011111".to_string()), &roles, Duration::minutes(1).num_seconds())
}

fn forbidden(message: &str) -> ApiError {
    ApiError { kind: ErrorKind::Forbidden, message: message.to_string() }
}

#[test]
fn book_session_full_member() {
    let mut store = BookingStore::new();
    let _trainer_id = create_person(&mut store, "trainer@example.org", "member,trainer", 0);
    let member_id = create_person(&mut store, "member@example.org", "member", 0);
    let session_id = create_session(&mut store, 1, now() + DAY, "HIIT", "Oak Hill Park");
    let booking = SessionBooking { person_id: member_id, session_id, credits_used: None };

    // Precondition: zero bookings
    assert_eq!(0, store.count_bookings());

    // Create booking
    let claim = claims(member_id, "joe@example.com", &["member"]);
    create_booking(&mut store, "Europe/London", &claim, &booking).unwrap();

    // Postcondition: 1 booking
    assert_eq!(1, store.count_bookings());
}

#[test]
fn book_session_non_member() {
    let mut store = BookingStore::new();
    let _trainer_id = create_person(&mut store, "trainer@example.org", "member,trainer", 0);
    let member_id = create_person(&mut store, "member@example.org", "member", 0);
    let session_id = create_session(&mut store, 1, now() + DAY, "HIIT", "Oak Hill Park");
    let booking = SessionBooking { person_id: member_id, session_id, credits_used: None };

    // Precondition: zero bookings
    assert_eq!(0, store.count_bookings());

    // Create booking
    let claim = claims(member_id, "joe@example.com", &[]);
    let result = create_booking(&mut store, "Europe/London", &claim, &booking);
    assert!(result.is_err());
    assert_eq!(
        forbidden("Missing or expired membership, and no PAYG credits."),
        result.err().unwrap()
    );

    // Postcondition: still zero bookings
    assert_eq!(0, store.count_bookings());
}

#[test]
fn book_session_limited_member_existing_session_same_week() {
    let mut store = BookingStore::new();
    let _trainer_id = create_person(&mut store, "trainer@example.org", "member,trainer", 0);
    let member_id = create_person(&mut store, "member@example.org", "limited-member", 0);
    let datetime = now() + DAY;
    let session_id_1 = create_session(&mut store, 1, datetime, "HIIT", "Oak Hill Park");
    let booking_1 = SessionBooking { person_id: member_id, session_id: session_id_1, credits_used: None };
    let session_id_2 = create_session(&mut store, 2, datetime, "On The Move", "Oak Hill Park");
    let booking_2 = SessionBooking { person_id: member_id, session_id: session_id_2, credits_used: None };

    // Precondition: zero bookings
    assert_eq!(0, store.count_bookings());

    // Create booking 1
    let claim = claims(member_id, "member@example.com", &["limited-member"]);
    create_booking(&mut store, "Europe/London", &claim, &booking_1).unwrap();

    // Postcondition 1: one booking
    assert_eq!(1, store.count_bookings());

    // Create booking 2: fails
    let claim = claims(member_id, "member@example.com", &["limited-member"]);
    let result = create_booking(&mut store, "Europe/London", &claim, &booking_2.clone());
    assert!(result.is_err());
    assert_eq!(
        forbidden("Cannot book session: member already has 1 booking(s) in this week."),
        result.err().unwrap()
    );

    // Postcondition 2: one booking
    assert_eq!(1, store.count_bookings());

    // Cancel booking 1
    delete_booking(&mut store, &claim, member_id, session_id_1).unwrap();

    // Postcondition 3: zero bookings
    assert_eq!(0, store.count_bookings());

    // Create booking 2: succeeds now
    let claim = claims(member_id, "member@example.com", &["limited-member"]);
    create_booking(&mut store, "Europe/London", &claim, &booking_2).unwrap();

    // Postcondition 4: one booking
    assert_eq!(1, store.count_bookings());
}

#[test]
fn book_session_limited_member_existing_session_next_week() {
    let mut store = BookingStore::new();
    let _trainer_id = create_person(&mut store, "trainer@example.org", "member,trainer", 0);
    let member_id = create_person(&mut store, "member@example.org", "limited-member", 0);
    let tomorrow = now() + DAY;
    let next_week = tomorrow + 7 * DAY;
    let session_id_1 = create_session(&mut store, 1, tomorrow, "HIIT", "Oak Hill Park");
    let booking_1 = SessionBooking { person_id: member_id, session_id: session_id_1, credits_used: None };
    let session_id_2 = create_session(&mut store, 2, next_week, "On The Move", "Oak Hill Park");
    let booking_2 = SessionBooking { person_id: member_id, session_id: session_id_2, credits_used: None };

    // Precondition: zero bookings
    assert_eq!(0, store.count_bookings());

    // Create booking 1
    let claim = claims(member_id, "member@example.com", &["limited-member"]);
    create_booking(&mut store, "Europe/London", &claim, &booking_1).unwrap();

    // Postcondition 1: one booking
    assert_eq!(1, store.count_bookings());

    // Create booking 2: succeeds because it's next week
    let claim = claims(member_id, "member@example.com", &["limited-member"]);
    create_booking(&mut store, "Europe/London", &claim, &booking_2.clone()).unwrap();

    // Postcondition 2: two bookings
    assert_eq!(2, store.count_bookings());
}

#[test]
fn book_session_non_member_using_credit_not_opted_in() {
    let mut store = BookingStore::new();
    let _trainer_id = create_person(&mut store, "trainer@example.org", "member,trainer", 0);
    let member_id = create_person(&mut store, "member@example.org", "member", 5);
    let session_id = create_session(&mut store, 1, now() + DAY, "HIIT", "Oak Hill Park");
    let booking = SessionBooking { person_id: member_id, session_id, credits_used: None };

    // Precondition: zero bookings
    assert_eq!(0, store.count_bookings());

    // Create booking
    let claim = claims(member_id, "joe@example.com", &[]);
    let result = create_booking(&mut store, "Europe/London", &claim, &booking);
    assert!(result.is_err());
    assert_eq!(
        ApiError {
            kind: ErrorKind::PaymentRequired,
            message: "Opt in to use credits for booking.".to_string()
        },
        result.err().unwrap()
    );

    // Postcondition: still zero bookings
    assert_eq!(0, store.count_bookings());
}

#[test]
fn book_session_non_member_using_credit_opted_in() {
    let mut store = BookingStore::new();
    let _trainer_id = create_person(&mut store, "trainer@example.org", "member,trainer", 0);
    let member_id = create_person(&mut store, "member@example.org", "", 5);
    let session_id = create_session(&mut store, 1, now() + DAY, "HIIT", "Oak Hill Park");
    let booking = SessionBooking { person_id: member_id, session_id, credits_used: Some(1) };

    // Precondition: zero bookings
    assert_eq!(0, store.count_bookings());

    // Create booking
    let claim = claims(member_id, "joe@example.com", &[]);
    let _result = create_booking(&mut store, "Europe/London", &claim, &booking).unwrap();

    // Check that the booking has the used credits
    let created_booking = store.booking(member_id, session_id).unwrap();
    assert_eq!(Some(1), created_booking.credits_used);
    let bookings_list =
        gym_booking::listing::list_bookings(&store, &claim, None, Some(member_id), &None, &None).unwrap();
    assert_eq!(1, bookings_list.len());
    assert_eq!(1, bookings_list.get(0).unwrap().credits_used);

    // Check that the user has been debited one credit
    assert_eq!(Some(4), store.credits(member_id));

    // Cancel booking
    delete_booking(&mut store, &claim, member_id, session_id).unwrap();
    // Postcondition: zero bookings
    assert_eq!(0, store.count_bookings());

    // Check that the user's credit has been restored
    assert_eq!(Some(5), store.credits(member_id));
}

#[test]
fn book_session_non_member_using_credit_max_bookings_reached() {
    let mut store = BookingStore::new();
    let _trainer_id = create_person(&mut store, "trainer@example.org", "member,trainer", 0);
    let member_id = create_person(&mut store, "member@example.org", "", 5);
    let session_id =
        create_session_max_bookings(&mut store, 1, now() + DAY, "HIIT", "Oak Hill Park", Some(0));
    let booking = SessionBooking { person_id: member_id, session_id, credits_used: Some(1) };

    // Precondition: zero bookings
    assert_eq!(0, store.count_bookings());

    // Create booking: fail due to max bookings reached
    let claim = claims(member_id, "joe@example.com", &[]);
    let booking_result = create_booking(&mut store, "Europe/London", &claim, &booking).err().unwrap();
    assert_eq!(
        ApiError {
            kind: ErrorKind::Conflict,
            message: "Session has reached it maximum number of bookings: 0.".to_string()
        },
        booking_result
    );

    // Still zero bookings
    assert_eq!(0, store.count_bookings());

    // Check that the user has NOT been debited any credits
    assert_eq!(Some(5), store.credits(member_id));
}

#[test]
fn full_member_booking_leaves_credits_alone() {
    let mut store = BookingStore::new();
    let member_id = create_person(&mut store, "member@example.org", "member", 3);
    let session_id = create_session(&mut store, 1, NOON + DAY, "HIIT", "Oak Hill Park");
    let booking = SessionBooking { person_id: member_id, session_id, credits_used: Some(1) };
    let claim = claims(member_id, "joe@example.com", &["member"]);
    let made = create_booking_at(&mut store, "Europe/London", &claim, &booking, NOON).unwrap();
    assert_eq!(SessionBooking { person_id: member_id, session_id, credits_used: Some(0) }, made);
    assert_eq!(Some(3), store.credits(member_id));
    assert_eq!(
        Some(Booking { person_id: member_id, session_id, credits_used: Some(0), attended: false }),
        store.booking(member_id, session_id)
    );
}

#[test]
fn capacity_is_never_exceeded() {
    let mut store = BookingStore::new();
    let session_id = create_session_max_bookings(&mut store, 1, NOON + DAY, "HIIT", "Oak Hill Park", Some(2));
    let mut admitted = 0;
    for n in 0..5 {
        let member_id = create_person(&mut store, &format!("m{}@example.org", n), "member", 0);
        let claim = claims(member_id, "m@example.com", &["member"]);
        let booking = SessionBooking { person_id: member_id, session_id, credits_used: None };
        match create_booking_at(&mut store, "Europe/London", &claim, &booking, NOON) {
            Ok(_) => admitted += 1,
            Err(e) => assert_eq!(
                ApiError {
                    kind: ErrorKind::Conflict,
                    message: "Session has reached it maximum number of bookings: 2.".to_string()
                },
                e
            ),
        }
        assert!(store.seats_taken(session_id) <= 2);
    }
    assert_eq!(2, admitted);
    assert_eq!(2, store.seats_taken(session_id));
}

#[test]
fn negative_limit_admits_nobody() {
    let mut store = BookingStore::new();
    let member_id = create_person(&mut store, "member@example.org", "member", 0);
    let session_id = create_session_max_bookings(&mut store, 1, NOON + DAY, "HIIT", "Oak Hill Park", Some(-3));
    let claim = claims(member_id, "m@example.com", &["member"]);
    let booking = SessionBooking { person_id: member_id, session_id, credits_used: None };
    let e = create_booking_at(&mut store, "Europe/London", &claim, &booking, NOON).unwrap_err();
    assert_eq!(ErrorKind::Conflict, e.kind);
    assert_eq!("Session has reached it maximum number of bookings: -3.", e.message);
    assert_eq!(0, store.count_bookings());
}

#[test]
fn second_booking_of_same_session_does_not_double_book() {
    let mut store = BookingStore::new();
    let member_id = create_person(&mut store, "member@example.org", "member", 0);
    let open = create_session(&mut store, 1, NOON + DAY, "HIIT", "Oak Hill Park");
    let capped = create_session_max_bookings(&mut store, 2, NOON + DAY, "HIIT", "Oak Hill Park", Some(5));
    let claim = claims(member_id, "m@example.com", &["member"]);

    let booking = SessionBooking { person_id: member_id, session_id: open, credits_used: None };
    create_booking_at(&mut store, "Europe/London", &claim, &booking, NOON).unwrap();
    let e = create_booking_at(&mut store, "Europe/London", &claim, &booking, NOON).unwrap_err();
    assert_eq!(ErrorKind::Conflict, e.kind);
    assert_eq!("the person already holds a booking of this session", e.message);
    assert_eq!(1, store.count_bookings());

    let booking = SessionBooking { person_id: member_id, session_id: capped, credits_used: None };
    create_booking_at(&mut store, "Europe/London", &claim, &booking, NOON).unwrap();
    let e = create_booking_at(&mut store, "Europe/London", &claim, &booking, NOON).unwrap_err();
    assert_eq!(ErrorKind::Conflict, e.kind);
    assert_eq!(2, store.count_bookings());
    assert_eq!(1, store.seats_taken(capped));
}

#[test]
fn non_admin_cannot_act_for_another_person() {
    let mut store = BookingStore::new();
    let member_id = create_person(&mut store, "member@example.org", "member", 5);
    let other_id = create_person(&mut store, "other@example.org", "member", 5);
    let session_id = create_session(&mut store, 1, NOON + DAY, "HIIT", "Oak Hill Park");
    let claim = claims(member_id, "m@example.com", &["member", "limited-member", "trainer"]);
    let booking = SessionBooking { person_id: other_id, session_id, credits_used: Some(1) };
    assert_eq!(
        forbidden("Cannot create a booking for another user!"),
        create_booking_at(&mut store, "Europe/London", &claim, &booking, NOON).unwrap_err()
    );
    assert_eq!(
        forbidden("Not allowed to cancel bookings for other users."),
        delete_booking_at(&mut store, &claim, other_id, session_id, NOON).unwrap_err()
    );
    // even for a session that does not exist
    let booking = SessionBooking { person_id: other_id, session_id: 99, credits_used: None };
    assert_eq!(
        forbidden("Cannot create a booking for another user!"),
        create_booking_at(&mut store, "Europe/London", &claim, &booking, NOON).unwrap_err()
    );
    assert_eq!(0, store.count_bookings());
}

#[test]
fn admin_books_and_cancels_for_anybody_even_in_the_past() {
    let mut store = BookingStore::new();
    let admin_id = create_person(&mut store, "admin@example.org", "admin", 0);
    let other_id = create_person(&mut store, "other@example.org", "", 2);
    let session_id = create_session(&mut store, 1, NOON - DAY, "HIIT", "Oak Hill Park");
    let claim = claims(admin_id, "admin@example.com", &["admin"]);
    let booking = SessionBooking { person_id: other_id, session_id, credits_used: Some(1) };
    let made = create_booking_at(&mut store, "Europe/London", &claim, &booking, NOON).unwrap();
    assert_eq!(Some(0), made.credits_used);
    assert_eq!(Some(2), store.credits(other_id));
    let gone = delete_booking_at(&mut store, &claim, other_id, session_id, NOON).unwrap();
    assert_eq!(SessionBooking { person_id: other_id, session_id, credits_used: Some(0) }, gone);
    assert_eq!(0, store.count_bookings());
}

#[test]
fn admin_booking_for_unknown_person_or_session_fails() {
    let mut store = BookingStore::new();
    let admin_id = create_person(&mut store, "admin@example.org", "admin", 0);
    let session_id = create_session(&mut store, 1, NOON + DAY, "HIIT", "Oak Hill Park");
    let claim = claims(admin_id, "admin@example.com", &["admin"]);
    let e = create_booking_at(
        &mut store,
        "Europe/London",
        &claim,
        &SessionBooking { person_id: 77, session_id, credits_used: None },
        NOON,
    )
    .unwrap_err();
    assert_eq!(ApiError { kind: ErrorKind::InternalError, message: "the person is not recorded".to_string() }, e);
    let e = create_booking_at(
        &mut store,
        "Europe/London",
        &claim,
        &SessionBooking { person_id: admin_id, session_id: 42, credits_used: None },
        NOON,
    )
    .unwrap_err();
    assert_eq!(ApiError { kind: ErrorKind::NotFound, message: "no session with id 42".to_string() }, e);
}

#[test]
fn past_sessions_are_closed_to_members() {
    let mut store = BookingStore::new();
    let member_id = create_person(&mut store, "member@example.org", "member", 0);
    let session_id = create_session(&mut store, 1, NOON - 1, "HIIT", "Oak Hill Park");
    let at_noon = create_session(&mut store, 2, NOON, "HIIT", "Oak Hill Park");
    let claim = claims(member_id, "m@example.com", &["member"]);
    let booking = SessionBooking { person_id: member_id, session_id, credits_used: None };
    assert_eq!(
        forbidden("Cannot create booking in the past!"),
        create_booking_at(&mut store, "Europe/London", &claim, &booking, NOON).unwrap_err()
    );
    // a session that starts this very instant is not in the past
    let booking = SessionBooking { person_id: member_id, session_id: at_noon, credits_used: None };
    create_booking_at(&mut store, "Europe/London", &claim, &booking, NOON).unwrap();
    assert_eq!(
        forbidden("Cannot cancel past booking."),
        delete_booking_at(&mut store, &claim, member_id, at_noon, NOON + 1).unwrap_err()
    );
    assert_eq!(1, store.count_bookings());
}

#[test]
fn missing_session_and_missing_booking_are_not_found() {
    let mut store = BookingStore::new();
    let member_id = create_person(&mut store, "member@example.org", "member", 0);
    let session_id = create_session(&mut store, 1, NOON + DAY, "HIIT", "Oak Hill Park");
    let claim = claims(member_id, "m@example.com", &["member"]);
    let booking = SessionBooking { person_id: member_id, session_id: -12, credits_used: None };
    assert_eq!(
        ApiError { kind: ErrorKind::NotFound, message: "no session with id -12".to_string() },
        create_booking_at(&mut store, "Europe/London", &claim, &booking, NOON).unwrap_err()
    );
    assert_eq!(
        ApiError { kind: ErrorKind::NotFound, message: "no session with id -12".to_string() },
        delete_booking_at(&mut store, &claim, member_id, -12, NOON).unwrap_err()
    );
    assert_eq!(
        ApiError {
            kind: ErrorKind::NotFound,
            message: format!("No booking found with person_id={} and session_id={}.", member_id, session_id)
        },
        delete_booking_at(&mut store, &claim, member_id, session_id, NOON).unwrap_err()
    );
}

#[test]
fn credits_pay_only_when_they_suffice_and_are_offered() {
    let mut store = BookingStore::new();
    let member_id = create_person(&mut store, "member@example.org", "", 2);
    let cheap = create_session_with(&mut store, 1, NOON + DAY, "HIIT", "Oak Hill Park", 2, None);
    let dear = create_session_with(&mut store, 2, NOON + DAY, "HIIT", "Oak Hill Park", 3, None);
    let free = create_session_with(&mut store, 3, NOON + DAY, "HIIT", "Oak Hill Park", 0, None);
    let claim = claims(member_id, "m@example.com", &[]);

    // too few credits: the missing membership is what is reported
    let booking = SessionBooking { person_id: member_id, session_id: dear, credits_used: Some(3) };
    assert_eq!(
        forbidden("Missing or expired membership, and no PAYG credits."),
        create_booking_at(&mut store, "Europe/London", &claim, &booking, NOON).unwrap_err()
    );
    // enough credits, too few offered
    let booking = SessionBooking { person_id: member_id, session_id: cheap, credits_used: Some(1) };
    assert_eq!(
        ErrorKind::PaymentRequired,
        create_booking_at(&mut store, "Europe/London", &claim, &booking, NOON).unwrap_err().kind
    );
    // credits pay for nothing that is free: without membership a free session stays closed
    for credits_used in [None, Some(0), Some(1)] {
        let booking = SessionBooking { person_id: member_id, session_id: free, credits_used };
        assert_eq!(
            forbidden("Missing or expired membership, and no PAYG credits."),
            create_booking_at(&mut store, "Europe/London", &claim, &booking, NOON).unwrap_err()
        );
    }
    assert_eq!(0, store.count_bookings());
    assert_eq!(Some(2), store.credits(member_id));
    // offering more than the cost takes the cost only
    let booking = SessionBooking { person_id: member_id, session_id: cheap, credits_used: Some(9) };
    assert_eq!(
        Some(2),
        create_booking_at(&mut store, "Europe/London", &claim, &booking, NOON).unwrap().credits_used
    );
    assert_eq!(Some(0), store.credits(member_id));
    assert_eq!(
        SessionBooking { person_id: member_id, session_id: cheap, credits_used: Some(2) },
        delete_booking_at(&mut store, &claim, member_id, cheap, NOON).unwrap()
    );
    assert_eq!(Some(2), store.credits(member_id));
}

#[test]
fn caller_without_user_record_is_unauthorized() {
    let mut store = BookingStore::new();
    let session_id = create_session(&mut store, 1, NOON + DAY, "HIIT", "Oak Hill Park");
    let claim = claims(5, "ghost@example.com", &[]);
    let booking = SessionBooking { person_id: 5, session_id, credits_used: Some(1) };
    assert_eq!(
        ApiError { kind: ErrorKind::Unauthorized, message: "missing user record".to_string() },
        create_booking_at(&mut store, "Europe/London", &claim, &booking, NOON).unwrap_err()
    );
}

#[test]
fn limited_member_weekly_quota() {
    let mut store = BookingStore::new();
    let member_id = create_person(&mut store, "member@example.org", "limited-member", 0);
    // Monday 2024-05-13 00:00 London time is 2024-05-12 23:00 UTC
    let week_start = 1_715_554_800_000_000;
    let first_instant = create_session(&mut store, 1, week_start, "HIIT", "Oak Hill Park");
    let last_instant = create_session(&mut store, 2, week_start + 7 * DAY - 1, "Yoga", "Oak Hill Park");
    let next_week = create_session(&mut store, 3, week_start + 7 * DAY, "Yoga", "Oak Hill Park");
    let week_before = create_session(&mut store, 4, week_start - 1, "Yoga", "Oak Hill Park");
    let free = create_session_with(&mut store, 5, week_start + DAY, "Walk", "Oak Hill Park", 0, None);
    let free_too = create_session_with(&mut store, 6, week_start + 2 * DAY, "Walk", "Oak Hill Park", 0, None);
    let claim = claims(member_id, "m@example.com", &["limited-member"]);
    let at = week_start - 2 * DAY;
    let book = |store: &mut BookingStore, session_id: i64| {
        create_booking_at(
            store,
            "Europe/London",
            &claim,
            &SessionBooking { person_id: member_id, session_id, credits_used: None },
            at,
        )
    };
    book(&mut store, free).unwrap();
    book(&mut store, first_instant).unwrap();
    assert_eq!(
        forbidden("Cannot book session: member already has 1 booking(s) in this week."),
        book(&mut store, last_instant).unwrap_err()
    );
    book(&mut store, next_week).unwrap();
    book(&mut store, week_before).unwrap();
    book(&mut store, free_too).unwrap();
    assert_eq!(5, store.count_bookings());
    assert_eq!(1, store.paid_bookings(member_id, week_start, week_start + 7 * DAY));
}

#[test]
fn limited_member_with_taken_week_can_pay_with_credits() {
    let mut store = BookingStore::new();
    let member_id = create_person(&mut store, "member@example.org", "limited-member", 1);
    let first = create_session(&mut store, 1, NOON + DAY, "HIIT", "Oak Hill Park");
    let second = create_session(&mut store, 2, NOON + 2 * DAY, "Yoga", "Oak Hill Park");
    let third = create_session(&mut store, 3, NOON + 3 * DAY, "Yoga", "Oak Hill Park");
    let claim = claims(member_id, "m@example.com", &["limited-member"]);
    let booking = |session_id: i64, credits_used: Option<i16>| SessionBooking {
        person_id: member_id,
        session_id,
        credits_used,
    };
    create_booking_at(&mut store, "Europe/London", &claim, &booking(first, None), NOON).unwrap();
    assert_eq!(
        ErrorKind::PaymentRequired,
        create_booking_at(&mut store, "Europe/London", &claim, &booking(second, None), NOON).unwrap_err().kind
    );
    assert_eq!(
        Some(1),
        create_booking_at(&mut store, "Europe/London", &claim, &booking(second, Some(1)), NOON)
            .unwrap()
            .credits_used
    );
    assert_eq!(Some(0), store.credits(member_id));
    assert_eq!(
        forbidden("Cannot book session: member already has 2 booking(s) in this week."),
        create_booking_at(&mut store, "Europe/London", &claim, &booking(third, Some(1)), NOON).unwrap_err()
    );
}

#[test]
fn unknown_time_zone_is_an_internal_error_for_limited_members_only() {
    let mut store = BookingStore::new();
    let member_id = create_person(&mut store, "member@example.org", "limited-member", 0);
    let session_id = create_session(&mut store, 1, NOON + DAY, "HIIT", "Oak Hill Park");
    let booking = SessionBooking { person_id: member_id, session_id, credits_used: None };
    let claim = claims(member_id, "m@example.com", &["limited-member"]);
    let e = create_booking_at(&mut store, "Atlantis/Nowhere", &claim, &booking, NOON).unwrap_err();
    assert_eq!(
        ApiError {
            kind: ErrorKind::InternalError,
            message: "cannot tell the calendar week of the session".to_string()
        },
        e
    );
    let claim = claims(member_id, "m@example.com", &["member"]);
    create_booking_at(&mut store, "Atlantis/Nowhere", &claim, &booking, NOON).unwrap();
}

#[test]
fn run_in_a_given_week() {
    let mut store = BookingStore::new();
    let member_id = create_person(&mut store, "member@example.org", "limited-member", 0);
    let first = create_session(&mut store, 1, 100, "HIIT", "Oak Hill Park");
    let second = create_session(&mut store, 2, 200, "HIIT", "Oak Hill Park");
    let caller = Caller { uid: member_id, admin: false, membership: Membership::Limited };
    let job = |session_id: i64| Job {
        caller,
        request: Request::Create { person_id: member_id, session_id, credits_used: None },
        now: 50,
    };
    assert_eq!(
        Outcome::Booked(SessionBooking { person_id: member_id, session_id: first, credits_used: Some(0) }),
        store.run(job(first), Some(WeekBounds { start: 0, end: 150 }))
    );
    // the week ends before the first session: nothing is in the way
    assert_eq!(
        Outcome::Denied(Denial::Uncovered { refusal: Refusal::WeekTaken { bookings: 1 } }),
        store.run(job(second), Some(WeekBounds { start: 100, end: 201 }))
    );
    assert_eq!(
        Outcome::Denied(Denial::WeekUnknown),
        store.run(job(second), None)
    );
    assert_eq!(
        Outcome::Booked(SessionBooking { person_id: member_id, session_id: second, credits_used: Some(0) }),
        store.run(job(second), Some(WeekBounds { start: 101, end: 201 }))
    );
}

#[test]
fn restore_that_overflows_is_reported_after_the_booking_is_gone() {
    let mut store = BookingStore::new();
    let member_id = create_person(&mut store, "member@example.org", "", i32::MAX);
    let other_id = create_person(&mut store, "other@example.org", "", 0);
    let session_id = create_session(&mut store, 1, NOON + DAY, "HIIT", "Oak Hill Park");
    let claim = claims(member_id, "m@example.com", &[]);
    let booking = SessionBooking { person_id: member_id, session_id, credits_used: Some(1) };
    create_booking_at(&mut store, "Europe/London", &claim, &booking, NOON).unwrap();
    assert_eq!(Some(i32::MAX - 1), store.credits(member_id));
    // the balance is topped up behind the engine's back
    assert_eq!(
        gym_booking::flow::Event::Adjusted,
        store.perform(gym_booking::flow::Action::Restore { person_id: member_id, amount: 1 })
    );
    let e = delete_booking_at(&mut store, &claim, member_id, session_id, NOON).unwrap_err();
    assert_eq!(
        ApiError {
            kind: ErrorKind::InternalError,
            message: "the credit balance would be out of range".to_string()
        },
        e
    );
    assert_eq!(0, store.count_bookings());
    assert_eq!(Some(i32::MAX), store.credits(member_id));
    assert_eq!(Some(0), store.credits(other_id));
}

#[test]
fn attendance_is_marked_by_admins_only() {
    let mut store = BookingStore::new();
    let admin_id = create_person(&mut store, "admin@example.org", "admin", 0);
    let member_id = create_person(&mut store, "member@example.org", "member", 0);
    let session_id = create_session(&mut store, 1, NOON + DAY, "HIIT", "Oak Hill Park");
    let admin = claims(admin_id, "admin@example.com", &["admin"]);
    let member = claims(member_id, "m@example.com", &["member"]);
    let booking = SessionBooking { person_id: member_id, session_id, credits_used: None };
    create_booking_at(&mut store, "Europe/London", &member, &booking, NOON).unwrap();

    assert_eq!(
        forbidden("missing required role: admin"),
        update_booking(&mut store, &member, member_id, session_id, &BookingUpdate { attended: true })
            .unwrap_err()
    );
    assert!(!store.booking(member_id, session_id).unwrap().attended);
    assert_eq!(
        ApiError {
            kind: ErrorKind::NotFound,
            message: "No booking found with person_id=9 and session_id=1.".to_string()
        },
        update_booking(&mut store, &admin, 9, session_id, &BookingUpdate { attended: true }).unwrap_err()
    );
    update_booking(&mut store, &admin, member_id, session_id, &BookingUpdate { attended: true }).unwrap();
    assert_eq!(
        Some(Booking { person_id: member_id, session_id, credits_used: Some(0), attended: true }),
        store.booking(member_id, session_id)
    );
    update_booking(&mut store, &admin, member_id, session_id, &BookingUpdate { attended: false }).unwrap();
    assert!(!store.booking(member_id, session_id).unwrap().attended);
}

#[test]
fn denials_are_reported_with_kind_and_message() {
    let cases: Vec<(Denial, ErrorKind, &str)> = vec![
        (Denial::CreateForOther, ErrorKind::Forbidden, "Cannot create a booking for another user!"),
        (Denial::CancelForOther, ErrorKind::Forbidden, "Not allowed to cancel bookings for other users."),
        (Denial::SessionMissing { session_id: 7 }, ErrorKind::NotFound, "no session with id 7"),
        (Denial::CreateInPast, ErrorKind::Forbidden, "Cannot create booking in the past!"),
        (Denial::CancelInPast, ErrorKind::Forbidden, "Cannot cancel past booking."),
        (
            Denial::Uncovered { refusal: Refusal::NoMembership },
            ErrorKind::Forbidden,
            "Missing or expired membership, and no PAYG credits.",
        ),
        (
            Denial::Uncovered { refusal: Refusal::WeekTaken { bookings: 12 } },
            ErrorKind::Forbidden,
            "Cannot book session: member already has 12 booking(s) in this week.",
        ),
        (Denial::UserMissing, ErrorKind::Unauthorized, "missing user record"),
        (Denial::OptInRequired, ErrorKind::PaymentRequired, "Opt in to use credits for booking."),
        (
            Denial::Full { limit: i64::MIN },
            ErrorKind::Conflict,
            "Session has reached it maximum number of bookings: -9223372036854775808.",
        ),
        (
            Denial::BookingMissing { person_id: 3, session_id: 40 },
            ErrorKind::NotFound,
            "No booking found with person_id=3 and session_id=40.",
        ),
        (Denial::Backend { fault: Fault::UnknownSession }, ErrorKind::InternalError, "the session is not recorded"),
        (Denial::Backend { fault: Fault::UnknownPerson }, ErrorKind::InternalError, "the person is not recorded"),
        (
            Denial::Backend { fault: Fault::CreditsOutOfRange },
            ErrorKind::InternalError,
            "the credit balance would be out of range",
        ),
        (
            Denial::Backend { fault: Fault::DuplicateBooking },
            ErrorKind::Conflict,
            "the person already holds a booking of this session",
        ),
        (Denial::OutOfTurn, ErrorKind::InternalError, "no more results"),
    ];
    for (denial, kind, message) in cases {
        assert_eq!(
            Err(ApiError { kind, message: message.to_string() }),
            into_result(Outcome::Denied(denial))
        );
    }
    assert_eq!(409, ErrorKind::Conflict.status_code());
    assert_eq!(402, ErrorKind::PaymentRequired.status_code());
    assert_eq!(403, ErrorKind::Forbidden.status_code());
    assert_eq!(404, ErrorKind::NotFound.status_code());
    assert_eq!(422, ErrorKind::UnprocessableInput.status_code());
    assert_eq!(500, ErrorKind::InternalError.status_code());
}

#[test]
fn a_booking_can_be_looked_up_where_it_was_made() {
    assert_eq!(
        "/bookings?sessionid=12,person_id=-3",
        gym_booking::bookings::booking_location(&SessionBooking { person_id: -3, session_id: 12, credits_used: None })
    );
}

#[test]
fn named_steps_of_a_booking() {
    let mut store = BookingStore::new();
    let member_id = create_person(&mut store, "member@example.org", "limited-member", 0);
    let other_id = create_person(&mut store, "other@example.org", "limited-member", 0);
    let session_id = create_session(&mut store, 1, NOON + DAY, "HIIT", "Oak Hill Park");
    let facts = get_session_date_and_cost(&store, session_id).unwrap();
    assert_eq!(SessionDateAndCost { id: session_id, datetime: NOON + DAY, cost: 1 }, facts);
    assert_eq!(
        Err(ApiError { kind: ErrorKind::NotFound, message: "no session with id 8".to_string() }),
        get_session_date_and_cost(&store, 8)
    );
    assert_eq!(Ok(()), check_limited_member_has_no_bookings_in_same_week(&store, "Europe/London", member_id, &facts));
    assert_eq!(Ok(()), book_session_with_max_bookings(&mut store, member_id, session_id, 1, 0));
    assert_eq!(
        Err(ApiError {
            kind: ErrorKind::Conflict,
            message: "Session has reached it maximum number of bookings: 1.".to_string()
        }),
        book_session_with_max_bookings(&mut store, other_id, session_id, 1, 0)
    );
    assert_eq!(Ok(()), book_session_no_max_bookings(&mut store, other_id, session_id, 0));
    assert_eq!(
        Err(ApiError {
            kind: ErrorKind::Conflict,
            message: "the person already holds a booking of this session".to_string()
        }),
        book_session_no_max_bookings(&mut store, other_id, session_id, 0)
    );
    assert_eq!(
        Err(forbidden("Cannot book session: member already has 1 booking(s) in this week.")),
        check_limited_member_has_no_bookings_in_same_week(&store, "Europe/London", member_id, &facts)
    );
    assert_eq!(
        Ok(()),
        check_limited_member_in_week(&store, member_id, &facts, Some(WeekBounds { start: 0, end: NOON + DAY }))
    );
    assert_eq!(
        Ok(()),
        check_limited_member_in_week(&store, member_id, &SessionDateAndCost { cost: 0, ..facts }, None)
    );
    assert_eq!(
        ErrorKind::InternalError,
        check_limited_member_in_week(&store, member_id, &facts, None).unwrap_err().kind
    );
}

#[test]
fn free_sessions_are_for_members() {
    let mut store = BookingStore::new();
    let outsider = create_person(&mut store, "outsider@example.org", "", 9);
    let limited = create_person(&mut store, "limited@example.org", "limited-member", 0);
    let full = create_person(&mut store, "full@example.org", "member", 0);
    let free = create_session_with(&mut store, 1, NOON + DAY, "Walk", "Oak Hill Park", 0, Some(3));
    let booking = |person_id: i64| SessionBooking { person_id, session_id: free, credits_used: Some(1) };
    assert_eq!(
        forbidden("Missing or expired membership, and no PAYG credits."),
        create_booking_at(&mut store, "Europe/London", &claims(outsider, "o@example.com", &["trainer"]), &booking(outsider), NOON)
            .unwrap_err()
    );
    assert_eq!(Some(9), store.credits(outsider));
    create_booking_at(&mut store, "Europe/London", &claims(limited, "l@example.com", &["limited-member"]), &booking(limited), NOON)
        .unwrap();
    create_booking_at(&mut store, "Europe/London", &claims(full, "f@example.com", &["member"]), &booking(full), NOON).unwrap();
    // an admin books it for anybody
    create_booking_at(&mut store, "Europe/London", &claims(full, "f@example.com", &["admin"]), &booking(outsider), NOON)
        .unwrap();
    assert_eq!(3, store.seats_taken(free));
}

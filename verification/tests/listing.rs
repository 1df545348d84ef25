use gym_booking::bookings::{create_booking_at, update_booking, BookingUpdate};
use gym_booking::claims::Claims;
use gym_booking::error::{ApiError, ErrorKind};
use gym_booking::ledger::{Person, Session, SessionBooking};
use gym_booking::listing::{
    among, booking_filter, filters_by_type, get_attendance_stats, list_bookings, passes_type, within,
    AttendanceStat, BookingFilter, SessionBookingFull,
};
use gym_booking::order::{sort, Ranked};
use gym_booking::sessions::{SessionLocation, SessionType};
use gym_booking::store::BookingStore;
use gym_booking::text::text_precedes;

// Wednesday 2024-05-15 12:00:00 UTC
const NOON: i64 = 1_715_774_400_000_000;
const HOUR: i64 = 3_600_000_000;

fn claims(uid: i64, roles: &[&str]) -> Claims {
    let roles: Vec<String> = roles.iter().map(|r| r.to_string()).collect();
    Claims::create_at(uid, "joe@example.com", &None, &roles, 0, 60)
}

fn session_type(id: i32) -> SessionType {
    SessionType { id, name: format!("Type {}", id), requires_trainer: id % 2 == 1, cost: 1 }
}

fn gym() -> BookingStore {
    let mut store = BookingStore::new();
    for (id, name) in [(1, "Zoe"), (2, "Adam"), (3, "Mia"), (4, "adam")] {
        assert!(store.add_person(Person {
            id,
            name: name.to_string(),
            email: format!("{}@example.com", name),
            credits: 0,
        }));
    }
    for (id, hours, type_id, located) in [(10, 3, 1, true), (11, 1, 2, false), (12, 2, 1, true)] {
        assert!(store.add_session(Session {
            id,
            datetime: NOON + hours * HOUR,
            duration_mins: 45,
            session_type: session_type(type_id),
            location: if located {
                Some(SessionLocation { id: 7, name: "Oak Hill Park".to_string(), address: "Park Rd".to_string() })
            } else {
                None
            },
            cost: 0,
            max_booking_count: None,
        }));
    }
    let admin = claims(99, &["admin"]);
    for (person_id, session_id) in [(1, 10), (2, 10), (3, 11), (1, 11), (4, 10), (2, 12)] {
        create_booking_at(
            &mut store,
            "Europe/London",
            &admin,
            &SessionBooking { person_id, session_id, credits_used: None },
            NOON,
        )
        .unwrap();
    }
    store
}

fn keys(rows: &[SessionBookingFull]) -> Vec<(i64, i64)> {
    rows.iter().map(|r| (r.session_id, r.person_id)).collect()
}

#[test]
fn bookings_are_listed_by_session_start_then_person_name() {
    let store = gym();
    let rows = list_bookings(&store, &claims(99, &["admin"]), None, None, &None, &None).unwrap();
    assert_eq!(vec![(11, 3), (11, 1), (12, 2), (10, 2), (10, 1), (10, 4)], keys(&rows));
    let first = &rows[0];
    assert_eq!(
        &SessionBookingFull {
            person_id: 3,
            person_name: "Mia".to_string(),
            person_email: "Mia@example.com".to_string(),
            session_id: 11,
            session_datetime: NOON + HOUR,
            session_duration_mins: 45,
            session_location: None,
            session_type: session_type(2),
            attended: false,
            credits_used: 0,
        },
        first
    );
    assert_eq!(
        Some(SessionLocation { id: 7, name: "Oak Hill Park".to_string(), address: "Park Rd".to_string() }),
        rows[2].session_location
    );
}

#[test]
fn bookings_are_filtered_by_person_session_and_time() {
    let store = gym();
    let admin = claims(99, &["admin"]);
    let list = |session_id: Option<i64>, person_id: Option<i64>, from: Option<&str>, to: Option<&str>| {
        keys(
            &list_bookings(
                &store,
                &admin,
                session_id,
                person_id,
                &from.map(|t| t.to_string()),
                &to.map(|t| t.to_string()),
            )
            .unwrap(),
        )
    };
    assert_eq!(vec![(11, 1), (10, 1)], list(None, Some(1), None, None));
    assert_eq!(vec![(10, 2), (10, 1), (10, 4)], list(Some(10), None, None, None));
    assert_eq!(vec![(10, 4)], list(Some(10), Some(4), None, None));
    assert_eq!(Vec::<(i64, i64)>::new(), list(Some(12), Some(4), None, None));
    // bounds are inclusive: 14:00 UTC is when session 12 starts
    assert_eq!(vec![(12, 2), (10, 2), (10, 1), (10, 4)], list(None, None, Some("2024-05-15T14:00:00Z"), None));
    assert_eq!(vec![(11, 3), (11, 1), (12, 2)], list(None, None, None, Some("2024-05-15T15:00:00+01:00")));
    assert_eq!(
        vec![(12, 2)],
        list(None, None, Some("2024-05-15T13:00:00.000001Z"), Some("2024-05-15T14:59:59Z"))
    );
    assert_eq!(Vec::<(i64, i64)>::new(), list(None, None, Some("2024-05-15T16:00:00Z"), Some("2024-05-15T12:00:00Z")));
}

#[test]
fn members_list_their_own_bookings_only() {
    let store = gym();
    let member = claims(1, &["member"]);
    let refused = ApiError {
        kind: ErrorKind::Forbidden,
        message: "only admins can view bookings for other users".to_string(),
    };
    assert_eq!(
        vec![(11, 1), (10, 1)],
        keys(&list_bookings(&store, &member, None, Some(1), &None, &None).unwrap())
    );
    assert_eq!(Err(refused.clone()), list_bookings(&store, &member, None, Some(2), &None, &None));
    assert_eq!(Err(refused.clone()), list_bookings(&store, &member, Some(10), None, &None, &None));
    // who may ask is settled before the dates are read
    assert_eq!(
        Err(refused),
        list_bookings(&store, &member, None, None, &Some("no date".to_string()), &None)
    );
}

#[test]
fn unreadable_dates_are_unprocessable() {
    let store = gym();
    let admin = claims(99, &["admin"]);
    let bad = Some("tomorrow".to_string());
    let worse = Some("the day after tomorrow, around lunch time".to_string());
    let e = list_bookings(&store, &admin, None, None, &bad, &worse).unwrap_err();
    assert_eq!(ErrorKind::UnprocessableInput, e.kind);
    assert_eq!("premature end of input", e.message);
    let e = list_bookings(&store, &admin, None, None, &None, &worse).unwrap_err();
    assert_eq!(ErrorKind::UnprocessableInput, e.kind);
    assert_eq!("input contains invalid characters", e.message);
    assert_eq!(
        Ok(BookingFilter { person_id: Some(5), session_id: None, from: Some(0), to: None }),
        booking_filter(&admin, None, Some(5), &Some("1970-01-01T00:00:00Z".to_string()), &None)
    );
}

fn stat(person_id: i64, name: &str, attended_count: i64) -> AttendanceStat {
    AttendanceStat { person_id, name: name.to_string(), email: format!("{}@example.com", name), attended_count }
}

#[test]
fn attendance_counts_attended_bookings_of_the_given_types() {
    let mut store = gym();
    let admin = claims(99, &["admin"]);
    for (person_id, session_id) in [(1, 10), (1, 11), (2, 10), (3, 11)] {
        update_booking(&mut store, &admin, person_id, session_id, &BookingUpdate { attended: true }).unwrap();
    }
    assert_eq!(
        vec![stat(1, "Zoe", 2), stat(2, "Adam", 1), stat(3, "Mia", 1), stat(4, "adam", 0)],
        get_attendance_stats(&store, &admin, &None, &None, &vec![1, 2]).unwrap()
    );
    assert_eq!(
        vec![stat(2, "Adam", 1), stat(1, "Zoe", 1), stat(3, "Mia", 0), stat(4, "adam", 0)],
        get_attendance_stats(&store, &admin, &None, &None, &vec![1]).unwrap()
    );
    // where no type is named, every type counts
    assert_eq!(
        vec![stat(1, "Zoe", 2), stat(2, "Adam", 1), stat(3, "Mia", 1), stat(4, "adam", 0)],
        get_attendance_stats(&store, &admin, &None, &None, &vec![]).unwrap()
    );
    assert_eq!(
        vec![stat(2, "Adam", 1), stat(1, "Zoe", 1), stat(3, "Mia", 0), stat(4, "adam", 0)],
        get_attendance_stats(&store, &admin, &Some("2024-05-15T14:00:00Z".to_string()), &None, &vec![]).unwrap()
    );
    // a type that no session has counts nothing
    assert_eq!(
        vec![stat(2, "Adam", 0), stat(3, "Mia", 0), stat(1, "Zoe", 0), stat(4, "adam", 0)],
        get_attendance_stats(&store, &admin, &None, &None, &vec![9]).unwrap()
    );
    // session 11 starts at 13:00 UTC, session 10 at 15:00 UTC
    assert_eq!(
        vec![stat(3, "Mia", 1), stat(1, "Zoe", 1), stat(2, "Adam", 0), stat(4, "adam", 0)],
        get_attendance_stats(&store, &admin, &None, &Some("2024-05-15T13:00:00Z".to_string()), &vec![2, 1, 2])
            .unwrap()
    );
    assert_eq!(
        Err(ApiError { kind: ErrorKind::Forbidden, message: "missing required role: admin".to_string() }),
        get_attendance_stats(&store, &claims(1, &["member"]), &None, &None, &vec![1])
    );
    assert_eq!(
        ErrorKind::UnprocessableInput,
        get_attendance_stats(&store, &admin, &Some("x".to_string()), &None, &vec![1]).unwrap_err().kind
    );
}

#[test]
fn attendance_shows_every_person() {
    let mut store = BookingStore::new();
    assert!(store.add_session(Session {
        id: 1,
        datetime: NOON,
        duration_mins: 30,
        session_type: session_type(1),
        location: None,
        cost: 0,
        max_booking_count: None,
    }));
    let admin = claims(99, &["admin"]);
    for id in 1..=12 {
        assert!(store.add_person(Person {
            id,
            name: format!("Member {:02}", 13 - id),
            email: format!("p{}@example.com", id),
            credits: 0,
        }));
        create_booking_at(&mut store, "UTC", &admin, &SessionBooking { person_id: id, session_id: 1, credits_used: None }, 0)
            .unwrap();
    }
    for id in [3, 7] {
        update_booking(&mut store, &admin, id, 1, &BookingUpdate { attended: true }).unwrap();
    }
    let stats = get_attendance_stats(&store, &admin, &None, &None, &vec![1]).unwrap();
    assert_eq!(12, stats.len());
    let shown: Vec<(String, i64)> = stats.iter().map(|s| (s.name.clone(), s.attended_count)).collect();
    let mut expected = vec![("Member 06".to_string(), 1), ("Member 10".to_string(), 1)];
    for n in [1, 2, 3, 4, 5, 7, 8, 9, 11, 12] {
        expected.push((format!("Member {:02}", n), 0));
    }
    assert_eq!(expected, shown);
}

#[test]
fn texts_are_ordered_by_their_characters() {
    assert!(text_precedes("", ""));
    assert!(text_precedes("", "a"));
    assert!(!text_precedes("a", ""));
    assert!(text_precedes("Adam", "Adam"));
    assert!(text_precedes("Adam", "Adams"));
    assert!(!text_precedes("Adams", "Adam"));
    assert!(text_precedes("Zoe", "adam"));
    assert!(!text_precedes("adam", "Zoe"));
    assert!(text_precedes("z", "é"));
    assert!(text_precedes("é", "€"));
    assert!(!text_precedes("ab", "aa"));
    for (a, b) in [("x", "y"), ("Émile", "Zoë"), ("a", "a "), ("10", "9")] {
        assert_eq!(a <= b, text_precedes(a, b));
        assert_eq!(b <= a, text_precedes(b, a));
    }
}

#[test]
fn sort_keeps_every_row() {
    let rows = vec![stat(1, "b", 0), stat(2, "a", 0), stat(3, "c", 5), stat(4, "a", 0), stat(5, "", 5)];
    let sorted = sort(rows);
    assert_eq!(vec![5, 3, 4, 2, 1].len(), sorted.len());
    assert_eq!(
        vec![("".to_string(), 5), ("c".to_string(), 5), ("a".to_string(), 0), ("a".to_string(), 0), ("b".to_string(), 0)],
        sorted.iter().map(|s| (s.name.clone(), s.attended_count)).collect::<Vec<_>>()
    );
    let mut ids: Vec<i64> = sorted.iter().map(|s| s.person_id).collect();
    ids.sort();
    assert_eq!(vec![1, 2, 3, 4, 5], ids);
    for pair in sorted.windows(2) {
        assert!(pair[0].stands_before(&pair[1]));
    }
    assert_eq!(Vec::<AttendanceStat>::new(), sort(Vec::new()));
}

#[test]
fn ranges_and_lists() {
    assert!(within(5, None, None));
    assert!(within(5, Some(5), Some(5)));
    assert!(!within(5, Some(6), None));
    assert!(!within(5, None, Some(4)));
    assert!(!within(5, Some(6), Some(4)));
    assert!(among(&vec![3, 1, 2], 2));
    assert!(!among(&vec![3, 1, 2], 4));
    assert!(!among(&vec![], 0));
    assert!(!filters_by_type(&vec![]));
    assert!(filters_by_type(&vec![0]));
    assert!(passes_type(&vec![], 5));
    assert!(passes_type(&vec![4, 5], 5));
    assert!(!passes_type(&vec![4], 5));
}

#[test]
fn joined_rows_take_defaults_for_what_they_lack() {
    let row = SessionBookingFull::from_row(
        1,
        "Zoe".to_string(),
        "zoe@example.com".to_string(),
        2,
        NOON,
        60,
        None,
        session_type(1),
        None,
        3,
    );
    assert!(!row.attended);
    assert_eq!(3, row.credits_used);
    assert_eq!(None, row.session_location);
}

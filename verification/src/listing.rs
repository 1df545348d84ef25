//! Reading bookings: the joined list of bookings and the attendance
//! statistics.
use vstd::prelude::*;
use vstd::string::*;

use crate::calendar::{filter_of, parse_opt_date, reading_of, text_of};
use crate::claims::{missing_role, Claims};
use crate::error::{failure, ApiError, ErrorKind, ErrorView};
use crate::ledger::{tally, Booking, Ledger, Person, Session};
use crate::order::{ordered, sort, Ranked};
use crate::sessions::{SessionLocation, SessionType};
use crate::store::BookingStore;
use crate::text::{lemma_text_le_total, text_le, text_precedes};

verus! {

/// A booking with what is known of its person and its session.
#[derive(Clone, Debug, PartialEq, Eq)]
pub struct SessionBookingFull {
    pub person_id: i64,
    pub person_name: String,
    pub person_email: String,
    pub session_id: i64,
    pub session_datetime: i64,
    pub session_duration_mins: i32,
    /// Where the session takes place; `None` for a session without a fixed
    /// location.
    pub session_location: Option<SessionLocation>,
    pub session_type: SessionType,
    pub attended: bool,
    pub credits_used: i16,
}

impl SessionBookingFull {
    /// The booking that a joined row shows. A row that does not say whether
    /// the booking was attended is taken to say no.
    pub fn from_row(
        person_id: i64,
        person_name: String,
        person_email: String,
        session_id: i64,
        session_datetime: i64,
        session_duration_mins: i32,
        session_location: Option<SessionLocation>,
        session_type: SessionType,
        attended: Option<bool>,
        credits_used: i16,
    ) -> (row: SessionBookingFull)
        ensures
            row == (SessionBookingFull {
                person_id,
                person_name,
                person_email,
                session_id,
                session_datetime,
                session_duration_mins,
                session_location,
                session_type,
                attended: match attended {
                    Some(a) => a,
                    None => false,
                },
                credits_used,
            }),
    {
        let attended: bool = match attended {
            Some(a) => a,
            None => false,
        };
        SessionBookingFull {
            person_id,
            person_name,
            person_email,
            session_id,
            session_datetime,
            session_duration_mins,
            session_location,
            session_type,
            attended,
            credits_used,
        }
    }
}

/// Which bookings a list is to hold: those of a person, of a session, of
/// sessions that start at `from` or later, at `to` or earlier; each only
/// where it is given.
#[derive(Clone, Copy, Debug, PartialEq, Eq)]
pub struct BookingFilter {
    pub person_id: Option<i64>,
    pub session_id: Option<i64>,
    pub from: Option<i64>,
    pub to: Option<i64>,
}

/// Whether an instant lies in the range that two optional bounds leave.
pub open spec fn in_range(at: i64, from: Option<i64>, to: Option<i64>) -> bool {
    &&& from matches Some(f) ==> at >= f
    &&& to matches Some(t) ==> at <= t
}

/// Whether an instant lies in the range that two optional bounds leave.
pub fn within(at: i64, from: Option<i64>, to: Option<i64>) -> (r: bool)
    ensures
        r == in_range(at, from, to),
{
    let after: bool = match from {
        Some(f) => at >= f,
        None => true,
    };
    let before: bool = match to {
        Some(t) => at <= t,
        None => true,
    };
    after && before
}

impl BookingFilter {
    /// Whether the filter lets a booking of the given session through.
    pub open spec fn admits(self, b: Booking, s: Session) -> bool {
        &&& self.person_id matches Some(p) ==> b.person_id == p
        &&& self.session_id matches Some(id) ==> b.session_id == id
        &&& in_range(s.datetime, self.from, self.to)
    }

    /// Whether the filter lets a booking of the given session through.
    pub fn lets_through(&self, b: &Booking, s: &Session) -> (r: bool)
        ensures
            r == self.admits(*b, *s),
    {
        let person_fits: bool = match self.person_id {
            Some(p) => b.person_id == p,
            None => true,
        };
        let session_fits: bool = match self.session_id {
            Some(id) => b.session_id == id,
            None => true,
        };
        person_fits && session_fits && within(s.datetime, self.from, self.to)
    }
}

/// The credits that a stored booking took.
pub open spec fn credits_recorded(b: Booking) -> i16 {
    match b.credits_used {
        Some(c) => c,
        None => 0i16,
    }
}

/// The row that a booking makes with its person and its session.
pub open spec fn full_row(b: Booking, p: Person, s: Session) -> SessionBookingFull {
    SessionBookingFull {
        person_id: b.person_id,
        person_name: p.name,
        person_email: p.email,
        session_id: b.session_id,
        session_datetime: s.datetime,
        session_duration_mins: s.duration_mins,
        session_location: s.location,
        session_type: s.session_type,
        attended: b.attended,
        credits_used: credits_recorded(b),
    }
}

/// The row of a booking in a ledger.
pub open spec fn row_of(l: Ledger, b: Booking) -> SessionBookingFull {
    full_row(
        b,
        l.persons[l.person_index(b.person_id)],
        l.sessions[l.session_index(b.session_id)],
    )
}

/// The rows of the first `upto` bookings that the filter lets through, in
/// the order of the ledger.
pub open spec fn selected_rows(l: Ledger, filter: BookingFilter, upto: int) -> Seq<SessionBookingFull>
    decreases upto,
{
    if upto <= 0 {
        Seq::empty()
    } else {
        let b = l.bookings[upto - 1];
        let rest = selected_rows(l, filter, upto - 1);
        if filter.admits(b, l.sessions[l.session_index(b.session_id)]) {
            rest.push(row_of(l, b))
        } else {
            rest
        }
    }
}

impl Ranked for SessionBookingFull {
    /// By the start of the session, and among bookings of sessions that
    /// start together by the name of the person.
    open spec fn before(&self, other: &Self) -> bool {
        self.session_datetime < other.session_datetime || (self.session_datetime
            == other.session_datetime && text_le(self.person_name@, other.person_name@))
    }

    fn stands_before(&self, other: &Self) -> (r: bool) {
        self.session_datetime < other.session_datetime || (self.session_datetime
            == other.session_datetime && text_precedes(
            self.person_name.as_str(),
            other.person_name.as_str(),
        ))
    }

    proof fn lemma_either_way(a: &Self, b: &Self) {
        lemma_text_le_total(a.person_name@, b.person_name@);
    }
}

/// The refusal of a list of somebody else's bookings.
pub open spec fn others_bookings_refused() -> ErrorView {
    failure(ErrorKind::Forbidden, "only admins can view bookings for other users"@)
}

/// The filter of a list of bookings that `claim` asks for, given what the
/// texts of the two date bounds read as. An admin may list any bookings.
/// Anybody else must name themselves as the person. A date bound that
/// cannot be read is refused, the lower one first.
pub open spec fn listing_filter(
    claim: Claims,
    session_id: Option<i64>,
    person_id: Option<i64>,
    from: Option<Result<i64, Seq<char>>>,
    to: Option<Result<i64, Seq<char>>>,
) -> Result<BookingFilter, ErrorView> {
    if !(claim.admin() || person_id == Some(claim.uid)) {
        Err(others_bookings_refused())
    } else {
        match filter_of(from) {
            Err(e) => Err(e),
            Ok(from) => match filter_of(to) {
                Err(e) => Err(e),
                Ok(to) => Ok(BookingFilter { person_id, session_id, from, to }),
            },
        }
    }
}

/// A filter or its refusal, with the refusal as kind and message.
pub open spec fn filter_told(r: Result<BookingFilter, ApiError>) -> Result<BookingFilter, ErrorView> {
    match r {
        Ok(f) => Ok(f),
        Err(e) => Err(e@),
    }
}

/// Whether `claim` may list the bookings of `person_id`.
pub fn may_list(claim: &Claims, person_id: Option<i64>) -> (allowed: bool)
    ensures
        allowed == (claim.admin() || person_id == Some(claim.uid)),
{
    let own: bool = match person_id {
        Some(p) => p == claim.uid,
        None => false,
    };
    own || claim.has_role("admin")
}

/// The filter of a list of bookings: who may ask for what, with the date
/// bounds read from text.
pub fn booking_filter(
    claim: &Claims,
    session_id: Option<i64>,
    person_id: Option<i64>,
    from: &Option<String>,
    to: &Option<String>,
) -> (r: Result<BookingFilter, ApiError>)
    ensures
        filter_told(r) == listing_filter(
            *claim,
            session_id,
            person_id,
            reading_of(text_of(*from)),
            reading_of(text_of(*to)),
        ),
{
    if !may_list(claim, person_id) {
        return Err(
            ApiError::new(ErrorKind::Forbidden, "only admins can view bookings for other users"),
        );
    }
    let from: Option<i64> = match parse_opt_date(from) {
        Ok(at) => at,
        Err(e) => { return Err(e); },
    };
    let to: Option<i64> = match parse_opt_date(to) {
        Ok(at) => at,
        Err(e) => { return Err(e); },
    };
    Ok(BookingFilter { person_id, session_id, from, to })
}

/// How often a person attended.
#[derive(Clone, Debug, PartialEq, Eq)]
pub struct AttendanceStat {
    pub person_id: i64,
    pub name: String,
    pub email: String,
    pub attended_count: i64,
}

/// Whether a session of the given type passes the filter by type: every
/// type passes where no type is named, else the named types do.
pub open spec fn type_passes(session_types: Seq<i32>, type_id: i32) -> bool {
    session_types.len() == 0 || session_types.contains(type_id)
}

/// Whether the attendance is filtered by type: it is where a type is named.
pub fn filters_by_type(session_types: &Vec<i32>) -> (filtered: bool)
    ensures
        filtered == (session_types@.len() > 0),
        !filtered ==> forall|type_id: i32| type_passes(session_types@, type_id),
{
    session_types.len() > 0
}

/// Whether a session of the given type passes the filter by type.
pub fn passes_type(session_types: &Vec<i32>, type_id: i32) -> (passes: bool)
    ensures
        passes == type_passes(session_types@, type_id),
{
    !filters_by_type(session_types) || among(session_types, type_id)
}

/// Whether a booking counts as an attendance of the person: it is the
/// person's, it was attended, and its session starts in the range of time
/// and passes the filter by type.
pub open spec fn counts_for(
    l: Ledger,
    from: Option<i64>,
    to: Option<i64>,
    session_types: Seq<i32>,
    person_id: i64,
    b: Booking,
) -> bool {
    &&& b.person_id == person_id
    &&& b.attended
    &&& l.session_of(b.session_id) matches Some(s)
    &&& in_range(s.datetime, from, to)
    &&& type_passes(session_types, s.session_type.id)
}

/// A count as the number that reports it.
pub open spec fn as_count(n: nat) -> i64 {
    if n > i64::MAX {
        i64::MAX
    } else {
        n as i64
    }
}

/// The attendance of a person in a ledger.
pub open spec fn stat_of(
    l: Ledger,
    from: Option<i64>,
    to: Option<i64>,
    session_types: Seq<i32>,
    p: Person,
) -> AttendanceStat {
    AttendanceStat {
        person_id: p.id,
        name: p.name,
        email: p.email,
        attended_count: as_count(
            tally(l.bookings, |b: Booking| counts_for(l, from, to, session_types, p.id, b)),
        ),
    }
}

/// The attendance of the first `upto` persons, in the order of the ledger.
pub open spec fn stat_rows(
    l: Ledger,
    from: Option<i64>,
    to: Option<i64>,
    session_types: Seq<i32>,
    upto: int,
) -> Seq<AttendanceStat>
    decreases upto,
{
    if upto <= 0 {
        Seq::empty()
    } else {
        stat_rows(l, from, to, session_types, upto - 1).push(
            stat_of(l, from, to, session_types, l.persons[upto - 1]),
        )
    }
}

impl Ranked for AttendanceStat {
    /// By attendance, the most first, and among persons who attended
    /// equally often by name.
    open spec fn before(&self, other: &Self) -> bool {
        self.attended_count > other.attended_count || (self.attended_count == other.attended_count
            && text_le(self.name@, other.name@))
    }

    fn stands_before(&self, other: &Self) -> (r: bool) {
        self.attended_count > other.attended_count || (self.attended_count == other.attended_count
            && text_precedes(self.name.as_str(), other.name.as_str()))
    }

    proof fn lemma_either_way(a: &Self, b: &Self) {
        lemma_text_le_total(a.name@, b.name@);
    }
}

/// Whether `wanted` is among `ids`.
pub fn among(ids: &Vec<i32>, wanted: i32) -> (found: bool)
    ensures
        found == ids@.contains(wanted),
{
    let mut i: usize = 0;
    while i < ids.len()
        invariant
            i <= ids.len(),
            forall|j: int| 0 <= j < i ==> ids@[j] != wanted,
        decreases ids.len() - i,
    {
        if ids[i] == wanted {
            return true;
        }
        i += 1;
    }
    false
}

impl BookingStore {
    /// The rows of the bookings that the filter lets through, ordered by the
    /// start of the session and then by the name of the person.
    pub fn select_bookings(&self, filter: &BookingFilter) -> (rows: Vec<SessionBookingFull>)
        requires
            self.wf(),
        ensures
            ordered(rows@),
            rows@.to_multiset() == selected_rows(self@, *filter, self@.bookings.len() as int).to_multiset(),
    {
        let mut rows: Vec<SessionBookingFull> = Vec::new();
        let n: usize = self.count_bookings();
        let mut i: usize = 0;
        while i < n
            invariant
                self.wf(),
                n == self@.bookings.len(),
                i <= n,
                rows@ == selected_rows(self@, *filter, i as int),
            decreases n - i,
        {
            let row: Option<SessionBookingFull> = self.row_at(i, filter);
            match row {
                Some(r) => {
                    rows.push(r);
                },
                None => {},
            }
            i += 1;
        }
        sort(rows)
    }

    /// The attendance of every person, the most attended first, persons who
    /// attended equally often by name.
    pub fn attendance(&self, from: Option<i64>, to: Option<i64>, session_types: &Vec<i32>) -> (stats:
        Vec<AttendanceStat>)
        requires
            self.wf(),
        ensures
            ordered(stats@),
            stats@.to_multiset() == stat_rows(
                self@,
                from,
                to,
                session_types@,
                self@.persons.len() as int,
            ).to_multiset(),
    {
        let mut rows: Vec<AttendanceStat> = Vec::new();
        let n: usize = self.count_persons();
        let mut i: usize = 0;
        while i < n
            invariant
                self.wf(),
                n == self@.persons.len(),
                i <= n,
                rows@ == stat_rows(self@, from, to, session_types@, i as int),
            decreases n - i,
        {
            rows.push(self.stat_at(i, from, to, session_types));
            i += 1;
        }
        sort(rows)
    }
}

/// A list of bookings or its refusal, with the refusal as kind and message.
pub open spec fn list_told(r: Result<Vec<SessionBookingFull>, ApiError>) -> Result<(), ErrorView> {
    match r {
        Ok(_) => Ok(()),
        Err(e) => Err(e@),
    }
}

/// Lists bookings with what is known of their persons and sessions. An
/// admin may list any; anybody else only their own, and must say so. The
/// list holds the bookings that the filter lets through, ordered by the
/// start of the session and then by the name of the person.
pub fn list_bookings(
    store: &BookingStore,
    claim: &Claims,
    session_id: Option<i64>,
    person_id: Option<i64>,
    from: &Option<String>,
    to: &Option<String>,
) -> (r: Result<Vec<SessionBookingFull>, ApiError>)
    requires
        store.wf(),
    ensures
        match r {
            Ok(rows) => listing_filter(
                *claim,
                session_id,
                person_id,
                reading_of(text_of(*from)),
                reading_of(text_of(*to)),
            ) matches Ok(filter) && ordered(rows@) && rows@.to_multiset() == selected_rows(
                store@,
                filter,
                store@.bookings.len() as int,
            ).to_multiset(),
            Err(e) => listing_filter(
                *claim,
                session_id,
                person_id,
                reading_of(text_of(*from)),
                reading_of(text_of(*to)),
            ) == Err::<BookingFilter, ErrorView>(e@),
        },
{
    match booking_filter(claim, session_id, person_id, from, to) {
        Ok(filter) => Ok(store.select_bookings(&filter)),
        Err(e) => Err(e),
    }
}

/// The bounds of the attendance statistics that `claim` asks for, given
/// what the texts of the two bounds read as. Only an admin may ask. A bound
/// that cannot be read is refused, the lower one first.
pub open spec fn stats_bounds(
    claim: Claims,
    from: Option<Result<i64, Seq<char>>>,
    to: Option<Result<i64, Seq<char>>>,
) -> Result<(Option<i64>, Option<i64>), ErrorView> {
    if !claim.admin() {
        Err(missing_role("admin"@))
    } else {
        match filter_of(from) {
            Err(e) => Err(e),
            Ok(from) => match filter_of(to) {
                Err(e) => Err(e),
                Ok(to) => Ok((from, to)),
            },
        }
    }
}

/// The bounds of the attendance statistics: who may ask, with the bounds
/// read from text.
pub fn attendance_bounds(claim: &Claims, from: &Option<String>, to: &Option<String>) -> (r: Result<
    (Option<i64>, Option<i64>),
    ApiError,
>)
    ensures
        match r {
            Ok(bounds) => stats_bounds(*claim, reading_of(text_of(*from)), reading_of(text_of(*to)))
                == Ok::<(Option<i64>, Option<i64>), ErrorView>(bounds),
            Err(e) => stats_bounds(*claim, reading_of(text_of(*from)), reading_of(text_of(*to)))
                == Err::<(Option<i64>, Option<i64>), ErrorView>(e@),
        },
{
    match claim.assert_roles_contains("admin") {
        Err(e) => { return Err(e); },
        Ok(_) => {},
    }
    let from: Option<i64> = match parse_opt_date(from) {
        Ok(at) => at,
        Err(e) => { return Err(e); },
    };
    let to: Option<i64> = match parse_opt_date(to) {
        Ok(at) => at,
        Err(e) => { return Err(e); },
    };
    Ok((from, to))
}

/// The attendance statistics: for every person the number of attended
/// bookings of sessions in the range of time and, where types are named, of
/// one of these types; the most attended first, then by name. Only an admin
/// may ask.
pub fn get_attendance_stats(
    store: &BookingStore,
    claim: &Claims,
    from: &Option<String>,
    to: &Option<String>,
    session_type: &Vec<i32>,
) -> (r: Result<Vec<AttendanceStat>, ApiError>)
    requires
        store.wf(),
    ensures
        match r {
            Ok(stats) => stats_bounds(*claim, reading_of(text_of(*from)), reading_of(text_of(*to)))
                matches Ok(bounds) && ordered(stats@) && stats@.to_multiset() == stat_rows(
                store@,
                bounds.0,
                bounds.1,
                session_type@,
                store@.persons.len() as int,
            ).to_multiset(),
            Err(e) => stats_bounds(*claim, reading_of(text_of(*from)), reading_of(text_of(*to)))
                == Err::<(Option<i64>, Option<i64>), ErrorView>(e@),
        },
{
    match attendance_bounds(claim, from, to) {
        Ok(bounds) => Ok(store.attendance(bounds.0, bounds.1, session_type)),
        Err(e) => Err(e),
    }
}

} // verus!

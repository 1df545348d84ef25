//! Creating, cancelling and marking bookings.
use vstd::prelude::*;
use vstd::string::*;

use crate::calendar::{now, week_bounds, week_of, WeekBounds};
use crate::claims::{missing_role, Claims};
use crate::error::{failure, ApiError, ErrorKind, ErrorView};
use crate::flow::{Action, Denial, Event, Fault, Job, Outcome, Refusal, Request};
use crate::ledger::{SessionBooking, SessionDateAndCost};
use crate::rules::{session_week, settle, week_refusal};
use crate::store::{insert, insert_below, BookingStore};
use crate::text::{decimal, digits, push_decimal, push_digits};

verus! {

impl Fault {
    /// The kind of error that the fault is reported as: a second booking of
    /// one person for one session is a conflict, every other fault an
    /// internal error.
    pub open spec fn kind(self) -> ErrorKind {
        match self {
            Fault::DuplicateBooking => ErrorKind::Conflict,
            _ => ErrorKind::InternalError,
        }
    }

    /// The kind of error that the fault is reported as.
    pub fn error_kind(self) -> (kind: ErrorKind)
        ensures
            kind == self.kind(),
    {
        match self {
            Fault::DuplicateBooking => ErrorKind::Conflict,
            _ => ErrorKind::InternalError,
        }
    }

    /// What the fault is, in words.
    pub open spec fn text(self) -> Seq<char> {
        match self {
            Fault::DuplicateBooking => "the person already holds a booking of this session"@,
            Fault::UnknownPerson => "the person is not recorded"@,
            Fault::UnknownSession => "the session is not recorded"@,
            Fault::CreditsOutOfRange => "the credit balance would be out of range"@,
        }
    }

    /// What the fault is, in words.
    pub fn to_text(self) -> (s: String)
        ensures
            s@ == self.text(),
    {
        match self {
            Fault::DuplicateBooking => String::from_str(
                "the person already holds a booking of this session",
            ),
            Fault::UnknownPerson => String::from_str("the person is not recorded"),
            Fault::UnknownSession => String::from_str("the session is not recorded"),
            Fault::CreditsOutOfRange => String::from_str("the credit balance would be out of range"),
        }
    }
}

/// The message for a booking that is not there.
pub open spec fn no_booking_message(person_id: i64, session_id: i64) -> Seq<char> {
    "No booking found with person_id="@ + decimal(person_id as int) + " and session_id="@ + decimal(
        session_id as int,
    ) + "."@
}

/// The message for a booking that is not there.
pub fn no_booking_text(person_id: i64, session_id: i64) -> (s: String)
    ensures
        s@ == no_booking_message(person_id, session_id),
{
    let mut s: String = String::from_str("No booking found with person_id=");
    push_decimal(&mut s, person_id);
    s.append(" and session_id=");
    push_decimal(&mut s, session_id);
    s.append(".");
    s
}

impl Denial {
    /// The kind of error that the denial is reported as.
    pub open spec fn kind(self) -> ErrorKind {
        match self {
            Denial::CreateForOther => ErrorKind::Forbidden,
            Denial::CancelForOther => ErrorKind::Forbidden,
            Denial::SessionMissing { .. } => ErrorKind::NotFound,
            Denial::CreateInPast => ErrorKind::Forbidden,
            Denial::CancelInPast => ErrorKind::Forbidden,
            Denial::Uncovered { .. } => ErrorKind::Forbidden,
            Denial::WeekUnknown => ErrorKind::InternalError,
            Denial::UserMissing => ErrorKind::Unauthorized,
            Denial::OptInRequired => ErrorKind::PaymentRequired,
            Denial::Full { .. } => ErrorKind::Conflict,
            Denial::BookingMissing { .. } => ErrorKind::NotFound,
            Denial::Backend { fault } => fault.kind(),
            Denial::OutOfTurn => ErrorKind::InternalError,
        }
    }

    /// The message that the denial is reported with.
    pub open spec fn message(self) -> Seq<char> {
        match self {
            Denial::CreateForOther => "Cannot create a booking for another user!"@,
            Denial::CancelForOther => "Not allowed to cancel bookings for other users."@,
            Denial::SessionMissing { session_id } => "no session with id "@ + decimal(
                session_id as int,
            ),
            Denial::CreateInPast => "Cannot create booking in the past!"@,
            Denial::CancelInPast => "Cannot cancel past booking."@,
            Denial::Uncovered { refusal: Refusal::NoMembership } => "Missing or expired membership, and no PAYG credits."@,
            Denial::Uncovered { refusal: Refusal::WeekTaken { bookings } } => "Cannot book session: member already has "@
                + digits(bookings as nat) + " booking(s) in this week."@,
            Denial::WeekUnknown => "cannot tell the calendar week of the session"@,
            Denial::UserMissing => "missing user record"@,
            Denial::OptInRequired => "Opt in to use credits for booking."@,
            Denial::Full { limit } => "Session has reached it maximum number of bookings: "@
                + decimal(limit as int) + "."@,
            Denial::BookingMissing { person_id, session_id } => no_booking_message(
                person_id,
                session_id,
            ),
            Denial::Backend { fault } => fault.text(),
            Denial::OutOfTurn => "no more results"@,
        }
    }

    /// The kind of error that the denial is reported as.
    pub fn error_kind(self) -> (kind: ErrorKind)
        ensures
            kind == self.kind(),
    {
        match self {
            Denial::CreateForOther => ErrorKind::Forbidden,
            Denial::CancelForOther => ErrorKind::Forbidden,
            Denial::SessionMissing { .. } => ErrorKind::NotFound,
            Denial::CreateInPast => ErrorKind::Forbidden,
            Denial::CancelInPast => ErrorKind::Forbidden,
            Denial::Uncovered { .. } => ErrorKind::Forbidden,
            Denial::WeekUnknown => ErrorKind::InternalError,
            Denial::UserMissing => ErrorKind::Unauthorized,
            Denial::OptInRequired => ErrorKind::PaymentRequired,
            Denial::Full { .. } => ErrorKind::Conflict,
            Denial::BookingMissing { .. } => ErrorKind::NotFound,
            Denial::Backend { fault } => fault.error_kind(),
            Denial::OutOfTurn => ErrorKind::InternalError,
        }
    }

    /// The message that the denial is reported with.
    pub fn to_text(self) -> (s: String)
        ensures
            s@ == self.message(),
    {
        match self {
            Denial::CreateForOther => String::from_str("Cannot create a booking for another user!"),
            Denial::CancelForOther => String::from_str(
                "Not allowed to cancel bookings for other users.",
            ),
            Denial::SessionMissing { session_id } => {
                let mut s: String = String::from_str("no session with id ");
                push_decimal(&mut s, session_id);
                s
            },
            Denial::CreateInPast => String::from_str("Cannot create booking in the past!"),
            Denial::CancelInPast => String::from_str("Cannot cancel past booking."),
            Denial::Uncovered { refusal: Refusal::NoMembership } => String::from_str(
                "Missing or expired membership, and no PAYG credits.",
            ),
            Denial::Uncovered { refusal: Refusal::WeekTaken { bookings } } => {
                let mut s: String = String::from_str("Cannot book session: member already has ");
                push_digits(&mut s, bookings);
                s.append(" booking(s) in this week.");
                s
            },
            Denial::WeekUnknown => String::from_str("cannot tell the calendar week of the session"),
            Denial::UserMissing => String::from_str("missing user record"),
            Denial::OptInRequired => String::from_str("Opt in to use credits for booking."),
            Denial::Full { limit } => {
                let mut s: String = String::from_str(
                    "Session has reached it maximum number of bookings: ",
                );
                push_decimal(&mut s, limit);
                s.append(".");
                s
            },
            Denial::BookingMissing { person_id, session_id } => no_booking_text(
                person_id,
                session_id,
            ),
            Denial::Backend { fault } => fault.to_text(),
            Denial::OutOfTurn => String::from_str("no more results"),
        }
    }

    /// The error that the denial is reported as.
    pub fn to_error(self) -> (e: ApiError)
        ensures
            e@ == failure(self.kind(), self.message()),
    {
        ApiError::with_message(self.error_kind(), self.to_text())
    }
}

/// What the caller is told of an outcome: the booking that was made or
/// cancelled, or the error of the denial.
pub open spec fn answer(outcome: Outcome) -> Result<SessionBooking, ErrorView> {
    match outcome {
        Outcome::Booked(b) => Ok(b),
        Outcome::Cancelled(b) => Ok(b),
        Outcome::Denied(denial) => Err(failure(denial.kind(), denial.message())),
    }
}

/// A result with its error as kind and message.
pub open spec fn told(r: Result<SessionBooking, ApiError>) -> Result<SessionBooking, ErrorView> {
    match r {
        Ok(b) => Ok(b),
        Err(e) => Err(e@),
    }
}

/// What the caller is told of an outcome.
pub fn into_result(outcome: Outcome) -> (r: Result<SessionBooking, ApiError>)
    ensures
        told(r) == answer(outcome),
{
    match outcome {
        Outcome::Booked(b) => Ok(b),
        Outcome::Cancelled(b) => Ok(b),
        Outcome::Denied(denial) => Err(denial.to_error()),
    }
}

/// The request to create `booking`, made by `claim` at `now`.
pub open spec fn create_job(claim: Claims, booking: SessionBooking, now: i64) -> Job {
    Job {
        caller: claim.as_caller(),
        request: Request::Create {
            person_id: booking.person_id,
            session_id: booking.session_id,
            credits_used: booking.credits_used,
        },
        now,
    }
}

/// The request to cancel the person's booking of the session, made by
/// `claim` at `now`.
pub open spec fn cancel_job(claim: Claims, person_id: i64, session_id: i64, now: i64) -> Job {
    Job { caller: claim.as_caller(), request: Request::Cancel { person_id, session_id }, now }
}

/// Creates a booking at the instant `now`, with the calendar weeks of the
/// named time zone. The store and the answer are what the booking rules say.
pub fn create_booking_at(
    store: &mut BookingStore,
    timezone: &str,
    claim: &Claims,
    booking: &SessionBooking,
    now: i64,
) -> (r: Result<SessionBooking, ApiError>)
    requires
        old(store).wf(),
    ensures
        final(store).wf(),
        old(store).within_capacity() ==> final(store).within_capacity(),
        final(store)@ == settle(
            old(store)@,
            create_job(*claim, *booking, now),
            session_week(old(store)@, timezone@, booking.session_id),
        ).0,
        told(r) == answer(
            settle(
                old(store)@,
                create_job(*claim, *booking, now),
                session_week(old(store)@, timezone@, booking.session_id),
            ).1,
        ),
{
    let job = Job {
        caller: claim.caller(),
        request: Request::Create {
            person_id: booking.person_id,
            session_id: booking.session_id,
            credits_used: booking.credits_used,
        },
        now,
    };
    let week: Option<WeekBounds> = match store.session_date_and_cost(booking.session_id) {
        Some(s) => week_bounds(timezone, s.datetime),
        None => None,
    };
    into_result(store.run(job, week))
}

/// Creates a booking now. Whatever the clock shows, the store and the answer
/// are what the booking rules say for that instant.
pub fn create_booking(
    store: &mut BookingStore,
    timezone: &str,
    claim: &Claims,
    booking: &SessionBooking,
) -> (r: Result<SessionBooking, ApiError>)
    requires
        old(store).wf(),
    ensures
        final(store).wf(),
        old(store).within_capacity() ==> final(store).within_capacity(),
        exists|at: i64|
            {
                &&& final(store)@ == (#[trigger] settle(
                    old(store)@,
                    create_job(*claim, *booking, at),
                    session_week(old(store)@, timezone@, booking.session_id),
                )).0
                &&& told(r) == answer(
                    settle(
                        old(store)@,
                        create_job(*claim, *booking, at),
                        session_week(old(store)@, timezone@, booking.session_id),
                    ).1,
                )
            },
{
    let at: i64 = now();
    let r = create_booking_at(store, timezone, claim, booking, at);
    assert(final(store)@ == settle(
        old(store)@,
        create_job(*claim, *booking, at),
        session_week(old(store)@, timezone@, booking.session_id),
    ).0);
    r
}

/// Cancels a booking at the instant `now`. The store and the answer are what
/// the booking rules say.
pub fn delete_booking_at(
    store: &mut BookingStore,
    claim: &Claims,
    person_id: i64,
    session_id: i64,
    now: i64,
) -> (r: Result<SessionBooking, ApiError>)
    requires
        old(store).wf(),
    ensures
        final(store).wf(),
        old(store).within_capacity() ==> final(store).within_capacity(),
        final(store)@ == settle(old(store)@, cancel_job(*claim, person_id, session_id, now), None).0,
        told(r) == answer(
            settle(old(store)@, cancel_job(*claim, person_id, session_id, now), None).1,
        ),
{
    let job = Job { caller: claim.caller(), request: Request::Cancel { person_id, session_id }, now };
    into_result(store.run(job, None))
}

/// Cancels a booking now. Whatever the clock shows, the store and the answer
/// are what the booking rules say for that instant.
pub fn delete_booking(store: &mut BookingStore, claim: &Claims, person_id: i64, session_id: i64) -> (r:
    Result<SessionBooking, ApiError>)
    requires
        old(store).wf(),
    ensures
        final(store).wf(),
        old(store).within_capacity() ==> final(store).within_capacity(),
        exists|at: i64|
            {
                &&& final(store)@ == (#[trigger] settle(
                    old(store)@,
                    cancel_job(*claim, person_id, session_id, at),
                    None,
                )).0
                &&& told(r) == answer(
                    settle(old(store)@, cancel_job(*claim, person_id, session_id, at), None).1,
                )
            },
{
    let at: i64 = now();
    let r = delete_booking_at(store, claim, person_id, session_id, at);
    assert(final(store)@ == settle(old(store)@, cancel_job(*claim, person_id, session_id, at), None).0);
    r
}

/// Start and cost of a session, which must exist.
pub fn get_session_date_and_cost(store: &BookingStore, session_id: i64) -> (r: Result<
    SessionDateAndCost,
    ApiError,
>)
    requires
        store.wf(),
    ensures
        match r {
            Ok(s) => store@.date_and_cost(session_id) == Some(s),
            Err(e) => store@.date_and_cost(session_id) is None && e@ == failure(
                ErrorKind::NotFound,
                "no session with id "@ + decimal(session_id as int),
            ),
        },
{
    match store.session_date_and_cost(session_id) {
        Some(s) => Ok(s),
        None => Err(Denial::SessionMissing { session_id }.to_error()),
    }
}

/// What a limited member is told who asks for a session: nothing where the
/// membership covers the booking, else the error of what is in the way.
pub open spec fn refusal_told(refusal: Option<Denial>) -> Result<(), ErrorView> {
    match refusal {
        None => Ok(()),
        Some(denial) => Err(failure(denial.kind(), denial.message())),
    }
}

/// A check or its refusal, with the refusal as kind and message.
pub open spec fn checked(r: Result<(), ApiError>) -> Result<(), ErrorView> {
    match r {
        Ok(_) => Ok(()),
        Err(e) => Err(e@),
    }
}

/// Checks that a limited membership covers a booking of the session, given
/// the session's week: a free session is covered; a paid one where the
/// member holds no paid booking in that week.
pub fn check_limited_member_in_week(
    store: &BookingStore,
    uid: i64,
    session_date_and_cost: &SessionDateAndCost,
    week: Option<WeekBounds>,
) -> (r: Result<(), ApiError>)
    requires
        store.wf(),
    ensures
        checked(r) == refusal_told(week_refusal(store@, uid, *session_date_and_cost, week)),
{
    if session_date_and_cost.cost == 0 {
        return Ok(());
    }
    let week: WeekBounds = match week {
        Some(w) => w,
        None => { return Err(Denial::WeekUnknown.to_error()); },
    };
    let bookings: u64 = store.paid_bookings(uid, week.start, week.end) as u64;
    if bookings == 0 {
        Ok(())
    } else {
        Err(Denial::Uncovered { refusal: Refusal::WeekTaken { bookings } }.to_error())
    }
}

/// Checks that a limited membership covers a booking of the session, with
/// the session's week taken from the calendar of the named time zone.
pub fn check_limited_member_has_no_bookings_in_same_week(
    store: &BookingStore,
    timezone: &str,
    uid: i64,
    session_date_and_cost: &SessionDateAndCost,
) -> (r: Result<(), ApiError>)
    requires
        store.wf(),
    ensures
        checked(r) == refusal_told(
            week_refusal(
                store@,
                uid,
                *session_date_and_cost,
                week_of(timezone@, session_date_and_cost.datetime),
            ),
        ),
{
    let week: Option<WeekBounds> = week_bounds(timezone, session_date_and_cost.datetime);
    check_limited_member_in_week(store, uid, session_date_and_cost, week)
}

/// What the caller is told of an insert, under the limit that guarded it
/// where one did: a fault is reported by its kind, and under a limit
/// nothing recorded means that the session is full.
pub open spec fn insert_told(event: Event, limit: Option<i64>) -> Result<(), ErrorView> {
    match event {
        Event::Refused(fault) => refusal_told(Some(Denial::Backend { fault })),
        Event::Inserted { rows } => if limit is Some && rows == 0 {
            refusal_told(Some(Denial::Full { limit: limit->0 }))
        } else {
            Ok(())
        },
        _ => refusal_told(Some(Denial::OutOfTurn)),
    }
}

/// What the caller is told of an insert.
pub fn insert_result(event: Event, limit: Option<i64>) -> (r: Result<(), ApiError>)
    ensures
        checked(r) == insert_told(event, limit),
{
    match event {
        Event::Refused(fault) => Err(Denial::Backend { fault }.to_error()),
        Event::Inserted { rows } => {
            match limit {
                Some(l) => {
                    if rows == 0 {
                        return Err(Denial::Full { limit: l }.to_error());
                    }
                },
                None => {},
            }
            Ok(())
        },
        _ => Err(Denial::OutOfTurn.to_error()),
    }
}

/// Records a booking of a session without a limit.
pub fn book_session_no_max_bookings(
    store: &mut BookingStore,
    person_id: i64,
    session_id: i64,
    credits_used: i16,
) -> (r: Result<(), ApiError>)
    requires
        old(store).wf(),
    ensures
        final(store).wf(),
        final(store)@ == insert(old(store)@, person_id, session_id, credits_used).0,
        checked(r) == insert_told(insert(old(store)@, person_id, session_id, credits_used).1, None),
{
    insert_result(store.perform(Action::Insert { person_id, session_id, credits_used }), None)
}

/// Records a booking of a session with a limit, if the session holds fewer
/// bookings than the limit and the person none of it; else the session
/// counts as full. Count and insert are one step of the store.
pub fn book_session_with_max_bookings(
    store: &mut BookingStore,
    person_id: i64,
    session_id: i64,
    max_bookings: i64,
    credits_used: i16,
) -> (r: Result<(), ApiError>)
    requires
        old(store).wf(),
    ensures
        final(store).wf(),
        final(store)@ == insert_below(
            old(store)@,
            person_id,
            session_id,
            credits_used,
            max_bookings,
        ).0,
        checked(r) == insert_told(
            insert_below(old(store)@, person_id, session_id, credits_used, max_bookings).1,
            Some(max_bookings),
        ),
{
    insert_result(
        store.perform(Action::InsertBelow { person_id, session_id, credits_used, limit: max_bookings }),
        Some(max_bookings),
    )
}

/// Whether a booking was attended.
#[derive(Clone, Copy, Debug, PartialEq, Eq)]
pub struct BookingUpdate {
    pub attended: bool,
}

/// Where a booking that was made can be looked up.
pub open spec fn location_of_booking(booking: SessionBooking) -> Seq<char> {
    "/bookings?sessionid="@ + decimal(booking.session_id as int) + ",person_id="@ + decimal(
        booking.person_id as int,
    )
}

/// Where a booking that was made can be looked up.
pub fn booking_location(booking: &SessionBooking) -> (s: String)
    ensures
        s@ == location_of_booking(*booking),
{
    let mut s: String = String::from_str("/bookings?sessionid=");
    push_decimal(&mut s, booking.session_id);
    s.append(",person_id=");
    push_decimal(&mut s, booking.person_id);
    s
}

/// Whether `claim` may mark bookings as attended: only an admin may.
pub fn may_update_booking(claim: &Claims) -> (r: Result<(), ApiError>)
    ensures
        r is Ok <==> claim.admin(),
        r matches Err(e) ==> e@ == missing_role("admin"@),
{
    claim.assert_roles_contains("admin")
}

/// Whether `claim` may mark the booking, and whether the booking is there:
/// only an admin may, and the booking must exist.
pub open spec fn may_update(store: BookingStore, claim: Claims, person_id: i64, session_id: i64) -> Result<
    (),
    ErrorView,
> {
    if !claim.admin() {
        Err(missing_role("admin"@))
    } else if !store@.has_booking(person_id, session_id) {
        Err(failure(ErrorKind::NotFound, no_booking_message(person_id, session_id)))
    } else {
        Ok(())
    }
}

/// The answer to marking a booking, given whether the booking was there.
pub fn marked(found: bool, person_id: i64, session_id: i64) -> (r: Result<(), ApiError>)
    ensures
        r is Ok <==> found,
        r matches Err(e) ==> e@ == failure(
            ErrorKind::NotFound,
            no_booking_message(person_id, session_id),
        ),
{
    if found {
        Ok(())
    } else {
        Err(ApiError::with_message(ErrorKind::NotFound, no_booking_text(person_id, session_id)))
    }
}

/// Marks a booking as attended or not. Only an admin may; the booking must
/// exist. Nothing else in the store changes.
pub fn update_booking(
    store: &mut BookingStore,
    claim: &Claims,
    person_id: i64,
    session_id: i64,
    booking_update: &BookingUpdate,
) -> (r: Result<(), ApiError>)
    requires
        old(store).wf(),
    ensures
        final(store).wf(),
        old(store).within_capacity() ==> final(store).within_capacity(),
        match r {
            Ok(_) => may_update(*old(store), *claim, person_id, session_id) is Ok && final(store)@
                == old(store)@.with_attendance(person_id, session_id, booking_update.attended),
            Err(e) => may_update(*old(store), *claim, person_id, session_id) == Err::<(), ErrorView>(e@)
                && final(store)@ == old(store)@,
        },
{
    match may_update_booking(claim) {
        Err(e) => { return Err(e); },
        Ok(_) => {},
    }
    marked(store.mark_attendance(person_id, session_id, booking_update.attended), person_id, session_id)
}

} // verus!

//! The booking protocol: what to ask of the backend next, and how a request
//! ends.
//!
//! Creating or cancelling a booking alternates questions to the backend with
//! decisions. The decisions are [`advance`]: from the phase a request is in
//! and the backend's answer to the next phase and the next thing to do. Who
//! drives it performs each [`Action`] and hands back the [`Event`] that
//! answers it, until the action is [`Action::Finish`].
use vstd::prelude::*;

use crate::calendar::{week_bounds, week_of, WeekBounds};
use crate::claims::{Caller, Membership};
use crate::ledger::{SessionBooking, SessionDateAndCost};

verus! {

/// What is asked of the service.
#[derive(Clone, Copy, Debug, PartialEq, Eq)]
pub enum Request {
    /// Book the session for the person, spending `credits_used` at most where
    /// credits have to pay for it.
    Create { person_id: i64, session_id: i64, credits_used: Option<i16> },
    /// Cancel the person's booking of the session.
    Cancel { person_id: i64, session_id: i64 },
}

impl Request {
    /// The person whose booking this is about.
    pub open spec fn of_person(self) -> i64 {
        match self {
            Request::Create { person_id, .. } => person_id,
            Request::Cancel { person_id, .. } => person_id,
        }
    }

    /// The session this is about.
    pub open spec fn of_session(self) -> i64 {
        match self {
            Request::Create { session_id, .. } => session_id,
            Request::Cancel { session_id, .. } => session_id,
        }
    }

    /// The credits that the caller agreed to spend.
    pub open spec fn offered(self) -> i16 {
        match self {
            Request::Create { credits_used: Some(c), .. } => c,
            _ => 0i16,
        }
    }

    /// The person whose booking this is about.
    #[verifier::when_used_as_spec(of_person)]
    pub fn person_id(self) -> (id: i64)
        ensures
            id == self.of_person(),
    {
        match self {
            Request::Create { person_id, .. } => person_id,
            Request::Cancel { person_id, .. } => person_id,
        }
    }

    /// The session this is about.
    #[verifier::when_used_as_spec(of_session)]
    pub fn session_id(self) -> (id: i64)
        ensures
            id == self.of_session(),
    {
        match self {
            Request::Create { session_id, .. } => session_id,
            Request::Cancel { session_id, .. } => session_id,
        }
    }

    /// The credits that the caller agreed to spend.
    #[verifier::when_used_as_spec(offered)]
    pub fn credits_offered(self) -> (c: i16)
        ensures
            c == self.offered(),
    {
        match self {
            Request::Create { credits_used: Some(c), .. } => c,
            _ => 0,
        }
    }
}

/// A request with who makes it and when.
#[derive(Clone, Copy, Debug, PartialEq, Eq)]
pub struct Job {
    pub caller: Caller,
    pub request: Request,
    pub now: i64,
}

/// Why a membership does not cover a booking.
#[derive(Clone, Copy, Debug, PartialEq, Eq)]
pub enum Refusal {
    /// The caller has no membership.
    NoMembership,
    /// The caller's limited membership is used up for the week.
    WeekTaken { bookings: u64 },
}

/// What went wrong in the backend.
#[derive(Clone, Copy, Debug, PartialEq, Eq)]
pub enum Fault {
    /// The person already holds a booking of the session.
    DuplicateBooking,
    /// The person is not recorded.
    UnknownPerson,
    /// The session is not recorded.
    UnknownSession,
    /// The balance would leave what can be recorded.
    CreditsOutOfRange,
}

/// Why a request was turned down.
#[derive(Clone, Copy, Debug, PartialEq, Eq)]
pub enum Denial {
    /// A booking for somebody else, asked for by a caller who is no admin.
    CreateForOther,
    /// A cancellation for somebody else, asked for by a caller who is no admin.
    CancelForOther,
    /// There is no such session.
    SessionMissing { session_id: i64 },
    /// The session to book has started already.
    CreateInPast,
    /// The session to cancel has started already.
    CancelInPast,
    /// No membership covers the booking, and credits do not either.
    Uncovered { refusal: Refusal },
    /// The week of the session cannot be told.
    WeekUnknown,
    /// The person has no record from which credits could be taken.
    UserMissing,
    /// Credits would pay for the booking, but the caller did not offer them.
    OptInRequired,
    /// The session holds as many bookings as it may.
    Full { limit: i64 },
    /// There is no such booking.
    BookingMissing { person_id: i64, session_id: i64 },
    /// The backend could not do what was asked.
    Backend { fault: Fault },
    /// The backend answered something that was not asked.
    OutOfTurn,
}

/// How a request ended.
#[derive(Clone, Copy, Debug, PartialEq, Eq)]
pub enum Outcome {
    Booked(SessionBooking),
    Cancelled(SessionBooking),
    Denied(Denial),
}

/// Where a request stands.
#[derive(Clone, Copy, Debug, PartialEq, Eq)]
pub enum Phase {
    Start,
    /// Booking: the session's start and cost were asked for.
    SessionAsked,
    /// Booking: the caller's paid bookings of the week were asked for.
    WeekAsked { cost: i16 },
    /// Booking: the person's credit balance was asked for.
    CreditsAsked { cost: i16, refusal: Refusal },
    /// Booking: the session's booking limit was asked for.
    LimitAsked { credits_cost: i16 },
    /// Booking: the booking was handed in.
    InsertAsked { credits_cost: i16, limit: Option<i64> },
    /// Booking: the credits were to be taken.
    DebitAsked { credits_cost: i16 },
    /// Cancelling: the session's start was asked for.
    CancelSessionAsked,
    /// Cancelling: the booking was to be removed.
    DeleteAsked,
    /// Cancelling: the credits were to be given back.
    RestoreAsked { booking: SessionBooking },
    Done,
}

/// What the backend is to do next.
#[derive(Clone, Copy, Debug, PartialEq, Eq)]
pub enum Action {
    /// Look up start and cost of a session.
    FetchSession { session_id: i64 },
    /// Count the person's bookings of sessions that cost something and start
    /// in `[from, until)`.
    CountPaidBookings { person_id: i64, from: i64, until: i64 },
    /// Look up the person's credit balance.
    FetchCredits { person_id: i64 },
    /// Look up the session's booking limit.
    FetchLimit { session_id: i64 },
    /// Record the booking.
    Insert { person_id: i64, session_id: i64, credits_used: i16 },
    /// Under a lock on the session, record the booking if the session holds
    /// fewer than `limit` bookings and the person none of it.
    InsertBelow { person_id: i64, session_id: i64, credits_used: i16, limit: i64 },
    /// Take `amount` from the person's balance.
    Debit { person_id: i64, amount: i16 },
    /// Remove the booking and report it.
    Delete { person_id: i64, session_id: i64 },
    /// Add `amount` to the person's balance.
    Restore { person_id: i64, amount: i16 },
    /// Nothing: the request has ended.
    Finish(Outcome),
}

/// What the backend answered.
#[derive(Clone, Copy, Debug, PartialEq, Eq)]
pub enum Event {
    /// Nothing yet: the request has just come in.
    Begin,
    Session(Option<SessionDateAndCost>),
    PaidBookings(u64),
    Credits(Option<i32>),
    /// The session's limit: `None` where there is no such session.
    Limit(Option<Option<i64>>),
    /// The number of bookings that were recorded.
    Inserted { rows: u64 },
    /// The balance was changed.
    Adjusted,
    /// The booking that was removed, if there was one.
    Deleted(Option<SessionBooking>),
    /// The backend could not do it.
    Refused(Fault),
}

impl Phase {
    /// A number that falls with every step of a request.
    pub open spec fn rank(self) -> nat {
        match self {
            Phase::Start => 7,
            Phase::SessionAsked => 6,
            Phase::WeekAsked { .. } => 5,
            Phase::CreditsAsked { .. } => 4,
            Phase::LimitAsked { .. } => 3,
            Phase::InsertAsked { .. } => 2,
            Phase::DebitAsked { .. } => 1,
            Phase::CancelSessionAsked => 3,
            Phase::DeleteAsked => 2,
            Phase::RestoreAsked { .. } => 1,
            Phase::Done => 0,
        }
    }
}

/// The end of a request that is turned down.
pub open spec fn deny(denial: Denial) -> (Phase, Action) {
    (Phase::Done, Action::Finish(Outcome::Denied(denial)))
}

/// The booking that a request to create one records.
pub open spec fn recorded(job: Job, credits_cost: i16) -> SessionBooking {
    SessionBooking {
        person_id: job.request.of_person(),
        session_id: job.request.of_session(),
        credits_used: Some(credits_cost),
    }
}

/// A booking is covered: ask for the session's limit.
pub open spec fn to_limit(job: Job, credits_cost: i16) -> (Phase, Action) {
    (Phase::LimitAsked { credits_cost }, Action::FetchLimit { session_id: job.request.of_session() })
}

/// No membership covers the booking. Credits can pay for a session that
/// costs something: ask for the person's balance. For a free session there
/// is nothing to pay, and the refusal of the membership stands.
pub open spec fn to_credits(job: Job, cost: i16, refusal: Refusal) -> (Phase, Action) {
    if cost == 0 {
        deny(Denial::Uncovered { refusal })
    } else {
        (
            Phase::CreditsAsked { cost, refusal },
            Action::FetchCredits { person_id: job.request.of_person() },
        )
    }
}

/// The first step. An admin goes straight to the write. Anybody else acts
/// for themselves only, and then the session is looked at.
pub open spec fn on_begin(job: Job) -> (Phase, Action) {
    match job.request {
        Request::Create { person_id, session_id, .. } => {
            if job.caller.admin {
                to_limit(job, 0)
            } else if job.caller.uid != person_id {
                deny(Denial::CreateForOther)
            } else {
                (Phase::SessionAsked, Action::FetchSession { session_id })
            }
        },
        Request::Cancel { person_id, session_id } => {
            if job.caller.admin {
                (Phase::DeleteAsked, Action::Delete { person_id, session_id })
            } else if job.caller.uid != person_id {
                deny(Denial::CancelForOther)
            } else {
                (Phase::CancelSessionAsked, Action::FetchSession { session_id })
            }
        },
    }
}

/// Booking, once the session is known: it must exist and lie ahead. A full
/// member is covered. A limited member is covered for a free session, and
/// for another needs the week to be free. Without membership credits pay
/// for a session that costs something, and a free session is refused.
pub open spec fn on_session(job: Job, found: Option<SessionDateAndCost>, week: Option<WeekBounds>) -> (
    Phase,
    Action,
) {
    match found {
        None => deny(Denial::SessionMissing { session_id: job.request.of_session() }),
        Some(s) => {
            if s.datetime < job.now {
                deny(Denial::CreateInPast)
            } else {
                match job.caller.membership {
                    Membership::Full => to_limit(job, 0),
                    Membership::Limited => {
                        if s.cost == 0 {
                            to_limit(job, 0)
                        } else {
                            match week {
                                None => deny(Denial::WeekUnknown),
                                Some(w) => (
                                    Phase::WeekAsked { cost: s.cost },
                                    Action::CountPaidBookings {
                                        person_id: job.caller.uid,
                                        from: w.start,
                                        until: w.end,
                                    },
                                ),
                            }
                        }
                    },
                    Membership::PayAsYouGo => to_credits(job, s.cost, Refusal::NoMembership),
                }
            }
        },
    }
}

/// Booking by a limited member, once the week's paid bookings are counted:
/// none leaves the booking covered, any sends it on to credits.
pub open spec fn on_week(job: Job, cost: i16, bookings: u64) -> (Phase, Action) {
    if bookings == 0 {
        to_limit(job, 0)
    } else {
        to_credits(job, cost, Refusal::WeekTaken { bookings })
    }
}

/// Booking without a covering membership, once the balance is known: enough
/// credits pay for it if the caller offered them; too few leave the refusal
/// of the membership standing.
pub open spec fn on_credits(job: Job, cost: i16, refusal: Refusal, balance: Option<i32>) -> (
    Phase,
    Action,
) {
    match balance {
        None => deny(Denial::UserMissing),
        Some(credits) => {
            if credits >= cost {
                if job.request.offered() < cost {
                    deny(Denial::OptInRequired)
                } else {
                    to_limit(job, cost)
                }
            } else {
                deny(Denial::Uncovered { refusal })
            }
        },
    }
}

/// Booking, once the session's limit is known: hand the booking in, guarded
/// by the limit where there is one.
pub open spec fn on_limit(job: Job, credits_cost: i16, found: Option<Option<i64>>) -> (Phase, Action) {
    let person_id = job.request.of_person();
    let session_id = job.request.of_session();
    match found {
        None => deny(Denial::SessionMissing { session_id }),
        Some(None) => (
            Phase::InsertAsked { credits_cost, limit: None },
            Action::Insert { person_id, session_id, credits_used: credits_cost },
        ),
        Some(Some(limit)) => (
            Phase::InsertAsked { credits_cost, limit: Some(limit) },
            Action::InsertBelow { person_id, session_id, credits_used: credits_cost, limit },
        ),
    }
}

/// Booking, once it was handed in: under a limit, nothing recorded means the
/// session is full. Otherwise credits are taken where the booking costs any.
pub open spec fn on_inserted(job: Job, credits_cost: i16, limit: Option<i64>, rows: u64) -> (
    Phase,
    Action,
) {
    if limit is Some && rows == 0 {
        deny(Denial::Full { limit: limit->0 })
    } else if credits_cost > 0 {
        (
            Phase::DebitAsked { credits_cost },
            Action::Debit { person_id: job.request.of_person(), amount: credits_cost },
        )
    } else {
        (Phase::Done, Action::Finish(Outcome::Booked(recorded(job, credits_cost))))
    }
}

/// Cancelling, once the session is known: it must exist and lie ahead.
pub open spec fn on_cancel_session(job: Job, found: Option<SessionDateAndCost>) -> (Phase, Action) {
    match found {
        None => deny(Denial::SessionMissing { session_id: job.request.of_session() }),
        Some(s) => {
            if s.datetime < job.now {
                deny(Denial::CancelInPast)
            } else {
                (
                    Phase::DeleteAsked,
                    Action::Delete {
                        person_id: job.request.of_person(),
                        session_id: job.request.of_session(),
                    },
                )
            }
        },
    }
}

/// The credits that a booking took.
pub open spec fn credits_taken(booking: SessionBooking) -> int {
    match booking.credits_used {
        Some(c) => c as int,
        None => 0,
    }
}

/// Cancelling, once the booking was removed: the credits that it took go
/// back, as the removed booking records them.
pub open spec fn on_deleted(job: Job, found: Option<SessionBooking>) -> (Phase, Action) {
    match found {
        None => deny(
            Denial::BookingMissing {
                person_id: job.request.of_person(),
                session_id: job.request.of_session(),
            },
        ),
        Some(booking) => {
            if credits_taken(booking) > 0 {
                (
                    Phase::RestoreAsked { booking },
                    Action::Restore {
                        person_id: job.request.of_person(),
                        amount: credits_taken(booking) as i16,
                    },
                )
            } else {
                (Phase::Done, Action::Finish(Outcome::Cancelled(booking)))
            }
        },
    }
}

/// The next phase and action of a request in `phase` to which the backend
/// answered `event`. `week` is the calendar week of the session that the
/// event reports, where it reports one.
pub open spec fn next(phase: Phase, event: Event, job: Job, week: Option<WeekBounds>) -> (
    Phase,
    Action,
) {
    match (phase, event) {
        (_, Event::Refused(fault)) => deny(Denial::Backend { fault }),
        (Phase::Start, Event::Begin) => on_begin(job),
        (Phase::SessionAsked, Event::Session(found)) => on_session(job, found, week),
        (Phase::WeekAsked { cost }, Event::PaidBookings(bookings)) => on_week(job, cost, bookings),
        (Phase::CreditsAsked { cost, refusal }, Event::Credits(balance)) => on_credits(
            job,
            cost,
            refusal,
            balance,
        ),
        (Phase::LimitAsked { credits_cost }, Event::Limit(found)) => on_limit(
            job,
            credits_cost,
            found,
        ),
        (Phase::InsertAsked { credits_cost, limit }, Event::Inserted { rows }) => on_inserted(
            job,
            credits_cost,
            limit,
            rows,
        ),
        (Phase::DebitAsked { credits_cost }, Event::Adjusted) => (
            Phase::Done,
            Action::Finish(Outcome::Booked(recorded(job, credits_cost))),
        ),
        (Phase::CancelSessionAsked, Event::Session(found)) => on_cancel_session(job, found),
        (Phase::DeleteAsked, Event::Deleted(found)) => on_deleted(job, found),
        (Phase::RestoreAsked { booking }, Event::Adjusted) => (
            Phase::Done,
            Action::Finish(Outcome::Cancelled(booking)),
        ),
        _ => deny(Denial::OutOfTurn),
    }
}

/// The week that matters to a step: that of the session which the event
/// reports, in the named zone.
pub open spec fn week_for(zone: Seq<char>, event: Event) -> Option<WeekBounds> {
    match event {
        Event::Session(Some(s)) => week_of(zone, s.datetime),
        _ => None,
    }
}

/// Every step that does not end a request brings it to a phase of lower rank.
pub proof fn lemma_next_descends(phase: Phase, event: Event, job: Job, week: Option<WeekBounds>)
    ensures
        !(next(phase, event, job, week).1 is Finish) ==> next(phase, event, job, week).0.rank()
            < phase.rank(),
        next(phase, event, job, week).1 is Finish ==> next(phase, event, job, week).0 == Phase::Done,
{
}

fn begin(job: Job) -> (r: (Phase, Action))
    ensures
        r == on_begin(job),
{
    match job.request {
        Request::Create { person_id, session_id, .. } => {
            if job.caller.admin {
                (Phase::LimitAsked { credits_cost: 0 }, Action::FetchLimit { session_id })
            } else if job.caller.uid != person_id {
                (Phase::Done, Action::Finish(Outcome::Denied(Denial::CreateForOther)))
            } else {
                (Phase::SessionAsked, Action::FetchSession { session_id })
            }
        },
        Request::Cancel { person_id, session_id } => {
            if job.caller.admin {
                (Phase::DeleteAsked, Action::Delete { person_id, session_id })
            } else if job.caller.uid != person_id {
                (Phase::Done, Action::Finish(Outcome::Denied(Denial::CancelForOther)))
            } else {
                (Phase::CancelSessionAsked, Action::FetchSession { session_id })
            }
        },
    }
}

fn refuse(denial: Denial) -> (r: (Phase, Action))
    ensures
        r == deny(denial),
{
    (Phase::Done, Action::Finish(Outcome::Denied(denial)))
}

fn ask_limit(job: Job, credits_cost: i16) -> (r: (Phase, Action))
    ensures
        r == to_limit(job, credits_cost),
{
    (Phase::LimitAsked { credits_cost }, Action::FetchLimit { session_id: job.request.session_id() })
}

fn ask_credits(job: Job, cost: i16, refusal: Refusal) -> (r: (Phase, Action))
    ensures
        r == to_credits(job, cost, refusal),
{
    if cost == 0 {
        refuse(Denial::Uncovered { refusal })
    } else {
        (
            Phase::CreditsAsked { cost, refusal },
            Action::FetchCredits { person_id: job.request.person_id() },
        )
    }
}

fn session_known(job: Job, found: Option<SessionDateAndCost>, week: Option<WeekBounds>) -> (r: (
    Phase,
    Action,
))
    ensures
        r == on_session(job, found, week),
{
    match found {
        None => refuse(Denial::SessionMissing { session_id: job.request.session_id() }),
        Some(s) => {
            if s.datetime < job.now {
                refuse(Denial::CreateInPast)
            } else {
                match job.caller.membership {
                    Membership::Full => ask_limit(job, 0),
                    Membership::Limited => {
                        if s.cost == 0 {
                            ask_limit(job, 0)
                        } else {
                            match week {
                                None => refuse(Denial::WeekUnknown),
                                Some(w) => (
                                    Phase::WeekAsked { cost: s.cost },
                                    Action::CountPaidBookings {
                                        person_id: job.caller.uid,
                                        from: w.start,
                                        until: w.end,
                                    },
                                ),
                            }
                        }
                    },
                    Membership::PayAsYouGo => ask_credits(job, s.cost, Refusal::NoMembership),
                }
            }
        },
    }
}

fn credits_known(job: Job, cost: i16, refusal: Refusal, balance: Option<i32>) -> (r: (Phase, Action))
    ensures
        r == on_credits(job, cost, refusal, balance),
{
    match balance {
        None => refuse(Denial::UserMissing),
        Some(credits) => {
            if credits >= cost as i32 {
                if job.request.credits_offered() < cost {
                    refuse(Denial::OptInRequired)
                } else {
                    ask_limit(job, cost)
                }
            } else {
                refuse(Denial::Uncovered { refusal })
            }
        },
    }
}

fn limit_known(job: Job, credits_cost: i16, found: Option<Option<i64>>) -> (r: (Phase, Action))
    ensures
        r == on_limit(job, credits_cost, found),
{
    let person_id: i64 = job.request.person_id();
    let session_id: i64 = job.request.session_id();
    match found {
        None => refuse(Denial::SessionMissing { session_id }),
        Some(None) => (
            Phase::InsertAsked { credits_cost, limit: None },
            Action::Insert { person_id, session_id, credits_used: credits_cost },
        ),
        Some(Some(limit)) => (
            Phase::InsertAsked { credits_cost, limit: Some(limit) },
            Action::InsertBelow { person_id, session_id, credits_used: credits_cost, limit },
        ),
    }
}

fn booked(job: Job, credits_cost: i16) -> (r: (Phase, Action))
    ensures
        r == (Phase::Done, Action::Finish(Outcome::Booked(recorded(job, credits_cost)))),
{
    let booking = SessionBooking {
        person_id: job.request.person_id(),
        session_id: job.request.session_id(),
        credits_used: Some(credits_cost),
    };
    (Phase::Done, Action::Finish(Outcome::Booked(booking)))
}

fn inserted(job: Job, credits_cost: i16, limit: Option<i64>, rows: u64) -> (r: (Phase, Action))
    ensures
        r == on_inserted(job, credits_cost, limit, rows),
{
    match limit {
        Some(l) => {
            if rows == 0 {
                return refuse(Denial::Full { limit: l });
            }
        },
        None => {},
    }
    if credits_cost > 0 {
        (
            Phase::DebitAsked { credits_cost },
            Action::Debit { person_id: job.request.person_id(), amount: credits_cost },
        )
    } else {
        booked(job, credits_cost)
    }
}

fn cancel_session_known(job: Job, found: Option<SessionDateAndCost>) -> (r: (Phase, Action))
    ensures
        r == on_cancel_session(job, found),
{
    match found {
        None => refuse(Denial::SessionMissing { session_id: job.request.session_id() }),
        Some(s) => {
            if s.datetime < job.now {
                refuse(Denial::CancelInPast)
            } else {
                (
                    Phase::DeleteAsked,
                    Action::Delete {
                        person_id: job.request.person_id(),
                        session_id: job.request.session_id(),
                    },
                )
            }
        },
    }
}

fn deleted(job: Job, found: Option<SessionBooking>) -> (r: (Phase, Action))
    ensures
        r == on_deleted(job, found),
{
    match found {
        None => refuse(
            Denial::BookingMissing {
                person_id: job.request.person_id(),
                session_id: job.request.session_id(),
            },
        ),
        Some(booking) => {
            let taken: i16 = match booking.credits_used {
                Some(c) => c,
                None => 0,
            };
            if taken > 0 {
                (
                    Phase::RestoreAsked { booking },
                    Action::Restore { person_id: job.request.person_id(), amount: taken },
                )
            } else {
                (Phase::Done, Action::Finish(Outcome::Cancelled(booking)))
            }
        },
    }
}

/// One step of a request, given the week of the session that the event
/// reports.
pub fn advance(phase: Phase, event: Event, job: Job, week: Option<WeekBounds>) -> (r: (Phase, Action))
    ensures
        r == next(phase, event, job, week),
{
    match (phase, event) {
        (_, Event::Refused(fault)) => refuse(Denial::Backend { fault }),
        (Phase::Start, Event::Begin) => begin(job),
        (Phase::SessionAsked, Event::Session(found)) => session_known(job, found, week),
        (Phase::WeekAsked { cost }, Event::PaidBookings(bookings)) => {
            if bookings == 0 {
                ask_limit(job, 0)
            } else {
                ask_credits(job, cost, Refusal::WeekTaken { bookings })
            }
        },
        (Phase::CreditsAsked { cost, refusal }, Event::Credits(balance)) => credits_known(
            job,
            cost,
            refusal,
            balance,
        ),
        (Phase::LimitAsked { credits_cost }, Event::Limit(found)) => limit_known(
            job,
            credits_cost,
            found,
        ),
        (Phase::InsertAsked { credits_cost, limit }, Event::Inserted { rows }) => inserted(
            job,
            credits_cost,
            limit,
            rows,
        ),
        (Phase::DebitAsked { credits_cost }, Event::Adjusted) => booked(job, credits_cost),
        (Phase::CancelSessionAsked, Event::Session(found)) => cancel_session_known(job, found),
        (Phase::DeleteAsked, Event::Deleted(found)) => deleted(job, found),
        (Phase::RestoreAsked { booking }, Event::Adjusted) => (
            Phase::Done,
            Action::Finish(Outcome::Cancelled(booking)),
        ),
        _ => refuse(Denial::OutOfTurn),
    }
}

/// One step of a request in the named time zone: the week of the session
/// that the event reports is worked out on the zone's calendar.
pub fn step(phase: Phase, event: Event, job: Job, zone: &str) -> (r: (Phase, Action))
    ensures
        r == next(phase, event, job, week_for(zone@, event)),
{
    let week: Option<WeekBounds> = match event {
        Event::Session(Some(s)) => week_bounds(zone, s.datetime),
        _ => None,
    };
    advance(phase, event, job, week)
}

} // verus!

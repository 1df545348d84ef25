//! The booking rules, stated over a ledger.
//!
//! [`create_outcome`] and [`cancel_outcome`] say how a request ends and what
//! it leaves in the ledger. [`run_from`] is the booking protocol played
//! against a ledger, and [`lemma_run_settles`] shows that it ends as the
//! rules say.
use vstd::prelude::*;

use crate::calendar::{week_of, WeekBounds};
use crate::claims::Membership;
use crate::flow::{
    credits_taken, next, recorded, Action, Denial, Event, Job, Outcome, Phase, Refusal, Request,
};
use crate::ledger::{Ledger, SessionDateAndCost};
use crate::store::{adjust, blocked, fresh_booking, reported, respond};

verus! {

/// What keeps a limited membership from covering a booking of the session,
/// if anything does. Nothing keeps it from covering a free session. For a
/// paid one the session's week must be known, and the member must hold no
/// paid booking in it.
pub open spec fn week_refusal(l: Ledger, uid: i64, s: SessionDateAndCost, week: Option<WeekBounds>) -> Option<
    Denial,
> {
    if s.cost == 0 {
        None
    } else {
        match week {
            None => Some(Denial::WeekUnknown),
            Some(w) => {
                let bookings = l.paid_bookings(uid, w.start, w.end) as u64;
                if bookings == 0 {
                    None
                } else {
                    Some(Denial::Uncovered { refusal: Refusal::WeekTaken { bookings } })
                }
            },
        }
    }
}

/// Whether the caller's membership covers a booking of the session. A full
/// membership does. A limited one covers a free session always, and a paid
/// one if the caller holds no paid booking in the session's week.
pub open spec fn coverage(l: Ledger, job: Job, s: SessionDateAndCost, week: Option<WeekBounds>) -> Result<
    (),
    Denial,
> {
    match job.caller.membership {
        Membership::Full => Ok(()),
        Membership::Limited => match week_refusal(l, job.caller.uid, s, week) {
            None => Ok(()),
            Some(denial) => Err(denial),
        },
        Membership::PayAsYouGo => Err(Denial::Uncovered { refusal: Refusal::NoMembership }),
    }
}

/// Whether credits pay for a booking that no membership covers, and how
/// many: the balance must reach the cost, and the caller must have offered
/// as much.
pub open spec fn credits_cover(l: Ledger, job: Job, cost: i16, refusal: Refusal) -> Result<i16, Denial> {
    match l.credits_of(job.request.of_person()) {
        None => Err(Denial::UserMissing),
        Some(credits) => {
            if credits >= cost {
                if job.request.offered() < cost {
                    Err(Denial::OptInRequired)
                } else {
                    Ok(cost)
                }
            } else {
                Err(Denial::Uncovered { refusal })
            }
        },
    }
}

/// Whether a booking may be made, and the credits it costs. An admin books
/// for anybody at no cost. Anybody else books for themselves, a session
/// that lies ahead, covered by membership. Where no membership covers it,
/// credits pay for a session that costs something; a free session stays
/// refused.
pub open spec fn admission(l: Ledger, job: Job, week: Option<WeekBounds>) -> Result<i16, Denial> {
    if job.caller.admin {
        Ok(0i16)
    } else if job.caller.uid != job.request.of_person() {
        Err(Denial::CreateForOther)
    } else {
        match l.date_and_cost(job.request.of_session()) {
            None => Err(Denial::SessionMissing { session_id: job.request.of_session() }),
            Some(s) => {
                if s.datetime < job.now {
                    Err(Denial::CreateInPast)
                } else {
                    match coverage(l, job, s, week) {
                        Ok(_) => Ok(0i16),
                        Err(Denial::Uncovered { refusal }) => {
                            if s.cost == 0 {
                                Err(Denial::Uncovered { refusal })
                            } else {
                                credits_cover(l, job, s.cost, refusal)
                            }
                        },
                        Err(denial) => Err(denial),
                    }
                }
            },
        }
    }
}

/// Taking the credits of a booking that was just recorded.
pub open spec fn settle_debit(l: Ledger, job: Job, credits_cost: i16) -> (Ledger, Outcome) {
    if credits_cost > 0 {
        match adjust(l, job.request.of_person(), -credits_cost) {
            (after, Event::Adjusted) => (after, Outcome::Booked(recorded(job, credits_cost))),
            (after, Event::Refused(fault)) => (after, Outcome::Denied(Denial::Backend { fault })),
            (after, _) => (after, Outcome::Denied(Denial::OutOfTurn)),
        }
    } else {
        (l, Outcome::Booked(recorded(job, credits_cost)))
    }
}

/// Recording an admitted booking. The session must exist. Where it has a
/// limit, the booking is recorded only while the session holds fewer
/// bookings than the limit and the person none of it; else the session
/// counts as full. Where it has none, a second booking of the same person is
/// a fault. Then the credits are taken.
pub open spec fn record(l: Ledger, job: Job, credits_cost: i16) -> (Ledger, Outcome) {
    let person_id = job.request.of_person();
    let session_id = job.request.of_session();
    match l.limit_of(session_id) {
        None => (l, Outcome::Denied(Denial::SessionMissing { session_id })),
        Some(limit) => {
            if limit is Some && (l.seats_taken(session_id) >= limit->0 || l.has_booking(
                person_id,
                session_id,
            )) {
                (l, Outcome::Denied(Denial::Full { limit: limit->0 }))
            } else {
                match blocked(l, person_id, session_id) {
                    Some(fault) => (l, Outcome::Denied(Denial::Backend { fault })),
                    None => settle_debit(
                        l.with_booking(fresh_booking(person_id, session_id, credits_cost)),
                        job,
                        credits_cost,
                    ),
                }
            }
        },
    }
}

/// How a request to create a booking ends, and the ledger it leaves.
pub open spec fn create_outcome(l: Ledger, job: Job, week: Option<WeekBounds>) -> (Ledger, Outcome) {
    match admission(l, job, week) {
        Err(denial) => (l, Outcome::Denied(denial)),
        Ok(credits_cost) => record(l, job, credits_cost),
    }
}

/// Whether a booking may be cancelled. An admin cancels for anybody.
/// Anybody else cancels for themselves, a session that lies ahead.
pub open spec fn may_cancel(l: Ledger, job: Job) -> Result<(), Denial> {
    if job.caller.admin {
        Ok(())
    } else if job.caller.uid != job.request.of_person() {
        Err(Denial::CancelForOther)
    } else {
        match l.date_and_cost(job.request.of_session()) {
            None => Err(Denial::SessionMissing { session_id: job.request.of_session() }),
            Some(s) => {
                if s.datetime < job.now {
                    Err(Denial::CancelInPast)
                } else {
                    Ok(())
                }
            },
        }
    }
}

/// How a request to cancel a booking ends, and the ledger it leaves: the
/// booking is removed and the credits that it records go back to its owner.
pub open spec fn cancel_outcome(l: Ledger, job: Job) -> (Ledger, Outcome) {
    let person_id = job.request.of_person();
    let session_id = job.request.of_session();
    match may_cancel(l, job) {
        Err(denial) => (l, Outcome::Denied(denial)),
        Ok(_) => match l.booking_of(person_id, session_id) {
            None => (l, Outcome::Denied(Denial::BookingMissing { person_id, session_id })),
            Some(b) => {
                let removed = l.without_booking(person_id, session_id);
                if credits_taken(reported(b)) > 0 {
                    match adjust(removed, person_id, credits_taken(reported(b))) {
                        (after, Event::Adjusted) => (after, Outcome::Cancelled(reported(b))),
                        (after, Event::Refused(fault)) => (
                            after,
                            Outcome::Denied(Denial::Backend { fault }),
                        ),
                        (after, _) => (after, Outcome::Denied(Denial::OutOfTurn)),
                    }
                } else {
                    (removed, Outcome::Cancelled(reported(b)))
                }
            },
        },
    }
}

/// How a request ends, and the ledger it leaves.
pub open spec fn settle(l: Ledger, job: Job, week: Option<WeekBounds>) -> (Ledger, Outcome) {
    match job.request {
        Request::Create { .. } => create_outcome(l, job, week),
        Request::Cancel { .. } => cancel_outcome(l, job),
    }
}

/// The week of a recorded session in the named zone.
pub open spec fn session_week(l: Ledger, zone: Seq<char>, session_id: i64) -> Option<WeekBounds> {
    match l.date_and_cost(session_id) {
        Some(s) => week_of(zone, s.datetime),
        None => None,
    }
}

/// The booking protocol played against a ledger, from a phase and the event
/// that arrived in it, to the end of the request.
pub open spec fn run_from(l: Ledger, phase: Phase, event: Event, job: Job, week: Option<WeekBounds>) -> (
    Ledger,
    Outcome,
)
    decreases phase.rank(),
{
    let (then, action) = next(phase, event, job, week);
    match action {
        Action::Finish(outcome) => (l, outcome),
        _ => {
            if then.rank() < phase.rank() {
                let (after, answer) = respond(l, action);
                run_from(after, then, answer, job, week)
            } else {
                (l, Outcome::Denied(Denial::OutOfTurn))
            }
        },
    }
}

/// Played against a ledger from the start, the booking protocol ends every
/// request as the rules say and leaves the ledger that they say.
#[verifier::rlimit(40)]
pub proof fn lemma_run_settles(l: Ledger, job: Job, week: Option<WeekBounds>)
    ensures
        run_from(l, Phase::Start, Event::Begin, job, week) == settle(l, job, week),
{
    reveal_with_fuel(run_from, 8);
    let settled = settle(l, job, week);
    let run = run_from(l, Phase::Start, Event::Begin, job, week);
    match job.request {
        Request::Create { .. } => {
            if job.caller.admin {
                assert(run == settled);
            } else if job.caller.uid != job.request.of_person() {
                assert(run == settled);
            } else {
                match l.date_and_cost(job.request.of_session()) {
                    None => {
                        assert(run == settled);
                    },
                    Some(s) => {
                        if s.datetime < job.now {
                            assert(run == settled);
                        } else {
                            match coverage(l, job, s, week) {
                                Ok(_) => {
                                    assert(run == settled);
                                },
                                Err(Denial::Uncovered { refusal }) => {
                                    assert(run == settled);
                                },
                                Err(_) => {
                                    assert(run == settled);
                                },
                            }
                        }
                    },
                }
            }
        },
        Request::Cancel { .. } => {
            assert(run == settled);
        },
    }
}

} // verus!

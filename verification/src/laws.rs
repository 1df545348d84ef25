//! What holds of the booking rules on every well-formed ledger.
use vstd::prelude::*;

use crate::calendar::WeekBounds;
use crate::claims::{Claims, Membership};
use crate::error::ErrorKind;
use crate::flow::{credits_taken, recorded, Denial, Job, Outcome, Refusal, Request};
use crate::ledger::{
    lemma_tally_alike, lemma_tally_nothing, lemma_tally_push, lemma_tally_remove, Booking, Ledger,
    Session,
};
use crate::listing::{listing_filter, selected_rows};
use crate::rules::{admission, may_cancel, record, settle};
use crate::store::{blocked, fresh_booking, reported};

verus! {

/// The denial of a booking for a session that holds `limit` bookings.
pub open spec fn full(limit: i64) -> Denial {
    Denial::Full { limit }
}

/// The denial of a booking by a limited member who holds `bookings` paid
/// bookings in the week.
pub open spec fn week_taken(bookings: nat) -> Denial {
    Denial::Uncovered { refusal: Refusal::WeekTaken { bookings: bookings as u64 } }
}

/// The credits that go back when a booking is cancelled: those that it
/// records, where it records any.
pub open spec fn refund(b: Booking) -> int {
    if credits_taken(reported(b)) > 0 {
        credits_taken(reported(b))
    } else {
        0
    }
}

/// The denial of a booking that no membership covers.
pub open spec fn no_membership() -> Denial {
    Denial::Uncovered { refusal: Refusal::NoMembership }
}

/// Admission at the given cost in credits.
pub open spec fn admitted(credits_cost: i16) -> Result<i16, Denial> {
    Ok(credits_cost)
}

/// Every request leaves a well-formed ledger well formed. In particular no
/// person ever holds two bookings of one session, and no balance is ever
/// negative.
pub proof fn lemma_settle_keeps_wf(l: Ledger, job: Job, week: Option<WeekBounds>)
    requires
        l.wf(),
    ensures
        settle(l, job, week).0.wf(),
{
    let person_id = job.request.of_person();
    let session_id = job.request.of_session();
    match job.request {
        Request::Create { .. } => {
            if admission(l, job, week) is Ok {
                let credits_cost = admission(l, job, week)->Ok_0;
                let b = fresh_booking(person_id, session_id, credits_cost);
                if blocked(l, person_id, session_id) is None {
                    l.lemma_with_booking_wf(b);
                    let l1 = l.with_booking(b);
                    assert(l1.persons == l.persons);
                    assert(l1.has_person(person_id)) by {
                        l.lemma_person_found(person_id);
                        assert(l1.persons[l.person_index(person_id)].id == person_id);
                    }
                    if credits_cost > 0 {
                        let c = l1.credits_of(person_id)->0;
                        if 0 <= c - credits_cost <= i32::MAX {
                            l1.lemma_with_credits(person_id, (c - credits_cost) as i32);
                        }
                    }
                }
            }
        },
        Request::Cancel { .. } => {
            if may_cancel(l, job) is Ok && l.has_booking(person_id, session_id) {
                l.lemma_without_booking_wf(person_id, session_id);
                l.lemma_booking_found(person_id, session_id);
                let b = l.bookings[l.booking_index(person_id, session_id)];
                let l1 = l.without_booking(person_id, session_id);
                assert(l.has_person(person_id));
                assert(l1.has_person(person_id)) by {
                    l.lemma_person_found(person_id);
                    assert(l1.persons[l.person_index(person_id)].id == person_id);
                }
                if credits_taken(reported(b)) > 0 {
                    let c = l1.credits_of(person_id)->0;
                    if 0 <= c + credits_taken(reported(b)) <= i32::MAX {
                        l1.lemma_with_credits(person_id, (c + credits_taken(reported(b))) as i32);
                    }
                }
            }
        },
    }
}

/// A session's bookings after one more booking is recorded.
pub proof fn lemma_seats_with_booking(l: Ledger, b: Booking, session_id: i64)
    ensures
        l.with_booking(b).seats_taken(session_id) == l.seats_taken(session_id) + if b.session_id
            == session_id {
            1nat
        } else {
            0nat
        },
{
    lemma_tally_push(l.bookings, b, |x: Booking| x.session_id == session_id);
}

/// A session's bookings after a booking is removed.
pub proof fn lemma_seats_without_booking(l: Ledger, person_id: i64, session_id: i64, of: i64)
    requires
        l.has_booking(person_id, session_id),
    ensures
        l.without_booking(person_id, session_id).seats_taken(of) + (if session_id == of {
            1nat
        } else {
            0nat
        }) == l.seats_taken(of),
{
    l.lemma_booking_found(person_id, session_id);
    lemma_tally_remove(
        l.bookings,
        l.booking_index(person_id, session_id),
        |x: Booking| x.session_id == of,
    );
}

/// Capacity: if no session holds more bookings than its limit, then none
/// does after a request, whatever the request and however it ends.
pub proof fn lemma_settle_keeps_capacity(l: Ledger, job: Job, week: Option<WeekBounds>)
    requires
        l.wf(),
        l.within_capacity(),
    ensures
        settle(l, job, week).0.within_capacity(),
{
    let person_id = job.request.of_person();
    let session_id = job.request.of_session();
    let after = settle(l, job, week).0;
    assert(after.sessions == l.sessions);
    assert forall|i: int| 0 <= i < after.sessions.len() implies ((
    #[trigger] after.sessions[i]).max_booking_count matches Some(limit)
        ==> after.seats_taken(after.sessions[i].id) <= Ledger::room(limit)) by {
        let s = l.sessions[i];
        if s.max_booking_count is Some {
            let limit = s.max_booking_count->0;
            assert(l.seats_taken(s.id) <= Ledger::room(limit));
            match job.request {
                Request::Create { .. } => {
                    if admission(l, job, week) is Ok {
                        let credits_cost = admission(l, job, week)->Ok_0;
                        let b = fresh_booking(person_id, session_id, credits_cost);
                        lemma_seats_with_booking(l, b, s.id);
                        if s.id == session_id {
                            l.lemma_session_at(i);
                        }
                        assert(after.bookings == l.bookings || after.bookings == l.with_booking(
                            b,
                        ).bookings);
                    }
                },
                Request::Cancel { .. } => {
                    if may_cancel(l, job) is Ok && l.has_booking(person_id, session_id) {
                        lemma_seats_without_booking(l, person_id, session_id, s.id);
                        assert(after.bookings == l.without_booking(person_id, session_id).bookings);
                    }
                },
            }
        }
    }
}

/// What a list of requests leaves in a ledger, each request with the week
/// of its session, one after the other.
pub open spec fn after_all(l: Ledger, requests: Seq<(Job, Option<WeekBounds>)>) -> Ledger
    decreases requests.len(),
{
    if requests.len() == 0 {
        l
    } else {
        settle(after_all(l, requests.drop_last()), requests.last().0, requests.last().1).0
    }
}

/// Capacity: after any sequence of requests, in whatever order they are
/// served, no session holds more bookings than its limit, and no person
/// two bookings of one session.
pub proof fn lemma_sequence_keeps_capacity(l: Ledger, requests: Seq<(Job, Option<WeekBounds>)>)
    requires
        l.wf(),
        l.within_capacity(),
    ensures
        after_all(l, requests).wf(),
        after_all(l, requests).within_capacity(),
    decreases requests.len(),
{
    if requests.len() > 0 {
        lemma_sequence_keeps_capacity(l, requests.drop_last());
        let before = after_all(l, requests.drop_last());
        lemma_settle_keeps_wf(before, requests.last().0, requests.last().1);
        lemma_settle_keeps_capacity(before, requests.last().0, requests.last().1);
    }
}

/// Capacity: a ledger without bookings is within capacity, and recording a
/// session, with whatever limit, keeps a ledger within capacity.
pub proof fn lemma_new_session_keeps_capacity(l: Ledger, session: Session)
    requires
        l.wf(),
        l.within_capacity(),
        !l.has_session(session.id),
    ensures
        l.with_session(session).within_capacity(),
{
    let after = l.with_session(session);
    let n = l.sessions.len() as int;
    assert forall|i: int| 0 <= i < after.sessions.len() implies ((
    #[trigger] after.sessions[i]).max_booking_count is Some ==> after.seats_taken(
        after.sessions[i].id,
    ) <= Ledger::room(after.sessions[i].max_booking_count->0)) by {
        if i < n {
            assert(after.sessions[i] == l.sessions[i]);
        } else {
            assert forall|k: int| 0 <= k < l.bookings.len() implies (#[trigger] l.bookings[k]).session_id
                != session.id by {
                assert(l.has_session(l.bookings[k].session_id));
            }
            lemma_tally_nothing(l.bookings, |x: Booking| x.session_id == session.id);
        }
    }
}

/// Capacity: marking a booking as attended keeps a ledger within capacity.
pub proof fn lemma_attendance_keeps_capacity(l: Ledger, person_id: i64, session_id: i64, attended: bool)
    requires
        l.wf(),
        l.within_capacity(),
        l.has_booking(person_id, session_id),
    ensures
        l.with_attendance(person_id, session_id, attended).within_capacity(),
{
    let after = l.with_attendance(person_id, session_id, attended);
    l.lemma_with_attendance(person_id, session_id, attended);
    assert forall|i: int| 0 <= i < after.sessions.len() implies ((
    #[trigger] after.sessions[i]).max_booking_count is Some ==> after.seats_taken(
        after.sessions[i].id,
    ) <= Ledger::room(after.sessions[i].max_booking_count->0)) by {
        let id = l.sessions[i].id;
        lemma_tally_alike(
            l.bookings,
            |x: Booking| x.session_id == id,
            after.bookings,
            |x: Booking| x.session_id == id,
        );
    }
}

/// Capacity: a booking that is admitted for a session which holds as many
/// bookings as its limit, or more, is turned down as a conflict, and the
/// ledger stays as it was.
pub proof fn lemma_full_session_conflicts(l: Ledger, job: Job, week: Option<WeekBounds>, limit: i64)
    requires
        (job.request is Create),
        (admission(l, job, week) is Ok),
        l.limit_of(job.request.of_session()) == Some(Some(limit)),
        l.seats_taken(job.request.of_session()) >= limit,
    ensures
        settle(l, job, week) == (l, Outcome::Denied(full(limit))),
        full(limit).kind() == ErrorKind::Conflict,
{
}

/// Capacity: a recorded booking of a session with a limit found fewer
/// bookings than the limit, and is the one booking that was added.
pub proof fn lemma_booked_below_limit(l: Ledger, job: Job, week: Option<WeekBounds>, limit: i64)
    requires
        (job.request is Create),
        (settle(l, job, week).1 is Booked),
        l.limit_of(job.request.of_session()) == Some(Some(limit)),
    ensures
        l.seats_taken(job.request.of_session()) < limit,
        settle(l, job, week).0.seats_taken(job.request.of_session()) == l.seats_taken(
            job.request.of_session(),
        ) + 1,
{
    let credits_cost = admission(l, job, week)->Ok_0;
    lemma_seats_with_booking(
        l,
        fresh_booking(job.request.of_person(), job.request.of_session(), credits_cost),
        job.request.of_session(),
    );
}

/// Uniqueness: a request to book a session for a person who holds a booking
/// of it already books nothing: it is turned down and the ledger stays as it
/// was.
pub proof fn lemma_no_double_booking(l: Ledger, job: Job, week: Option<WeekBounds>)
    requires
        (job.request is Create),
        l.has_booking(job.request.of_person(), job.request.of_session()),
    ensures
        settle(l, job, week).0 == l,
        (settle(l, job, week).1 is Denied),
{
}

/// Uniqueness: a booking that was made is the person's one booking of the
/// session, and records the credits that it cost.
pub proof fn lemma_booked_is_recorded(l: Ledger, job: Job, week: Option<WeekBounds>)
    requires
        l.wf(),
        (job.request is Create),
        (settle(l, job, week).1 is Booked),
    ensures
        !l.has_booking(job.request.of_person(), job.request.of_session()),
        (admission(l, job, week) is Ok),
        settle(l, job, week).1 == Outcome::Booked(recorded(job, admission(l, job, week)->Ok_0)),
        settle(l, job, week).0.booking_of(job.request.of_person(), job.request.of_session())
            == Some(
            fresh_booking(
                job.request.of_person(),
                job.request.of_session(),
                admission(l, job, week)->Ok_0,
            ),
        ),
        settle(l, job, week).0.bookings.len() == l.bookings.len() + 1,
{
    let person_id = job.request.of_person();
    let session_id = job.request.of_session();
    let credits_cost = admission(l, job, week)->Ok_0;
    let b = fresh_booking(person_id, session_id, credits_cost);
    let l1 = l.with_booking(b);
    let after = settle(l, job, week).0;
    l.lemma_with_booking_wf(b);
    assert(after.bookings == l1.bookings);
    lemma_settle_keeps_wf(l, job, week);
    let n = l.bookings.len() as int;
    assert(after.bookings[n] == b);
    after.lemma_booking_at(n);
}

/// Credits: a booking that is paid with credits takes exactly its cost from
/// the owner's balance, and every other balance stays.
pub proof fn lemma_booking_debits(l: Ledger, job: Job, week: Option<WeekBounds>)
    requires
        l.wf(),
        (job.request is Create),
        (settle(l, job, week).1 is Booked),
    ensures
        (admission(l, job, week) is Ok),
        admission(l, job, week)->Ok_0 > 0 ==> (l.credits_of(job.request.of_person()) is Some),
        admission(l, job, week)->Ok_0 > 0 ==> settle(l, job, week).0.credits_of(
            job.request.of_person(),
        ) == Some((l.credits_of(job.request.of_person())->0 - admission(l, job, week)->Ok_0) as i32),
        admission(l, job, week)->Ok_0 == 0 ==> settle(l, job, week).0.persons == l.persons,
        forall|id: i64|
            id != job.request.of_person() ==> settle(l, job, week).0.credits_of(id) == l.credits_of(
                id,
            ),
{
    let person_id = job.request.of_person();
    let session_id = job.request.of_session();
    let credits_cost = admission(l, job, week)->Ok_0;
    let b = fresh_booking(person_id, session_id, credits_cost);
    let l1 = l.with_booking(b);
    l.lemma_with_booking_wf(b);
    assert(l1.persons == l.persons);
    assert forall|id: i64| l1.has_person(id) == l.has_person(id) && l1.credits_of(id)
        == l.credits_of(id) by {
        l.lemma_same_person_ids(l1);
    }
    if credits_cost > 0 {
        let c = l1.credits_of(person_id)->0;
        l1.lemma_with_credits(person_id, (c - credits_cost) as i32);
    }
}

/// Credit conservation: when a booking that took credits is cancelled, the
/// owner's balance is what it was before the booking was made.
pub proof fn lemma_credits_conserved(
    l: Ledger,
    create: Job,
    week: Option<WeekBounds>,
    cancel: Job,
)
    requires
        l.wf(),
        (create.request is Create),
        (cancel.request is Cancel),
        cancel.request.of_person() == create.request.of_person(),
        cancel.request.of_session() == create.request.of_session(),
        settle(l, create, week).1 matches Outcome::Booked(b) && credits_taken(b) > 0,
        (may_cancel(settle(l, create, week).0, cancel) is Ok),
    ensures
        settle(settle(l, create, week).0, cancel, None).1 == Outcome::Cancelled(
            recorded(create, admission(l, create, week)->Ok_0),
        ),
        settle(settle(l, create, week).0, cancel, None).0.credits_of(create.request.of_person())
            == l.credits_of(create.request.of_person()),
        !settle(settle(l, create, week).0, cancel, None).0.has_booking(
            create.request.of_person(),
            create.request.of_session(),
        ),
{
    let person_id = create.request.of_person();
    let session_id = create.request.of_session();
    let credits_cost = admission(l, create, week)->Ok_0;
    let l1 = settle(l, create, week).0;
    lemma_booked_is_recorded(l, create, week);
    lemma_booking_debits(l, create, week);
    lemma_settle_keeps_wf(l, create, week);
    assert(l1.has_booking(person_id, session_id));
    l1.lemma_without_booking_wf(person_id, session_id);
    let l2 = l1.without_booking(person_id, session_id);
    assert(l2.persons == l1.persons);
    assert forall|id: i64| l2.has_person(id) == l1.has_person(id) && l2.credits_of(id)
        == l1.credits_of(id) by {
        l1.lemma_same_person_ids(l2);
    }
    let c = l.credits_of(person_id)->0;
    assert(l2.credits_of(person_id) == Some((c - credits_cost) as i32));
    l2.lemma_with_credits(person_id, c);
}

/// Credits: cancelling a booking gives back exactly the credits that the
/// booking records, removes the booking, and leaves every other balance.
pub proof fn lemma_cancel_restores(l: Ledger, job: Job)
    requires
        l.wf(),
        (job.request is Cancel),
        (settle(l, job, None).1 is Cancelled),
    ensures
        (l.booking_of(job.request.of_person(), job.request.of_session()) is Some),
        settle(l, job, None).1 == Outcome::Cancelled(
            reported(l.booking_of(job.request.of_person(), job.request.of_session())->0),
        ),
        (l.credits_of(job.request.of_person()) is Some),
        settle(l, job, None).0.credits_of(job.request.of_person()) == Some(
            (l.credits_of(job.request.of_person())->0 + refund(
                l.booking_of(job.request.of_person(), job.request.of_session())->0,
            )) as i32,
        ),
        forall|id: i64|
            id != job.request.of_person() ==> settle(l, job, None).0.credits_of(id) == l.credits_of(
                id,
            ),
        !settle(l, job, None).0.has_booking(job.request.of_person(), job.request.of_session()),
        settle(l, job, None).0.bookings.len() + 1 == l.bookings.len(),
{
    let person_id = job.request.of_person();
    let session_id = job.request.of_session();
    l.lemma_booking_found(person_id, session_id);
    let b = l.bookings[l.booking_index(person_id, session_id)];
    l.lemma_without_booking_wf(person_id, session_id);
    let l1 = l.without_booking(person_id, session_id);
    assert(l1.persons == l.persons);
    assert forall|id: i64| l1.has_person(id) == l.has_person(id) && l1.credits_of(id)
        == l.credits_of(id) by {
        l.lemma_same_person_ids(l1);
    }
    assert(l.has_person(person_id));
    assert(l1.credits_of(person_id) == l.credits_of(person_id));
    if credits_taken(reported(b)) > 0 {
        let c = l1.credits_of(person_id)->0;
        l1.lemma_with_credits(person_id, (c + credits_taken(reported(b))) as i32);
    } else {
        assert(settle(l, job, None).0 == l1);
    }
}

/// Whether credits pay for a booking of a session at the given cost: the
/// person's balance reaches the cost and the caller offered as much.
pub open spec fn credits_pay(l: Ledger, job: Job, cost: i16) -> bool {
    l.credits_of(job.request.of_person()) matches Some(credits) && credits >= cost
        && job.request.offered() >= cost
}

/// Weekly quota: a limited member who holds a paid booking in the week of a
/// paid session cannot book that session on the membership. Unless credits
/// pay for it, the request is turned down and the ledger stays as it was;
/// where the member's balance does not reach the cost, it is forbidden,
/// citing the paid bookings of that week.
pub proof fn lemma_week_taken(l: Ledger, job: Job, week: WeekBounds)
    requires
        (job.request is Create),
        !job.caller.admin,
        job.caller.uid == job.request.of_person(),
        job.caller.membership == Membership::Limited,
        (l.date_and_cost(job.request.of_session()) is Some),
        l.date_and_cost(job.request.of_session())->0.datetime >= job.now,
        l.date_and_cost(job.request.of_session())->0.cost > 0,
        0 < l.paid_bookings(job.caller.uid, week.start, week.end) <= u64::MAX,
        !credits_pay(l, job, l.date_and_cost(job.request.of_session())->0.cost),
    ensures
        settle(l, job, Some(week)).0 == l,
        (settle(l, job, Some(week)).1 is Denied),
        (l.credits_of(job.request.of_person()) is Some) && l.credits_of(job.request.of_person())->0
            < l.date_and_cost(job.request.of_session())->0.cost ==> settle(l, job, Some(week)).1
            == Outcome::Denied(week_taken(l.paid_bookings(job.caller.uid, week.start, week.end))),
        week_taken(l.paid_bookings(job.caller.uid, week.start, week.end)).kind()
            == ErrorKind::Forbidden,
{
}

/// Weekly quota: a limited member who holds no paid booking in the week of a
/// session that lies ahead is admitted to it at no cost, as far as
/// membership goes.
pub proof fn lemma_week_free(l: Ledger, job: Job, week: WeekBounds)
    requires
        (job.request is Create),
        !job.caller.admin,
        job.caller.uid == job.request.of_person(),
        job.caller.membership == Membership::Limited,
        l.date_and_cost(job.request.of_session()) matches Some(s) && s.datetime >= job.now,
        l.paid_bookings(job.caller.uid, week.start, week.end) == 0,
    ensures
        admission(l, job, Some(week)) == admitted(0),
        settle(l, job, Some(week)) == record(l, job, 0),
{
}

/// Weekly quota: a limited member is admitted to a free session that lies
/// ahead at no cost, whatever bookings the member holds.
pub proof fn lemma_free_session_always(l: Ledger, job: Job, week: Option<WeekBounds>)
    requires
        (job.request is Create),
        !job.caller.admin,
        job.caller.uid == job.request.of_person(),
        job.caller.membership == Membership::Limited,
        l.date_and_cost(job.request.of_session()) matches Some(s) && s.datetime >= job.now && s.cost
            == 0,
    ensures
        admission(l, job, week) == admitted(0),
        settle(l, job, week) == record(l, job, 0),
{
}

/// Authorization: whoever holds no membership cannot book a free session,
/// whatever the balance and the offer: credits pay only for a session that
/// costs something. The request is forbidden and the ledger stays as it was.
pub proof fn lemma_free_session_needs_membership(l: Ledger, job: Job, week: Option<WeekBounds>)
    requires
        (job.request is Create),
        !job.caller.admin,
        job.caller.uid == job.request.of_person(),
        job.caller.membership == Membership::PayAsYouGo,
        (l.date_and_cost(job.request.of_session()) is Some),
        l.date_and_cost(job.request.of_session())->0.datetime >= job.now,
        l.date_and_cost(job.request.of_session())->0.cost == 0,
    ensures
        settle(l, job, week) == (l, Outcome::Denied(no_membership())),
        no_membership().kind() == ErrorKind::Forbidden,
{
}

/// Uniqueness: a second booking of a session for a person who holds one
/// already, by a caller who is admitted, is a conflict, with or without a
/// limit on the session, and the ledger stays as it was.
pub proof fn lemma_second_booking_conflicts(l: Ledger, job: Job, week: Option<WeekBounds>)
    requires
        (job.request is Create),
        (admission(l, job, week) is Ok),
        l.has_session(job.request.of_session()),
        l.has_booking(job.request.of_person(), job.request.of_session()),
    ensures
        settle(l, job, week).0 == l,
        (settle(l, job, week).1 is Denied),
        settle(l, job, week).1->Denied_0.kind() == ErrorKind::Conflict,
{
}

/// Authorization: whoever is no admin and asks to book or cancel for
/// somebody else is forbidden, whatever else holds, and the ledger stays as
/// it was.
pub proof fn lemma_others_forbidden(l: Ledger, job: Job, week: Option<WeekBounds>)
    requires
        !job.caller.admin,
        job.caller.uid != job.request.of_person(),
    ensures
        settle(l, job, week).0 == l,
        settle(l, job, week).1 matches Outcome::Denied(denial) && denial.kind()
            == ErrorKind::Forbidden && (denial == Denial::CreateForOther || denial
            == Denial::CancelForOther),
{
}

/// Authorization: a list of bookings that somebody who is no admin may
/// ask for holds bookings of that person only.
pub proof fn lemma_list_is_own(
    l: Ledger,
    claim: Claims,
    session_id: Option<i64>,
    person_id: Option<i64>,
    from: Option<Result<i64, Seq<char>>>,
    to: Option<Result<i64, Seq<char>>>,
    upto: int,
    at: int,
)
    requires
        !claim.admin(),
        (listing_filter(claim, session_id, person_id, from, to) is Ok),
        0 <= at < selected_rows(
            l,
            listing_filter(claim, session_id, person_id, from, to)->Ok_0,
            upto,
        ).len(),
    ensures
        selected_rows(l, listing_filter(claim, session_id, person_id, from, to)->Ok_0, upto)[at].person_id
            == claim.uid,
    decreases upto,
{
    let filter = listing_filter(claim, session_id, person_id, from, to)->Ok_0;
    if upto > 0 {
        let before = selected_rows(l, filter, upto - 1);
        if at < before.len() {
            lemma_list_is_own(l, claim, session_id, person_id, from, to, upto - 1, at);
        }
    }
}

/// A request that is turned down before the write leaves the ledger as it
/// was.
pub proof fn lemma_denied_admission_changes_nothing(l: Ledger, job: Job, week: Option<WeekBounds>)
    requires
        (job.request is Create),
        (admission(l, job, week) is Err),
    ensures
        settle(l, job, week) == (l, Outcome::Denied(admission(l, job, week)->Err_0)),
{
}

} // verus!

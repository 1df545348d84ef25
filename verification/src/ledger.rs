//! The records of the booking ledger and what can be read off them.
//!
//! A [`Ledger`] is the mathematical content of a store: its persons, its
//! sessions and its bookings. Every rule of the service is stated over it.
use vstd::prelude::*;

use crate::sessions::{SessionLocation, SessionType};

verus! {

/// A person who can hold bookings, with a balance of prepaid credits.
#[derive(Clone, Debug, PartialEq, Eq)]
pub struct Person {
    pub id: i64,
    pub name: String,
    pub email: String,
    pub credits: i32,
}

/// A session that can be booked.
#[derive(Clone, Debug, PartialEq, Eq)]
pub struct Session {
    pub id: i64,
    /// When the session starts.
    pub datetime: i64,
    pub duration_mins: i32,
    pub session_type: SessionType,
    pub location: Option<SessionLocation>,
    /// What a booking costs; zero for a free session.
    pub cost: i16,
    /// The largest number of bookings, where there is one.
    pub max_booking_count: Option<i64>,
}

/// One person's reservation of one session.
#[derive(Clone, Copy, Debug, PartialEq, Eq)]
pub struct Booking {
    pub person_id: i64,
    pub session_id: i64,
    /// The credits that were taken for it; `None` on a booking older than
    /// credits.
    pub credits_used: Option<i16>,
    pub attended: bool,
}

/// A booking as it is asked for and reported.
#[derive(Clone, Copy, Debug, PartialEq, Eq)]
pub struct SessionBooking {
    pub person_id: i64,
    pub session_id: i64,
    pub credits_used: Option<i16>,
}

/// What the booking rules read of a session.
#[derive(Clone, Copy, Debug, PartialEq, Eq)]
pub struct SessionDateAndCost {
    pub id: i64,
    pub datetime: i64,
    pub cost: i16,
}

/// How many of `rows` satisfy `wanted`.
pub open spec fn tally<T>(rows: Seq<T>, wanted: spec_fn(T) -> bool) -> nat
    decreases rows.len(),
{
    if rows.len() == 0 {
        0
    } else {
        tally(rows.drop_last(), wanted) + if wanted(rows.last()) {
            1nat
        } else {
            0nat
        }
    }
}

/// Counting after one more row.
pub proof fn lemma_tally_push<T>(rows: Seq<T>, row: T, wanted: spec_fn(T) -> bool)
    ensures
        tally(rows.push(row), wanted) == tally(rows, wanted) + if wanted(row) {
            1nat
        } else {
            0nat
        },
{
    assert(rows.push(row).drop_last() =~= rows);
}

/// Counting after one row is taken out.
pub proof fn lemma_tally_remove<T>(rows: Seq<T>, at: int, wanted: spec_fn(T) -> bool)
    requires
        0 <= at < rows.len(),
    ensures
        tally(rows.remove(at), wanted) + (if wanted(rows[at]) {
            1nat
        } else {
            0nat
        }) == tally(rows, wanted),
    decreases rows.len(),
{
    if at == rows.len() - 1 {
        assert(rows.remove(at) =~= rows.drop_last());
    } else {
        lemma_tally_remove(rows.drop_last(), at, wanted);
        assert(rows.remove(at).drop_last() =~= rows.drop_last().remove(at));
        assert(rows.remove(at).last() == rows.last());
    }
}

/// Two lists that agree row by row on what is wanted count the same.
pub proof fn lemma_tally_alike<T>(
    rows: Seq<T>,
    wanted: spec_fn(T) -> bool,
    others: Seq<T>,
    sought: spec_fn(T) -> bool,
)
    requires
        rows.len() == others.len(),
        forall|i: int| 0 <= i < rows.len() ==> wanted(#[trigger] rows[i]) == sought(others[i]),
    ensures
        tally(rows, wanted) == tally(others, sought),
    decreases rows.len(),
{
    if rows.len() > 0 {
        assert forall|i: int| 0 <= i < rows.drop_last().len() implies wanted(
            #[trigger] rows.drop_last()[i],
        ) == sought(others.drop_last()[i]) by {
            assert(rows.drop_last()[i] == rows[i]);
        }
        lemma_tally_alike(rows.drop_last(), wanted, others.drop_last(), sought);
        assert(wanted(rows[rows.len() - 1]) == sought(others[rows.len() - 1]));
    }
}

/// Where no row is wanted, nothing is counted.
pub proof fn lemma_tally_nothing<T>(rows: Seq<T>, wanted: spec_fn(T) -> bool)
    requires
        forall|i: int| 0 <= i < rows.len() ==> !wanted(#[trigger] rows[i]),
    ensures
        tally(rows, wanted) == 0,
    decreases rows.len(),
{
    if rows.len() > 0 {
        assert forall|i: int| 0 <= i < rows.drop_last().len() implies !wanted(
            #[trigger] rows.drop_last()[i],
        ) by {
            assert(rows.drop_last()[i] == rows[i]);
        }
        lemma_tally_nothing(rows.drop_last(), wanted);
        assert(!wanted(rows[rows.len() - 1]));
    }
}

/// The persons, sessions and bookings of a store.
pub struct Ledger {
    pub persons: Seq<Person>,
    pub sessions: Seq<Session>,
    pub bookings: Seq<Booking>,
}

impl Ledger {
    /// Whether a person with this id is recorded.
    pub open spec fn has_person(self, id: i64) -> bool {
        exists|i: int| 0 <= i < self.persons.len() && (#[trigger] self.persons[i]).id == id
    }

    /// Where the person with this id stands.
    pub open spec fn person_index(self, id: i64) -> int {
        choose|i: int| 0 <= i < self.persons.len() && (#[trigger] self.persons[i]).id == id
    }

    /// The credit balance of a person, where the person is recorded.
    pub open spec fn credits_of(self, id: i64) -> Option<i32> {
        if self.has_person(id) {
            Some(self.persons[self.person_index(id)].credits)
        } else {
            None
        }
    }

    /// Whether a session with this id is recorded.
    pub open spec fn has_session(self, id: i64) -> bool {
        exists|i: int| 0 <= i < self.sessions.len() && (#[trigger] self.sessions[i]).id == id
    }

    /// Where the session with this id stands.
    pub open spec fn session_index(self, id: i64) -> int {
        choose|i: int| 0 <= i < self.sessions.len() && (#[trigger] self.sessions[i]).id == id
    }

    /// The session with this id, where there is one.
    pub open spec fn session_of(self, id: i64) -> Option<Session> {
        if self.has_session(id) {
            Some(self.sessions[self.session_index(id)])
        } else {
            None
        }
    }

    /// Start and cost of the session with this id, where there is one.
    pub open spec fn date_and_cost(self, id: i64) -> Option<SessionDateAndCost> {
        match self.session_of(id) {
            Some(s) => Some(SessionDateAndCost { id: s.id, datetime: s.datetime, cost: s.cost }),
            None => None,
        }
    }

    /// The booking limit of the session with this id: `None` where there is
    /// no such session, `Some(None)` where it has no limit.
    pub open spec fn limit_of(self, id: i64) -> Option<Option<i64>> {
        match self.session_of(id) {
            Some(s) => Some(s.max_booking_count),
            None => None,
        }
    }

    /// Whether the person holds a booking of the session.
    pub open spec fn has_booking(self, person_id: i64, session_id: i64) -> bool {
        exists|i: int|
            0 <= i < self.bookings.len() && (#[trigger] self.bookings[i]).person_id == person_id
                && self.bookings[i].session_id == session_id
    }

    /// Where the person's booking of the session stands.
    pub open spec fn booking_index(self, person_id: i64, session_id: i64) -> int {
        choose|i: int|
            0 <= i < self.bookings.len() && (#[trigger] self.bookings[i]).person_id == person_id
                && self.bookings[i].session_id == session_id
    }

    /// The person's booking of the session, where there is one.
    pub open spec fn booking_of(self, person_id: i64, session_id: i64) -> Option<Booking> {
        if self.has_booking(person_id, session_id) {
            Some(self.bookings[self.booking_index(person_id, session_id)])
        } else {
            None
        }
    }

    /// How many bookings the session has.
    pub open spec fn seats_taken(self, session_id: i64) -> nat {
        tally(self.bookings, |b: Booking| b.session_id == session_id)
    }

    /// Whether the booking is one of this person for a session that costs
    /// something and starts in `[from, until)`.
    pub open spec fn is_paid_between(self, b: Booking, person_id: i64, from: i64, until: i64) -> bool {
        &&& b.person_id == person_id
        &&& self.session_of(b.session_id) matches Some(s)
        &&& s.cost > 0
        &&& from <= s.datetime < until
    }

    /// How many bookings the person holds for sessions that cost something
    /// and start in `[from, until)`.
    pub open spec fn paid_bookings(self, person_id: i64, from: i64, until: i64) -> nat {
        tally(self.bookings, |b: Booking| self.is_paid_between(b, person_id, from, until))
    }

    /// No two persons share an id.
    pub open spec fn persons_distinct(self) -> bool {
        forall|i: int, j: int|
            0 <= i < j < self.persons.len() ==> (#[trigger] self.persons[i]).id != (
            #[trigger] self.persons[j]).id
    }

    /// No two sessions share an id.
    pub open spec fn sessions_distinct(self) -> bool {
        forall|i: int, j: int|
            0 <= i < j < self.sessions.len() ==> (#[trigger] self.sessions[i]).id != (
            #[trigger] self.sessions[j]).id
    }

    /// No person holds two bookings of one session.
    pub open spec fn bookings_distinct(self) -> bool {
        forall|i: int, j: int|
            0 <= i < j < self.bookings.len() ==> !((#[trigger] self.bookings[i]).person_id == (
            #[trigger] self.bookings[j]).person_id && self.bookings[i].session_id
                == self.bookings[j].session_id)
    }

    /// Every booking is of a recorded person for a recorded session.
    pub open spec fn bookings_anchored(self) -> bool {
        forall|i: int|
            0 <= i < self.bookings.len() ==> self.has_person((#[trigger] self.bookings[i]).person_id)
                && self.has_session(self.bookings[i].session_id)
    }

    /// No balance is negative.
    pub open spec fn credits_covered(self) -> bool {
        forall|i: int| 0 <= i < self.persons.len() ==> (#[trigger] self.persons[i]).credits >= 0
    }

    /// What holds of every ledger that a store can reach.
    pub open spec fn wf(self) -> bool {
        &&& self.persons_distinct()
        &&& self.sessions_distinct()
        &&& self.bookings_distinct()
        &&& self.bookings_anchored()
        &&& self.credits_covered()
    }

    /// The number of bookings that a limit lets in: the limit, and none where
    /// it is negative.
    pub open spec fn room(limit: i64) -> nat {
        if limit < 0 {
            0
        } else {
            limit as nat
        }
    }

    /// No session with a booking limit holds more bookings than its limit.
    pub open spec fn within_capacity(self) -> bool {
        forall|i: int|
            0 <= i < self.sessions.len() ==> ((#[trigger] self.sessions[i]).max_booking_count matches Some(
                limit,
            ) ==> self.seats_taken(self.sessions[i].id) <= Self::room(limit))
    }

    /// The person at a place is recorded, and found at that place.
    pub proof fn lemma_person_at(self, i: int)
        requires
            0 <= i < self.persons.len(),
        ensures
            self.has_person(self.persons[i].id),
            self.persons_distinct() ==> self.person_index(self.persons[i].id) == i,
    {
        let id = self.persons[i].id;
        assert(self.has_person(id));
        let j = self.person_index(id);
        assert(self.persons[j].id == id);
    }

    /// The session at a place is recorded, and found at that place.
    pub proof fn lemma_session_at(self, i: int)
        requires
            0 <= i < self.sessions.len(),
        ensures
            self.has_session(self.sessions[i].id),
            self.sessions_distinct() ==> self.session_index(self.sessions[i].id) == i,
    {
        let id = self.sessions[i].id;
        assert(self.has_session(id));
        let j = self.session_index(id);
        assert(self.sessions[j].id == id);
    }

    /// The booking at a place is recorded, and found at that place.
    pub proof fn lemma_booking_at(self, i: int)
        requires
            0 <= i < self.bookings.len(),
        ensures
            self.has_booking(self.bookings[i].person_id, self.bookings[i].session_id),
            self.bookings_distinct() ==> self.booking_index(
                self.bookings[i].person_id,
                self.bookings[i].session_id,
            ) == i,
    {
        let p = self.bookings[i].person_id;
        let s = self.bookings[i].session_id;
        assert(self.has_booking(p, s));
        let j = self.booking_index(p, s);
        assert(self.bookings[j].person_id == p && self.bookings[j].session_id == s);
    }

    /// A recorded person stands at its place.
    pub proof fn lemma_person_found(self, id: i64)
        requires
            self.has_person(id),
        ensures
            0 <= self.person_index(id) < self.persons.len(),
            self.persons[self.person_index(id)].id == id,
    {
    }

    /// A recorded session stands at its place.
    pub proof fn lemma_session_found(self, id: i64)
        requires
            self.has_session(id),
        ensures
            0 <= self.session_index(id) < self.sessions.len(),
            self.sessions[self.session_index(id)].id == id,
    {
    }

    /// A recorded booking stands at its place.
    pub proof fn lemma_booking_found(self, person_id: i64, session_id: i64)
        requires
            self.has_booking(person_id, session_id),
        ensures
            0 <= self.booking_index(person_id, session_id) < self.bookings.len(),
            self.bookings[self.booking_index(person_id, session_id)].person_id == person_id,
            self.bookings[self.booking_index(person_id, session_id)].session_id == session_id,
    {
    }

    /// Two ledgers whose persons carry the same ids at the same places record
    /// the same persons.
    pub proof fn lemma_same_person_ids(self, other: Ledger)
        requires
            self.persons.len() == other.persons.len(),
            forall|i: int|
                0 <= i < self.persons.len() ==> (#[trigger] self.persons[i]).id
                    == other.persons[i].id,
        ensures
            forall|id: i64| self.has_person(id) == other.has_person(id),
            self.persons_distinct() ==> other.persons_distinct(),
            self.persons_distinct() ==> forall|id: i64|
                self.has_person(id) ==> self.person_index(id) == other.person_index(id),
    {
        assert forall|id: i64| self.has_person(id) == other.has_person(id) by {
            if self.has_person(id) {
                let i = self.person_index(id);
                assert(self.persons[i].id == id);
                assert(other.persons[i].id == id);
            }
            if other.has_person(id) {
                let i = other.person_index(id);
                assert(other.persons[i].id == id);
                assert(self.persons[i].id == id);
            }
        }
        if self.persons_distinct() {
            assert forall|i: int, j: int| 0 <= i < j < other.persons.len() implies (
            #[trigger] other.persons[i]).id != (#[trigger] other.persons[j]).id by {
                assert(self.persons[i].id == other.persons[i].id);
                assert(self.persons[j].id == other.persons[j].id);
            }
            assert forall|id: i64| self.has_person(id) implies self.person_index(id)
                == other.person_index(id) by {
                let i = self.person_index(id);
                assert(self.persons[i].id == id);
                assert(other.persons[i].id == id);
                other.lemma_person_at(i);
            }
        }
    }

    /// Recording a booking that nothing blocks keeps the ledger well formed.
    pub proof fn lemma_with_booking_wf(self, booking: Booking)
        requires
            self.wf(),
            !self.has_booking(booking.person_id, booking.session_id),
            self.has_person(booking.person_id),
            self.has_session(booking.session_id),
        ensures
            self.with_booking(booking).wf(),
            self.with_booking(booking).has_booking(booking.person_id, booking.session_id),
    {
        let after = self.with_booking(booking);
        let n = self.bookings.len() as int;
        assert(after.bookings[n] == booking);
        assert forall|i: int| 0 <= i < n implies #[trigger] after.bookings[i]
            == self.bookings[i] by {}
        assert forall|i: int, j: int| 0 <= i < j < after.bookings.len() implies !((
        #[trigger] after.bookings[i]).person_id == (#[trigger] after.bookings[j]).person_id
            && after.bookings[i].session_id == after.bookings[j].session_id) by {
            if j == n {
                assert(self.bookings[i] == after.bookings[i]);
            } else {
                assert(self.bookings[i] == after.bookings[i]);
                assert(self.bookings[j] == after.bookings[j]);
            }
        }
        assert forall|i: int| 0 <= i < after.bookings.len() implies after.has_person(
            (#[trigger] after.bookings[i]).person_id,
        ) && after.has_session(after.bookings[i].session_id) by {
            let b = after.bookings[i];
            if i < n {
                assert(self.bookings[i] == b);
            }
            assert(self.has_person(b.person_id));
            assert(self.has_session(b.session_id));
            self.lemma_person_found(b.person_id);
            self.lemma_session_found(b.session_id);
            assert(after.persons[self.person_index(b.person_id)].id == b.person_id);
            assert(after.sessions[self.session_index(b.session_id)].id == b.session_id);
        }
        assert(after.has_booking(booking.person_id, booking.session_id));
    }

    /// Removing a recorded booking keeps the ledger well formed, and the
    /// booking is gone.
    pub proof fn lemma_without_booking_wf(self, person_id: i64, session_id: i64)
        requires
            self.wf(),
            self.has_booking(person_id, session_id),
        ensures
            self.without_booking(person_id, session_id).wf(),
            !self.without_booking(person_id, session_id).has_booking(person_id, session_id),
    {
        let after = self.without_booking(person_id, session_id);
        let at = self.booking_index(person_id, session_id);
        self.lemma_booking_found(person_id, session_id);
        assert forall|i: int| 0 <= i < after.bookings.len() implies #[trigger] after.bookings[i] == (
        if i < at {
            self.bookings[i]
        } else {
            self.bookings[i + 1]
        }) by {}
        assert forall|i: int, j: int| 0 <= i < j < after.bookings.len() implies !((
        #[trigger] after.bookings[i]).person_id == (#[trigger] after.bookings[j]).person_id
            && after.bookings[i].session_id == after.bookings[j].session_id) by {
            let i0 = if i < at { i } else { i + 1 };
            let j0 = if j < at { j } else { j + 1 };
            assert(after.bookings[i] == self.bookings[i0]);
            assert(after.bookings[j] == self.bookings[j0]);
        }
        assert forall|i: int| 0 <= i < after.bookings.len() implies after.has_person(
            (#[trigger] after.bookings[i]).person_id,
        ) && after.has_session(after.bookings[i].session_id) by {
            let i0 = if i < at { i } else { i + 1 };
            let b = after.bookings[i];
            assert(b == self.bookings[i0]);
            assert(self.has_person(b.person_id));
            assert(self.has_session(b.session_id));
            self.lemma_person_found(b.person_id);
            self.lemma_session_found(b.session_id);
            assert(after.persons[self.person_index(b.person_id)].id == b.person_id);
            assert(after.sessions[self.session_index(b.session_id)].id == b.session_id);
        }
        if after.has_booking(person_id, session_id) {
            let i = after.booking_index(person_id, session_id);
            let i0 = if i < at { i } else { i + 1 };
            assert(after.bookings[i] == self.bookings[i0]);
            assert(self.bookings[i0].person_id == person_id);
            assert(self.bookings[at].person_id == person_id);
            assert(false);
        }
    }

    /// Setting the balance of a recorded person to a balance that is not
    /// negative keeps the ledger well formed, changes that balance and leaves
    /// every other.
    pub proof fn lemma_with_credits(self, person_id: i64, credits: i32)
        requires
            self.wf(),
            self.has_person(person_id),
            credits >= 0,
        ensures
            self.with_credits(person_id, credits).wf(),
            self.with_credits(person_id, credits).credits_of(person_id) == Some(credits),
            forall|id: i64|
                id != person_id ==> self.with_credits(person_id, credits).credits_of(id)
                    == self.credits_of(id),
            forall|id: i64| self.with_credits(person_id, credits).has_person(id) == self.has_person(id),
    {
        let after = self.with_credits(person_id, credits);
        let at = self.person_index(person_id);
        self.lemma_person_found(person_id);
        assert forall|i: int| 0 <= i < self.persons.len() implies (#[trigger] self.persons[i]).id
            == after.persons[i].id by {}
        self.lemma_same_person_ids(after);
        assert forall|i: int| 0 <= i < after.persons.len() implies (
        #[trigger] after.persons[i]).credits >= 0 by {
            if i != at {
                assert(after.persons[i] == self.persons[i]);
            }
        }
        assert forall|i: int| 0 <= i < after.bookings.len() implies after.has_person(
            (#[trigger] after.bookings[i]).person_id,
        ) && after.has_session(after.bookings[i].session_id) by {
            let b = self.bookings[i];
            assert(self.has_person(b.person_id));
            assert(self.has_session(b.session_id));
            self.lemma_session_found(b.session_id);
            assert(after.sessions[self.session_index(b.session_id)].id == b.session_id);
        }
        assert(after.person_index(person_id) == at);
        assert forall|id: i64| id != person_id implies after.credits_of(id) == self.credits_of(
            id,
        ) by {
            if self.has_person(id) {
                let i = self.person_index(id);
                self.lemma_person_found(id);
                assert(after.person_index(id) == i);
                assert(i != at);
            }
        }
    }

    /// The ledger with one more person.
    pub open spec fn with_person(self, person: Person) -> Ledger {
        Ledger { persons: self.persons.push(person), ..self }
    }

    /// The ledger with one more session.
    pub open spec fn with_session(self, session: Session) -> Ledger {
        Ledger { sessions: self.sessions.push(session), ..self }
    }

    /// Recording a person under a fresh id, with a balance that is not
    /// negative, keeps the ledger well formed.
    pub proof fn lemma_with_person_wf(self, person: Person)
        requires
            self.wf(),
            !self.has_person(person.id),
            person.credits >= 0,
        ensures
            self.with_person(person).wf(),
    {
        let after = self.with_person(person);
        let n = self.persons.len() as int;
        assert forall|i: int| 0 <= i < n implies #[trigger] after.persons[i]
            == self.persons[i] by {}
        assert forall|i: int, j: int| 0 <= i < j < after.persons.len() implies (
        #[trigger] after.persons[i]).id != (#[trigger] after.persons[j]).id by {
            assert(self.persons[i] == after.persons[i]);
            if j < n {
                assert(self.persons[j] == after.persons[j]);
            }
        }
        assert forall|i: int| 0 <= i < after.persons.len() implies (
        #[trigger] after.persons[i]).credits >= 0 by {
            if i < n {
                assert(self.persons[i] == after.persons[i]);
            }
        }
        assert forall|i: int| 0 <= i < after.bookings.len() implies after.has_person(
            (#[trigger] after.bookings[i]).person_id,
        ) && after.has_session(after.bookings[i].session_id) by {
            let b = self.bookings[i];
            assert(self.has_person(b.person_id));
            assert(self.has_session(b.session_id));
            self.lemma_person_found(b.person_id);
            self.lemma_session_found(b.session_id);
            assert(after.persons[self.person_index(b.person_id)].id == b.person_id);
            assert(after.sessions[self.session_index(b.session_id)].id == b.session_id);
        }
    }

    /// Recording a session under a fresh id keeps the ledger well formed.
    pub proof fn lemma_with_session_wf(self, session: Session)
        requires
            self.wf(),
            !self.has_session(session.id),
        ensures
            self.with_session(session).wf(),
    {
        let after = self.with_session(session);
        let n = self.sessions.len() as int;
        assert forall|i: int| 0 <= i < n implies #[trigger] after.sessions[i]
            == self.sessions[i] by {}
        assert forall|i: int, j: int| 0 <= i < j < after.sessions.len() implies (
        #[trigger] after.sessions[i]).id != (#[trigger] after.sessions[j]).id by {
            assert(self.sessions[i] == after.sessions[i]);
            if j < n {
                assert(self.sessions[j] == after.sessions[j]);
            }
        }
        assert forall|i: int| 0 <= i < after.bookings.len() implies after.has_person(
            (#[trigger] after.bookings[i]).person_id,
        ) && after.has_session(after.bookings[i].session_id) by {
            let b = self.bookings[i];
            assert(self.has_person(b.person_id));
            assert(self.has_session(b.session_id));
            self.lemma_person_found(b.person_id);
            self.lemma_session_found(b.session_id);
            assert(after.persons[self.person_index(b.person_id)].id == b.person_id);
            assert(after.sessions[self.session_index(b.session_id)].id == b.session_id);
        }
    }

    /// The ledger in which the person's booking of the session is marked as
    /// attended or not.
    pub open spec fn with_attendance(self, person_id: i64, session_id: i64, attended: bool) -> Ledger {
        let i = self.booking_index(person_id, session_id);
        Ledger { bookings: self.bookings.update(i, Booking { attended, ..self.bookings[i] }), ..self }
    }

    /// Marking a recorded booking keeps the ledger well formed and changes
    /// nothing but the mark.
    pub proof fn lemma_with_attendance(self, person_id: i64, session_id: i64, attended: bool)
        requires
            self.wf(),
            self.has_booking(person_id, session_id),
        ensures
            self.with_attendance(person_id, session_id, attended).wf(),
            self.with_attendance(person_id, session_id, attended).bookings.len()
                == self.bookings.len(),
            forall|i: int|
                0 <= i < self.bookings.len() ==> (#[trigger] self.with_attendance(
                    person_id,
                    session_id,
                    attended,
                ).bookings[i]).person_id == self.bookings[i].person_id && self.with_attendance(
                    person_id,
                    session_id,
                    attended,
                ).bookings[i].session_id == self.bookings[i].session_id && self.with_attendance(
                    person_id,
                    session_id,
                    attended,
                ).bookings[i].credits_used == self.bookings[i].credits_used,
    {
        let after = self.with_attendance(person_id, session_id, attended);
        self.lemma_booking_found(person_id, session_id);
        assert forall|i: int, j: int| 0 <= i < j < after.bookings.len() implies !((
        #[trigger] after.bookings[i]).person_id == (#[trigger] after.bookings[j]).person_id
            && after.bookings[i].session_id == after.bookings[j].session_id) by {
            assert(after.bookings[i].person_id == self.bookings[i].person_id);
            assert(after.bookings[j].person_id == self.bookings[j].person_id);
            assert(after.bookings[i].session_id == self.bookings[i].session_id);
            assert(after.bookings[j].session_id == self.bookings[j].session_id);
        }
        assert forall|i: int| 0 <= i < after.bookings.len() implies after.has_person(
            (#[trigger] after.bookings[i]).person_id,
        ) && after.has_session(after.bookings[i].session_id) by {
            let b = self.bookings[i];
            assert(after.bookings[i].person_id == b.person_id);
            assert(after.bookings[i].session_id == b.session_id);
            assert(self.has_person(b.person_id));
            assert(self.has_session(b.session_id));
            self.lemma_person_found(b.person_id);
            self.lemma_session_found(b.session_id);
            assert(after.persons[self.person_index(b.person_id)].id == b.person_id);
            assert(after.sessions[self.session_index(b.session_id)].id == b.session_id);
        }
    }

    /// The ledger with one more booking.
    pub open spec fn with_booking(self, booking: Booking) -> Ledger {
        Ledger { bookings: self.bookings.push(booking), ..self }
    }

    /// The ledger without the person's booking of the session.
    pub open spec fn without_booking(self, person_id: i64, session_id: i64) -> Ledger {
        Ledger { bookings: self.bookings.remove(self.booking_index(person_id, session_id)), ..self }
    }

    /// The ledger in which the person's balance is `credits`.
    pub open spec fn with_credits(self, person_id: i64, credits: i32) -> Ledger {
        let i = self.person_index(person_id);
        Ledger { persons: self.persons.update(i, Person { credits, ..self.persons[i] }), ..self }
    }
}

} // verus!

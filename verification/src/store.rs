//! An in-memory backend for the booking protocol.
//!
//! A [`BookingStore`] holds persons, sessions and bookings, and answers each
//! [`Action`] of the protocol as [`respond`] says. Exclusive access to the
//! store makes every action atomic, which is what the guarded insert of a
//! limited session needs.
use vstd::prelude::*;

use crate::calendar::WeekBounds;
use crate::flow::{advance, lemma_next_descends, Action, Event, Fault, Job, Outcome, Phase};
use crate::listing::{
    counts_for, passes_type, selected_rows, stat_of, within, AttendanceStat, BookingFilter,
    SessionBookingFull,
};
use crate::laws::{
    lemma_attendance_keeps_capacity, lemma_new_session_keeps_capacity, lemma_settle_keeps_capacity,
};
use crate::ledger::{tally, Booking, Ledger, Person, Session, SessionBooking, SessionDateAndCost};
use crate::rules::{lemma_run_settles, run_from, settle};
use crate::sessions::SessionLocation;

verus! {

/// The booking that an insert records.
pub open spec fn fresh_booking(person_id: i64, session_id: i64, credits_used: i16) -> Booking {
    Booking { person_id, session_id, credits_used: Some(credits_used), attended: false }
}

/// A stored booking as it is reported.
pub open spec fn reported(b: Booking) -> SessionBooking {
    SessionBooking { person_id: b.person_id, session_id: b.session_id, credits_used: b.credits_used }
}

/// What keeps a booking from being recorded, if anything does: the person
/// holds one of the session already, or the person or the session is not
/// recorded.
pub open spec fn blocked(l: Ledger, person_id: i64, session_id: i64) -> Option<Fault> {
    if l.has_booking(person_id, session_id) {
        Some(Fault::DuplicateBooking)
    } else if !l.has_person(person_id) {
        Some(Fault::UnknownPerson)
    } else if !l.has_session(session_id) {
        Some(Fault::UnknownSession)
    } else {
        None
    }
}

/// Recording a booking: refused where something blocks it.
pub open spec fn insert(l: Ledger, person_id: i64, session_id: i64, credits_used: i16) -> (Ledger, Event) {
    match blocked(l, person_id, session_id) {
        Some(fault) => (l, Event::Refused(fault)),
        None => (
            l.with_booking(fresh_booking(person_id, session_id, credits_used)),
            Event::Inserted { rows: 1 },
        ),
    }
}

/// Recording a booking under a limit: nothing is recorded where the session
/// holds `limit` bookings or more, or the person one of it.
pub open spec fn insert_below(
    l: Ledger,
    person_id: i64,
    session_id: i64,
    credits_used: i16,
    limit: i64,
) -> (Ledger, Event) {
    if l.seats_taken(session_id) >= limit || l.has_booking(person_id, session_id) {
        (l, Event::Inserted { rows: 0 })
    } else {
        insert(l, person_id, session_id, credits_used)
    }
}

/// Changing a balance by `delta`: refused for an unknown person, and where
/// the balance would become negative or too large to record.
pub open spec fn adjust(l: Ledger, person_id: i64, delta: int) -> (Ledger, Event) {
    match l.credits_of(person_id) {
        None => (l, Event::Refused(Fault::UnknownPerson)),
        Some(credits) => {
            if 0 <= credits + delta <= i32::MAX {
                (l.with_credits(person_id, (credits + delta) as i32), Event::Adjusted)
            } else {
                (l, Event::Refused(Fault::CreditsOutOfRange))
            }
        },
    }
}

/// Removing a booking: it is reported as it was recorded.
pub open spec fn delete(l: Ledger, person_id: i64, session_id: i64) -> (Ledger, Event) {
    match l.booking_of(person_id, session_id) {
        None => (l, Event::Deleted(None)),
        Some(b) => (l.without_booking(person_id, session_id), Event::Deleted(Some(reported(b)))),
    }
}

/// What an action does to a ledger, and the event that answers it.
pub open spec fn respond(l: Ledger, action: Action) -> (Ledger, Event) {
    match action {
        Action::FetchSession { session_id } => (l, Event::Session(l.date_and_cost(session_id))),
        Action::CountPaidBookings { person_id, from, until } => (
            l,
            Event::PaidBookings(l.paid_bookings(person_id, from, until) as u64),
        ),
        Action::FetchCredits { person_id } => (l, Event::Credits(l.credits_of(person_id))),
        Action::FetchLimit { session_id } => (l, Event::Limit(l.limit_of(session_id))),
        Action::Insert { person_id, session_id, credits_used } => insert(
            l,
            person_id,
            session_id,
            credits_used,
        ),
        Action::InsertBelow { person_id, session_id, credits_used, limit } => insert_below(
            l,
            person_id,
            session_id,
            credits_used,
            limit,
        ),
        Action::Debit { person_id, amount } => adjust(l, person_id, -amount),
        Action::Delete { person_id, session_id } => delete(l, person_id, session_id),
        Action::Restore { person_id, amount } => adjust(l, person_id, amount as int),
        Action::Finish(_) => (l, Event::Begin),
    }
}

/// Counting one row more.
pub proof fn lemma_tally_take<T>(rows: Seq<T>, wanted: spec_fn(T) -> bool, i: int)
    requires
        0 <= i < rows.len(),
    ensures
        tally(rows.take(i + 1), wanted) == tally(rows.take(i), wanted) + if wanted(rows[i]) {
            1nat
        } else {
            0nat
        },
        tally(rows.take(i), wanted) <= i,
    decreases i,
{
    assert(rows.take(i + 1).drop_last() =~= rows.take(i));
    if i > 0 {
        lemma_tally_take(rows, wanted, i - 1);
    } else {
        assert(rows.take(0).len() == 0);
    }
}

/// Persons, sessions and bookings, kept in memory.
pub struct BookingStore {
    persons: Vec<Person>,
    sessions: Vec<Session>,
    bookings: Vec<Booking>,
}

impl View for BookingStore {
    type V = Ledger;

    closed spec fn view(&self) -> Ledger {
        Ledger { persons: self.persons@, sessions: self.sessions@, bookings: self.bookings@ }
    }
}

impl BookingStore {
    /// Whether the store is in a state that its operations can reach.
    pub open spec fn wf(&self) -> bool {
        self@.wf()
    }

    /// Whether no session with a booking limit holds more bookings than its
    /// limit.
    pub open spec fn within_capacity(&self) -> bool {
        self@.within_capacity()
    }

    /// A store without persons, sessions and bookings.
    pub fn new() -> (store: BookingStore)
        ensures
            store.wf(),
            store.within_capacity(),
            store@.persons.len() == 0,
            store@.sessions.len() == 0,
            store@.bookings.len() == 0,
    {
        BookingStore { persons: Vec::new(), sessions: Vec::new(), bookings: Vec::new() }
    }

    fn find_person(&self, id: i64) -> (at: Option<usize>)
        requires
            self.wf(),
        ensures
            at is Some == self@.has_person(id),
            at matches Some(i) ==> i == self@.person_index(id) && i < self@.persons.len(),
    {
        let mut i: usize = 0;
        while i < self.persons.len()
            invariant
                self.wf(),
                i <= self.persons.len(),
                forall|j: int| 0 <= j < i ==> (#[trigger] self.persons@[j]).id != id,
            decreases self.persons.len() - i,
        {
            if self.persons[i].id == id {
                assert(self@.persons[i as int].id == id);
                assert(self@.persons[self@.person_index(id)].id == id);
                return Some(i);
            }
            i += 1;
        }
        None
    }

    fn find_session(&self, id: i64) -> (at: Option<usize>)
        requires
            self.wf(),
        ensures
            at is Some == self@.has_session(id),
            at matches Some(i) ==> i == self@.session_index(id) && i < self@.sessions.len(),
    {
        let mut i: usize = 0;
        while i < self.sessions.len()
            invariant
                self.wf(),
                i <= self.sessions.len(),
                forall|j: int| 0 <= j < i ==> (#[trigger] self.sessions@[j]).id != id,
            decreases self.sessions.len() - i,
        {
            if self.sessions[i].id == id {
                assert(self@.sessions[i as int].id == id);
                assert(self@.sessions[self@.session_index(id)].id == id);
                return Some(i);
            }
            i += 1;
        }
        None
    }

    fn find_booking(&self, person_id: i64, session_id: i64) -> (at: Option<usize>)
        requires
            self.wf(),
        ensures
            at is Some == self@.has_booking(person_id, session_id),
            at matches Some(i) ==> i == self@.booking_index(person_id, session_id) && i
                < self@.bookings.len(),
    {
        let mut i: usize = 0;
        while i < self.bookings.len()
            invariant
                self.wf(),
                i <= self.bookings.len(),
                forall|j: int|
                    0 <= j < i ==> !((#[trigger] self.bookings@[j]).person_id == person_id
                        && self.bookings@[j].session_id == session_id),
            decreases self.bookings.len() - i,
        {
            if self.bookings[i].person_id == person_id && self.bookings[i].session_id == session_id {
                assert(self@.bookings[i as int].person_id == person_id);
                assert(self@.bookings[self@.booking_index(person_id, session_id)].person_id
                    == person_id);
                return Some(i);
            }
            i += 1;
        }
        None
    }

    /// Start and cost of a session.
    pub fn session_date_and_cost(&self, session_id: i64) -> (found: Option<SessionDateAndCost>)
        requires
            self.wf(),
        ensures
            found == self@.date_and_cost(session_id),
    {
        match self.find_session(session_id) {
            Some(i) => {
                let s = &self.sessions[i];
                Some(SessionDateAndCost { id: s.id, datetime: s.datetime, cost: s.cost })
            },
            None => None,
        }
    }

    /// The booking limit of a session.
    pub fn max_booking_count(&self, session_id: i64) -> (found: Option<Option<i64>>)
        requires
            self.wf(),
        ensures
            found == self@.limit_of(session_id),
    {
        match self.find_session(session_id) {
            Some(i) => Some(self.sessions[i].max_booking_count),
            None => None,
        }
    }

    /// The credit balance of a person.
    pub fn credits(&self, person_id: i64) -> (balance: Option<i32>)
        requires
            self.wf(),
        ensures
            balance == self@.credits_of(person_id),
    {
        match self.find_person(person_id) {
            Some(i) => Some(self.persons[i].credits),
            None => None,
        }
    }

    /// The person's booking of the session.
    pub fn booking(&self, person_id: i64, session_id: i64) -> (found: Option<Booking>)
        requires
            self.wf(),
        ensures
            found == self@.booking_of(person_id, session_id),
    {
        match self.find_booking(person_id, session_id) {
            Some(i) => Some(self.bookings[i]),
            None => None,
        }
    }

    /// How many bookings there are.
    pub fn count_bookings(&self) -> (n: usize)
        ensures
            n == self@.bookings.len(),
    {
        self.bookings.len()
    }

    /// How many bookings the session has.
    pub fn seats_taken(&self, session_id: i64) -> (n: usize)
        ensures
            n == self@.seats_taken(session_id),
    {
        let ghost wanted = |b: Booking| b.session_id == session_id;
        let mut n: usize = 0;
        let mut i: usize = 0;
        while i < self.bookings.len()
            invariant
                i <= self.bookings.len(),
                n <= i,
                n == tally(self.bookings@.take(i as int), wanted),
                wanted == |b: Booking| b.session_id == session_id,
            decreases self.bookings.len() - i,
        {
            proof {
                lemma_tally_take(self.bookings@, wanted, i as int);
            }
            if self.bookings[i].session_id == session_id {
                n += 1;
            }
            i += 1;
        }
        assert(self.bookings@.take(i as int) =~= self.bookings@);
        n
    }

    /// How many bookings the person holds for sessions that cost something
    /// and start in `[from, until)`.
    pub fn paid_bookings(&self, person_id: i64, from: i64, until: i64) -> (n: usize)
        requires
            self.wf(),
        ensures
            n == self@.paid_bookings(person_id, from, until),
    {
        let ghost wanted = |b: Booking| self@.is_paid_between(b, person_id, from, until);
        let mut n: usize = 0;
        let mut i: usize = 0;
        while i < self.bookings.len()
            invariant
                self.wf(),
                i <= self.bookings.len(),
                n <= i,
                n == tally(self.bookings@.take(i as int), wanted),
                wanted == |b: Booking| self@.is_paid_between(b, person_id, from, until),
            decreases self.bookings.len() - i,
        {
            proof {
                lemma_tally_take(self.bookings@, wanted, i as int);
            }
            let b: Booking = self.bookings[i];
            let paid: bool = if b.person_id == person_id {
                match self.session_date_and_cost(b.session_id) {
                    Some(s) => s.cost > 0 && from <= s.datetime && s.datetime < until,
                    None => false,
                }
            } else {
                false
            };
            assert(paid == wanted(self.bookings@[i as int]));
            if paid {
                n += 1;
            }
            i += 1;
        }
        assert(self.bookings@.take(i as int) =~= self.bookings@);
        n
    }

    /// Records a person. Nothing is recorded, and `false` returned, where the
    /// id is taken or the balance negative.
    pub fn add_person(&mut self, person: Person) -> (added: bool)
        requires
            old(self).wf(),
        ensures
            final(self).wf(),
            added == (!old(self)@.has_person(person.id) && person.credits >= 0),
            added ==> final(self)@ == old(self)@.with_person(person),
            !added ==> final(self)@ == old(self)@,
            old(self).within_capacity() ==> final(self).within_capacity(),
    {
        if person.credits < 0 || self.find_person(person.id).is_some() {
            return false;
        }
        proof {
            self@.lemma_with_person_wf(person);
        }
        self.persons.push(person);
        true
    }

    /// Records a session. Nothing is recorded, and `false` returned, where
    /// the id is taken.
    pub fn add_session(&mut self, session: Session) -> (added: bool)
        requires
            old(self).wf(),
        ensures
            final(self).wf(),
            added == !old(self)@.has_session(session.id),
            added ==> final(self)@ == old(self)@.with_session(session),
            !added ==> final(self)@ == old(self)@,
            old(self).within_capacity() ==> final(self).within_capacity(),
    {
        if self.find_session(session.id).is_some() {
            return false;
        }
        proof {
            self@.lemma_with_session_wf(session);
            if self@.within_capacity() {
                lemma_new_session_keeps_capacity(self@, session);
            }
        }
        self.sessions.push(session);
        true
    }

    fn insert(&mut self, person_id: i64, session_id: i64, credits_used: i16) -> (event: Event)
        requires
            old(self).wf(),
        ensures
            final(self).wf(),
            (final(self)@, event) == insert(old(self)@, person_id, session_id, credits_used),
    {
        if self.find_booking(person_id, session_id).is_some() {
            return Event::Refused(Fault::DuplicateBooking);
        }
        if self.find_person(person_id).is_none() {
            return Event::Refused(Fault::UnknownPerson);
        }
        if self.find_session(session_id).is_none() {
            return Event::Refused(Fault::UnknownSession);
        }
        let ghost before = self@;
        self.bookings.push(Booking { person_id, session_id, credits_used: Some(credits_used), attended: false });
        proof {
            before.lemma_with_booking_wf(fresh_booking(person_id, session_id, credits_used));
            assert(self@ == before.with_booking(fresh_booking(person_id, session_id, credits_used)));
        }
        Event::Inserted { rows: 1 }
    }

    fn adjust(&mut self, person_id: i64, delta: i32) -> (event: Event)
        requires
            old(self).wf(),
        ensures
            final(self).wf(),
            (final(self)@, event) == adjust(old(self)@, person_id, delta as int),
    {
        let at: usize = match self.find_person(person_id) {
            Some(i) => i,
            None => { return Event::Refused(Fault::UnknownPerson); },
        };
        let credits: i64 = self.persons[at].credits as i64 + delta as i64;
        if credits < 0 || credits > i32::MAX as i64 {
            return Event::Refused(Fault::CreditsOutOfRange);
        }
        let ghost before = self@;
        let held: Person = self.persons.remove(at);
        self.persons.insert(at, Person { credits: credits as i32, ..held });
        proof {
            before.lemma_with_credits(person_id, credits as i32);
            assert(self@.persons =~= before.persons.update(
                at as int,
                Person { credits: credits as i32, ..before.persons[at as int] },
            ));
            assert(self@ == before.with_credits(person_id, credits as i32));
        }
        Event::Adjusted
    }

    fn delete(&mut self, person_id: i64, session_id: i64) -> (event: Event)
        requires
            old(self).wf(),
        ensures
            final(self).wf(),
            (final(self)@, event) == delete(old(self)@, person_id, session_id),
    {
        let at: usize = match self.find_booking(person_id, session_id) {
            Some(i) => i,
            None => { return Event::Deleted(None); },
        };
        let ghost before = self@;
        let b: Booking = self.bookings.remove(at);
        proof {
            before.lemma_without_booking_wf(person_id, session_id);
            assert(self@ == before.without_booking(person_id, session_id));
        }
        Event::Deleted(
            Some(SessionBooking { person_id: b.person_id, session_id: b.session_id, credits_used: b.credits_used }),
        )
    }

    /// Marks the person's booking of the session as attended or not, and
    /// says whether there was such a booking.
    pub fn mark_attendance(&mut self, person_id: i64, session_id: i64, attended: bool) -> (found: bool)
        requires
            old(self).wf(),
        ensures
            final(self).wf(),
            found == old(self)@.has_booking(person_id, session_id),
            found ==> final(self)@ == old(self)@.with_attendance(person_id, session_id, attended),
            !found ==> final(self)@ == old(self)@,
            old(self).within_capacity() ==> final(self).within_capacity(),
    {
        let at: usize = match self.find_booking(person_id, session_id) {
            Some(i) => i,
            None => { return false; },
        };
        let b: Booking = self.bookings[at];
        proof {
            self@.lemma_with_attendance(person_id, session_id, attended);
            if self@.within_capacity() {
                lemma_attendance_keeps_capacity(self@, person_id, session_id, attended);
            }
        }
        self.bookings.set(at, Booking { attended, ..b });
        true
    }

    /// Plays the booking protocol for a request to its end. `week` is the
    /// calendar week of the session that the request is about.
    pub fn run(&mut self, job: Job, week: Option<WeekBounds>) -> (outcome: Outcome)
        requires
            old(self).wf(),
        ensures
            final(self).wf(),
            (final(self)@, outcome) == settle(old(self)@, job, week),
            old(self).within_capacity() ==> final(self).within_capacity(),
    {
        let ghost start = self@;
        proof {
            lemma_run_settles(start, job, week);
            if start.within_capacity() {
                lemma_settle_keeps_capacity(start, job, week);
            }
        }
        let mut phase: Phase = Phase::Start;
        let mut event: Event = Event::Begin;
        loop
            invariant
                self.wf(),
                start == old(self)@,
                start.within_capacity() ==> settle(start, job, week).0.within_capacity(),
                run_from(self@, phase, event, job, week) == settle(start, job, week),
            decreases phase.rank(),
        {
            let (then, action) = advance(phase, event, job, week);
            proof {
                lemma_next_descends(phase, event, job, week);
            }
            match action {
                Action::Finish(outcome) => {
                    return outcome;
                },
                _ => {
                    event = self.perform(action);
                    phase = then;
                },
            }
        }
    }

    /// How many persons there are.
    pub fn count_persons(&self) -> (n: usize)
        ensures
            n == self@.persons.len(),
    {
        self.persons.len()
    }

    /// The row of the booking at a place, if the filter lets it through.
    pub(crate) fn row_at(&self, at: usize, filter: &BookingFilter) -> (row: Option<SessionBookingFull>)
        requires
            self.wf(),
            at < self@.bookings.len(),
        ensures
            selected_rows(self@, *filter, at + 1) == match row {
                Some(r) => selected_rows(self@, *filter, at as int).push(r),
                None => selected_rows(self@, *filter, at as int),
            },
    {
        let b: Booking = self.bookings[at];
        assert(self@.has_person(b.person_id) && self@.has_session(b.session_id)) by {
            assert(self@.bookings[at as int] == b);
        }
        let pi: usize = self.find_person(b.person_id).unwrap();
        let si: usize = self.find_session(b.session_id).unwrap();
        let p: &Person = &self.persons[pi];
        let s: &Session = &self.sessions[si];
        if filter.lets_through(&b, s) {
            let location: Option<SessionLocation> = match &s.location {
                Some(l) => Some(l.duplicate()),
                None => None,
            };
            Some(
                SessionBookingFull {
                    person_id: b.person_id,
                    person_name: p.name.clone(),
                    person_email: p.email.clone(),
                    session_id: b.session_id,
                    session_datetime: s.datetime,
                    session_duration_mins: s.duration_mins,
                    session_location: location,
                    session_type: s.session_type.duplicate(),
                    attended: b.attended,
                    credits_used: match b.credits_used {
                        Some(c) => c,
                        None => 0,
                    },
                },
            )
        } else {
            None
        }
    }

    /// The attendance of the person at a place.
    pub(crate) fn stat_at(&self, at: usize, from: Option<i64>, to: Option<i64>, session_types: &Vec<i32>) -> (stat:
        AttendanceStat)
        requires
            self.wf(),
            at < self@.persons.len(),
        ensures
            stat == stat_of(self@, from, to, session_types@, self@.persons[at as int]),
    {
        let p: &Person = &self.persons[at];
        let person_id: i64 = p.id;
        let ghost wanted = |b: Booking| counts_for(self@, from, to, session_types@, person_id, b);
        let mut n: usize = 0;
        let mut i: usize = 0;
        while i < self.bookings.len()
            invariant
                self.wf(),
                i <= self.bookings.len(),
                n <= i,
                n == tally(self.bookings@.take(i as int), wanted),
                wanted == |b: Booking| counts_for(self@, from, to, session_types@, person_id, b),
            decreases self.bookings.len() - i,
        {
            proof {
                lemma_tally_take(self.bookings@, wanted, i as int);
            }
            let b: Booking = self.bookings[i];
            let counts: bool = if b.person_id == person_id && b.attended {
                match self.find_session(b.session_id) {
                    Some(si) => within(self.sessions[si].datetime, from, to) && passes_type(
                        session_types,
                        self.sessions[si].session_type.id,
                    ),
                    None => false,
                }
            } else {
                false
            };
            assert(counts == wanted(self.bookings@[i as int]));
            if counts {
                n += 1;
            }
            i += 1;
        }
        assert(self.bookings@.take(i as int) =~= self.bookings@);
        let attended_count: i64 = if n as u64 > i64::MAX as u64 {
            i64::MAX
        } else {
            n as i64
        };
        AttendanceStat { person_id, name: p.name.clone(), email: p.email.clone(), attended_count }
    }

    /// Does what the action asks and answers it.
    pub fn perform(&mut self, action: Action) -> (event: Event)
        requires
            old(self).wf(),
        ensures
            final(self).wf(),
            (final(self)@, event) == respond(old(self)@, action),
    {
        match action {
            Action::FetchSession { session_id } => Event::Session(self.session_date_and_cost(session_id)),
            Action::CountPaidBookings { person_id, from, until } => Event::PaidBookings(
                self.paid_bookings(person_id, from, until) as u64,
            ),
            Action::FetchCredits { person_id } => Event::Credits(self.credits(person_id)),
            Action::FetchLimit { session_id } => Event::Limit(self.max_booking_count(session_id)),
            Action::Insert { person_id, session_id, credits_used } => self.insert(
                person_id,
                session_id,
                credits_used,
            ),
            Action::InsertBelow { person_id, session_id, credits_used, limit } => {
                let taken: usize = self.seats_taken(session_id);
                if limit <= 0 || taken as u64 >= limit as u64 || self.find_booking(
                    person_id,
                    session_id,
                ).is_some() {
                    Event::Inserted { rows: 0 }
                } else {
                    self.insert(person_id, session_id, credits_used)
                }
            },
            Action::Debit { person_id, amount } => self.adjust(person_id, -(amount as i32)),
            Action::Delete { person_id, session_id } => self.delete(person_id, session_id),
            Action::Restore { person_id, amount } => self.adjust(person_id, amount as i32),
            Action::Finish(_) => Event::Begin,
        }
    }
}

} // verus!

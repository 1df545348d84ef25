//! What the session catalogue records of a session, and who may change it.
use vstd::prelude::*;
use vstd::string::*;

use crate::calendar::{filter_of, parse_opt_date, reading_of, text_of};
use crate::claims::Claims;
use crate::error::{failure, ApiError, ErrorKind, ErrorView};
use crate::text::{decimal, push_decimal};

verus! {

/// A kind of session, with what a booking of it costs.
#[derive(Clone, Debug, PartialEq, Eq)]
pub struct SessionType {
    pub id: i32,
    pub name: String,
    pub requires_trainer: bool,
    pub cost: i16,
}

/// The trainer who leads a session.
#[derive(Clone, Debug, PartialEq, Eq)]
pub struct SessionTrainer {
    pub id: i64,
    pub name: String,
    pub email: String,
}

/// Where a session takes place.
#[derive(Clone, Debug, PartialEq, Eq)]
pub struct SessionLocation {
    pub id: i32,
    pub name: String,
    pub address: String,
}

impl SessionType {
    /// A copy of this session type.
    pub fn duplicate(&self) -> (copy: SessionType)
        ensures
            copy == *self,
    {
        SessionType {
            id: self.id,
            name: self.name.clone(),
            requires_trainer: self.requires_trainer,
            cost: self.cost,
        }
    }
}

impl SessionLocation {
    /// A copy of this location.
    pub fn duplicate(&self) -> (copy: SessionLocation)
        ensures
            copy == *self,
    {
        SessionLocation { id: self.id, name: self.name.clone(), address: self.address.clone() }
    }
}

/// A session as it is listed.
#[derive(Clone, Debug, PartialEq, Eq)]
pub struct SessionFullRecord {
    pub id: i64,
    pub datetime: i64,
    pub duration_mins: i32,
    pub session_type: SessionType,
    pub location: Option<SessionLocation>,
    pub trainer: Option<SessionTrainer>,
    /// Whether the caller holds a booking of the session.
    pub booked: bool,
    pub booking_count: i64,
    pub max_booking_count: Option<i64>,
    pub notes: Option<String>,
}

/// The error for a row that lacks a column.
pub open spec fn missing_column(column: Seq<char>) -> ErrorView {
    failure(ErrorKind::InternalError, "no column found for name: "@ + column)
}

/// The error for a row that lacks a column.
pub fn column_missing(column: &str) -> (e: ApiError)
    ensures
        e@ == missing_column(column@),
{
    ApiError::with_message(
        ErrorKind::InternalError,
        String::from_str("no column found for name: ").concat(column),
    )
}

/// The location that a joined row shows: none where the row has no
/// location id; else the row must hold the name and the address too.
pub open spec fn location_of(
    id: Option<i32>,
    name: Option<String>,
    address: Option<String>,
    column_prefix: Seq<char>,
) -> Result<Option<SessionLocation>, ErrorView> {
    match id {
        None => Ok(None),
        Some(id) => match name {
            None => Err(missing_column(column_prefix + "location_name"@)),
            Some(name) => match address {
                None => Err(missing_column(column_prefix + "location_address"@)),
                Some(address) => Ok(Some(SessionLocation { id, name, address })),
            },
        },
    }
}

/// The location that a joined row shows. `column_prefix` stands before the
/// names of the location columns of the row.
pub fn optional_location(
    id: Option<i32>,
    name: Option<String>,
    address: Option<String>,
    column_prefix: &str,
) -> (r: Result<Option<SessionLocation>, ApiError>)
    ensures
        match r {
            Ok(location) => location_of(id, name, address, column_prefix@) == Ok::<
                Option<SessionLocation>,
                ErrorView,
            >(location),
            Err(e) => location_of(id, name, address, column_prefix@) == Err::<
                Option<SessionLocation>,
                ErrorView,
            >(e@),
        },
{
    let id: i32 = match id {
        Some(id) => id,
        None => { return Ok(None); },
    };
    let name: String = match name {
        Some(name) => name,
        None => {
            let column: String = String::from_str(column_prefix).concat("location_name");
            return Err(column_missing(column.as_str()));
        },
    };
    let address: String = match address {
        Some(address) => address,
        None => {
            let column: String = String::from_str(column_prefix).concat("location_address");
            return Err(column_missing(column.as_str()));
        },
    };
    Ok(Some(SessionLocation { id, name, address }))
}

/// The trainer that a joined row shows: none where the row has no trainer
/// id; else the row must hold the name and the email address too.
pub open spec fn trainer_of(id: Option<i64>, name: Option<String>, email: Option<String>) -> Result<
    Option<SessionTrainer>,
    ErrorView,
> {
    match id {
        None => Ok(None),
        Some(id) => match name {
            None => Err(missing_column("trainer_name"@)),
            Some(name) => match email {
                None => Err(missing_column("trainer_email"@)),
                Some(email) => Ok(Some(SessionTrainer { id, name, email })),
            },
        },
    }
}

/// The trainer that a joined row shows.
pub fn optional_trainer(id: Option<i64>, name: Option<String>, email: Option<String>) -> (r: Result<
    Option<SessionTrainer>,
    ApiError,
>)
    ensures
        match r {
            Ok(trainer) => trainer_of(id, name, email) == Ok::<Option<SessionTrainer>, ErrorView>(
                trainer,
            ),
            Err(e) => trainer_of(id, name, email) == Err::<Option<SessionTrainer>, ErrorView>(e@),
        },
{
    let id: i64 = match id {
        Some(id) => id,
        None => { return Ok(None); },
    };
    let name: String = match name {
        Some(name) => name,
        None => { return Err(column_missing("trainer_name")); },
    };
    let email: String = match email {
        Some(email) => email,
        None => { return Err(column_missing("trainer_email")); },
    };
    Ok(Some(SessionTrainer { id, name, email }))
}

impl SessionType {
    /// The session type that a joined row shows. A row that does not say
    /// whether the type requires a trainer is taken to require one.
    pub fn from_row(id: i32, name: String, requires_trainer: Option<bool>, cost: i16) -> (t:
        SessionType)
        ensures
            t == (SessionType {
                id,
                name,
                requires_trainer: match requires_trainer {
                    Some(required) => required,
                    None => true,
                },
                cost,
            }),
    {
        let requires_trainer: bool = match requires_trainer {
            Some(required) => required,
            None => true,
        };
        SessionType { id, name, requires_trainer, cost }
    }
}

impl SessionFullRecord {
    /// The session that a joined row shows. A row that does not say whether
    /// the caller booked the session is taken to say no.
    pub fn from_row(
        id: i64,
        datetime: i64,
        duration_mins: i32,
        session_type: SessionType,
        location: Option<SessionLocation>,
        trainer: Option<SessionTrainer>,
        booked: Option<bool>,
        booking_count: i64,
        max_booking_count: Option<i64>,
        notes: Option<String>,
    ) -> (record: SessionFullRecord)
        ensures
            record == (SessionFullRecord {
                id,
                datetime,
                duration_mins,
                session_type,
                location,
                trainer,
                booked: match booked {
                    Some(b) => b,
                    None => false,
                },
                booking_count,
                max_booking_count,
                notes,
            }),
    {
        let booked: bool = match booked {
            Some(b) => b,
            None => false,
        };
        SessionFullRecord {
            id,
            datetime,
            duration_mins,
            session_type,
            location,
            trainer,
            booked,
            booking_count,
            max_booking_count,
            notes,
        }
    }
}

/// A session to be created, or the new state of one.
#[derive(Clone, Debug, PartialEq, Eq)]
pub struct NewSession {
    pub datetime: i64,
    pub duration_mins: i32,
    pub session_type_id: i32,
    pub location_id: Option<i32>,
    pub trainer_id: Option<i64>,
    pub max_bookings: Option<i64>,
    pub notes: Option<String>,
}

/// The complaint about a session without a trainer, if there is one: its
/// type must be known and must not require a trainer.
pub open spec fn trainer_complaint(session_type_id: i32, found: Option<SessionType>) -> Option<
    Seq<char>,
> {
    match found {
        None => Some("Session type not found with id "@ + decimal(session_type_id as int)),
        Some(t) => if t.requires_trainer {
            Some("Sessions of type '"@ + t.name@ + "' require a trainer."@)
        } else {
            None
        },
    }
}

impl NewSession {
    /// Whether the session's type has to be looked at before the session is
    /// accepted: it has where the session has no trainer.
    pub fn needs_session_type(&self) -> (needed: bool)
        ensures
            needed == (self.trainer_id is None),
    {
        self.trainer_id.is_none()
    }

    /// Checks the session against its type, as far as it was looked up: a
    /// session with a trainer is accepted; one without only where its type
    /// is known and requires none.
    pub fn validate(&self, found: &Option<SessionType>) -> (r: Result<(), String>)
        ensures
            match r {
                Ok(_) => self.trainer_id is Some || trainer_complaint(self.session_type_id, *found)
                    is None,
                Err(complaint) => self.trainer_id is None && trainer_complaint(
                    self.session_type_id,
                    *found,
                ) == Some(complaint@),
            },
    {
        if self.trainer_id.is_none() {
            match found {
                None => {
                    let mut complaint: String = String::from_str("Session type not found with id ");
                    push_decimal(&mut complaint, self.session_type_id as i64);
                    return Err(complaint);
                },
                Some(session_type) => {
                    if session_type.requires_trainer {
                        let mut complaint: String = String::from_str("Sessions of type '");
                        complaint.append(session_type.name.as_str());
                        complaint.append("' require a trainer.");
                        return Err(complaint);
                    }
                },
            }
        }
        Ok(())
    }
}

/// The refusal of a session that does not pass its check.
pub fn invalid_session(complaint: String) -> (e: ApiError)
    ensures
        e@ == failure(ErrorKind::BadRequest, complaint@),
{
    ApiError::with_message(ErrorKind::BadRequest, complaint)
}

/// Whether `claim` may create a session with the given trainer: an admin
/// may create any, a trainer only sessions of their own, nobody else any.
pub open spec fn creation_check(claim: Claims, trainer_id: Option<i64>) -> Result<(), ErrorView> {
    if claim.admin() {
        Ok(())
    } else if claim.trains() {
        if trainer_id == Some(claim.uid) {
            Ok(())
        } else {
            Err(failure(ErrorKind::Forbidden, "trainers can only create sessions for themselves"@))
        }
    } else {
        Err(failure(ErrorKind::Forbidden, "only admins or trainers can create sessions"@))
    }
}

/// A check or its refusal, with the refusal as kind and message.
pub open spec fn session_check_told(r: Result<(), ApiError>) -> Result<(), ErrorView> {
    match r {
        Ok(_) => Ok(()),
        Err(e) => Err(e@),
    }
}

/// Checks whether `claim` may create a session with the given trainer.
pub fn may_create_session(claim: &Claims, trainer_id: Option<i64>) -> (r: Result<(), ApiError>)
    ensures
        session_check_told(r) == creation_check(*claim, trainer_id),
{
    if !claim.has_role("admin") {
        if claim.has_role("trainer") {
            let own: bool = match trainer_id {
                Some(id) => id == claim.uid,
                None => false,
            };
            if !own {
                return Err(
                    ApiError::new(
                        ErrorKind::Forbidden,
                        "trainers can only create sessions for themselves",
                    ),
                );
            }
        } else {
            return Err(
                ApiError::new(ErrorKind::Forbidden, "only admins or trainers can create sessions"),
            );
        }
    }
    Ok(())
}

/// What is done to a session.
#[derive(Clone, Copy, Debug, PartialEq, Eq, Structural)]
pub enum SessionChange {
    Delete,
    Update,
}

/// Which sessions a caller may change.
#[derive(Clone, Copy, Debug, PartialEq, Eq)]
pub enum SessionScope {
    /// Any session.
    Any,
    /// The sessions of this trainer.
    OfTrainer(i64),
}

/// The refusal of a change by somebody who is neither admin nor trainer.
pub open spec fn change_refused(change: SessionChange) -> ErrorView {
    match change {
        SessionChange::Delete => failure(
            ErrorKind::Forbidden,
            "only admins and trainers can delete sessions"@,
        ),
        SessionChange::Update => failure(
            ErrorKind::NotFound,
            "only admins and trainers can update sessions"@,
        ),
    }
}

/// Which sessions `claim` may change: an admin any, a trainer their own,
/// nobody else any.
pub open spec fn change_scope(claim: Claims, change: SessionChange) -> Result<SessionScope, ErrorView> {
    if claim.admin() {
        Ok(SessionScope::Any)
    } else if claim.trains() {
        Ok(SessionScope::OfTrainer(claim.uid))
    } else {
        Err(change_refused(change))
    }
}

/// Which sessions `claim` may change.
pub fn session_scope(claim: &Claims, change: SessionChange) -> (r: Result<SessionScope, ApiError>)
    ensures
        match r {
            Ok(scope) => change_scope(*claim, change) == Ok::<SessionScope, ErrorView>(scope),
            Err(e) => change_scope(*claim, change) == Err::<SessionScope, ErrorView>(e@),
        },
{
    if claim.has_role("admin") {
        Ok(SessionScope::Any)
    } else if claim.has_role("trainer") {
        Ok(SessionScope::OfTrainer(claim.uid))
    } else {
        match change {
            SessionChange::Delete => Err(
                ApiError::new(ErrorKind::Forbidden, "only admins and trainers can delete sessions"),
            ),
            SessionChange::Update => Err(
                ApiError::new(ErrorKind::NotFound, "only admins and trainers can update sessions"),
            ),
        }
    }
}

/// The message for a session that was not changed.
pub open spec fn unchanged_message(session_id: i64, change: SessionChange) -> Seq<char> {
    "session id "@ + decimal(session_id as int) + match change {
        SessionChange::Delete => " not found, or not deletable by current user"@,
        SessionChange::Update => " not found, or not updatable by current user"@,
    }
}

/// The answer to a change, given whether a session was changed: where none
/// was, the session does not exist or is not the caller's to change.
pub fn change_result(changed: bool, session_id: i64, change: SessionChange) -> (r: Result<(), ApiError>)
    ensures
        r is Ok <==> changed,
        r matches Err(e) ==> e@ == failure(ErrorKind::NotFound, unchanged_message(session_id, change)),
{
    if changed {
        return Ok(());
    }
    let mut message: String = String::from_str("session id ");
    push_decimal(&mut message, session_id);
    match change {
        SessionChange::Delete => message.append(" not found, or not deletable by current user"),
        SessionChange::Update => message.append(" not found, or not updatable by current user"),
    }
    Err(ApiError::with_message(ErrorKind::NotFound, message))
}

/// The session that was asked for, which must have been found.
pub fn found_session(found: Option<SessionFullRecord>, session_id: i64) -> (r: Result<
    SessionFullRecord,
    ApiError,
>)
    ensures
        match r {
            Ok(session) => found == Some(session),
            Err(e) => found is None && e@ == failure(
                ErrorKind::NotFound,
                "session with id "@ + decimal(session_id as int) + " not found"@,
            ),
        },
{
    match found {
        Some(session) => Ok(session),
        None => {
            let mut message: String = String::from_str("session with id ");
            push_decimal(&mut message, session_id);
            message.append(" not found");
            Err(ApiError::with_message(ErrorKind::NotFound, message))
        },
    }
}

/// Which sessions a list is to hold, and for whom it says whether they are
/// booked.
#[derive(Clone, Copy, Debug, PartialEq, Eq)]
pub struct SessionFilter {
    pub booking_person_id: Option<i64>,
    pub from: Option<i64>,
    pub to: Option<i64>,
    pub trainer_id: Option<i64>,
}

/// The filter of a list of sessions, given what the texts of the two date
/// bounds read as. A bound that cannot be read is refused, the lower one
/// first.
pub open spec fn session_filter(
    booking_person_id: Option<i64>,
    from: Option<Result<i64, Seq<char>>>,
    to: Option<Result<i64, Seq<char>>>,
    trainer_id: Option<i64>,
) -> Result<SessionFilter, ErrorView> {
    match filter_of(from) {
        Err(e) => Err(e),
        Ok(from) => match filter_of(to) {
            Err(e) => Err(e),
            Ok(to) => Ok(SessionFilter { booking_person_id, from, to, trainer_id }),
        },
    }
}

/// The filter of a list of sessions, with the date bounds read from text.
pub fn build_session_query(
    booking_person_id: Option<i64>,
    from: &Option<String>,
    to: &Option<String>,
    trainer_id: Option<i64>,
) -> (r: Result<SessionFilter, ApiError>)
    ensures
        match r {
            Ok(filter) => session_filter(
                booking_person_id,
                reading_of(text_of(*from)),
                reading_of(text_of(*to)),
                trainer_id,
            ) == Ok::<SessionFilter, ErrorView>(filter),
            Err(e) => session_filter(
                booking_person_id,
                reading_of(text_of(*from)),
                reading_of(text_of(*to)),
                trainer_id,
            ) == Err::<SessionFilter, ErrorView>(e@),
        },
{
    let from: Option<i64> = match parse_opt_date(from) {
        Ok(at) => at,
        Err(e) => { return Err(e); },
    };
    let to: Option<i64> = match parse_opt_date(to) {
        Ok(at) => at,
        Err(e) => { return Err(e); },
    };
    Ok(SessionFilter { booking_person_id, from, to, trainer_id })
}

} // verus!

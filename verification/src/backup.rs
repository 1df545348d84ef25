//! The rows of a full export of the tables.
use vstd::prelude::*;
use vstd::string::*;

use crate::claims::{missing_role, Claims};
use crate::error::{failure, ApiError, ErrorKind};

verus! {

/// A row of the persons table.
#[derive(Clone, Debug, PartialEq, Eq)]
pub struct PersonRow {
    pub id: i64,
    pub name: String,
    pub email: String,
    pub phone: Option<String>,
    pub pwd: Option<String>,
    pub roles: Option<String>,
}

/// A row of the session types table.
#[derive(Clone, Debug, PartialEq, Eq)]
pub struct SessionTypeRow {
    pub id: i32,
    pub name: String,
    pub requires_trainer: bool,
}

/// A row of the locations table.
#[derive(Clone, Debug, PartialEq, Eq)]
pub struct LocationRow {
    pub id: i32,
    pub name: String,
    pub address: String,
}

/// A session with the names of its type, location and trainer.
#[derive(Clone, Debug, PartialEq, Eq)]
pub struct SessionRow {
    pub id: i64,
    pub datetime: i64,
    pub duration_mins: i32,
    pub session_type_name: String,
    pub location_name: Option<String>,
    pub trainer_email: Option<String>,
    pub max_booking_count: Option<i64>,
    pub notes: Option<String>,
}

/// A booking by the email address of its person and the start of its
/// session.
#[derive(Clone, Debug, PartialEq, Eq)]
pub struct BookingRow {
    pub person_email: String,
    pub session_datetime: i64,
    pub session_location_name: Option<String>,
    pub session_trainer_email: Option<String>,
}

/// Every table of the service.
#[derive(Clone, Debug, PartialEq, Eq)]
pub struct AllTables {
    pub session_type: Vec<SessionTypeRow>,
    pub location: Vec<LocationRow>,
    pub person: Vec<PersonRow>,
    pub session: Vec<SessionRow>,
    pub booking: Vec<BookingRow>,
}

/// Whether `claim` may export the tables: only an admin may.
pub fn may_backup(claim: &Claims) -> (r: Result<(), ApiError>)
    ensures
        r is Ok <==> claim.admin(),
        r matches Err(e) ==> e@ == missing_role("admin"@),
{
    claim.assert_roles_contains("admin")
}

/// The error for a table that could not be read: it names the table before
/// the backend's complaint.
pub fn table_failure(table: &str, complaint: &str) -> (e: ApiError)
    ensures
        e@ == failure(ErrorKind::InternalError, table@ + ": "@ + complaint@),
{
    let mut message: String = String::from_str(table);
    message.append(": ");
    message.append(complaint);
    ApiError::with_message(ErrorKind::InternalError, message)
}

/// The export of all tables that `claim` asks for, given the tables: only
/// an admin gets them.
pub fn backup_all(claim: &Claims, tables: AllTables) -> (r: Result<AllTables, ApiError>)
    ensures
        match r {
            Ok(exported) => claim.admin() && exported == tables,
            Err(e) => !claim.admin() && e@ == missing_role("admin"@),
        },
{
    match may_backup(claim) {
        Ok(_) => Ok(tables),
        Err(e) => Err(e),
    }
}

} // verus!

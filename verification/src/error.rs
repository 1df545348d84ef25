//! The error vocabulary shared by every operation of the service.
use vstd::prelude::*;
use vstd::string::*;

verus! {

/// Why a request was turned down.
#[derive(Clone, Copy, Debug, PartialEq, Eq, Structural)]
pub enum ErrorKind {
    /// The request itself is not acceptable.
    BadRequest,
    /// The caller could not be identified.
    Unauthorized,
    /// Credits are available but the caller has not agreed to spend them.
    PaymentRequired,
    /// The caller is known but may not do this.
    Forbidden,
    /// The session, booking or user does not exist.
    NotFound,
    /// The session is full.
    Conflict,
    /// A date filter could not be read.
    UnprocessableInput,
    /// The store could not carry out the request.
    InternalError,
}

impl ErrorKind {
    /// The HTTP status that stands for this kind.
    pub open spec fn spec_status_code(self) -> u16 {
        match self {
            ErrorKind::BadRequest => 400u16,
            ErrorKind::Unauthorized => 401u16,
            ErrorKind::PaymentRequired => 402u16,
            ErrorKind::Forbidden => 403u16,
            ErrorKind::NotFound => 404u16,
            ErrorKind::Conflict => 409u16,
            ErrorKind::UnprocessableInput => 422u16,
            ErrorKind::InternalError => 500u16,
        }
    }

    /// The HTTP status that stands for this kind.
    #[verifier::when_used_as_spec(spec_status_code)]
    pub fn status_code(self) -> (code: u16)
        ensures
            code == self.spec_status_code(),
    {
        match self {
            ErrorKind::BadRequest => 400,
            ErrorKind::Unauthorized => 401,
            ErrorKind::PaymentRequired => 402,
            ErrorKind::Forbidden => 403,
            ErrorKind::NotFound => 404,
            ErrorKind::Conflict => 409,
            ErrorKind::UnprocessableInput => 422,
            ErrorKind::InternalError => 500,
        }
    }
}

/// A failed request: its kind and a message for the caller.
#[derive(Clone, Debug, PartialEq, Eq)]
pub struct ApiError {
    pub kind: ErrorKind,
    pub message: String,
}

/// What an [`ApiError`] says, with the message as a sequence of characters.
pub struct ErrorView {
    pub kind: ErrorKind,
    pub message: Seq<char>,
}

impl View for ApiError {
    type V = ErrorView;

    open spec fn view(&self) -> ErrorView {
        ErrorView { kind: self.kind, message: self.message@ }
    }
}

/// The error of the given kind with the given message.
pub open spec fn failure(kind: ErrorKind, message: Seq<char>) -> ErrorView {
    ErrorView { kind, message }
}

impl ApiError {
    /// An error of the given kind that carries `message`.
    pub fn new(kind: ErrorKind, message: &str) -> (e: ApiError)
        ensures
            e@ == failure(kind, message@),
    {
        ApiError { kind, message: String::from_str(message) }
    }

    /// An error of the given kind that takes over `message`.
    pub fn with_message(kind: ErrorKind, message: String) -> (e: ApiError)
        ensures
            e@ == failure(kind, message@),
    {
        ApiError { kind, message }
    }
}

} // verus!

//! The errors that a client can be shown, and the transport status of each.

use vstd::prelude::*;

verus! {

/// Transport status of a request that named a row the store does not hold.
pub const NOT_FOUND: u16 = 404;

/// Transport status of a request whose input was rejected.
pub const BAD_REQUEST: u16 = 400;

/// Transport status of a request that failed for a reason the client cannot mend.
pub const INTERNAL_SERVER_ERROR: u16 = 500;

/// The kinds of error that cross the transport boundary.
#[derive(Clone, Copy, Debug, PartialEq, Eq, Structural)]
pub enum ErrorCodes {
    /// The request named a task that the store does not hold.
    InvalidId,
    /// The request could not be bound, or the store refused what it held.
    InvalidInput,
    /// The store failed for a reason that the client cannot mend.
    InternalServerError,
}

impl ErrorCodes {
    /// The transport status that goes with each kind.
    pub open spec fn status(self) -> u16 {
        match self {
            ErrorCodes::InvalidId => NOT_FOUND,
            ErrorCodes::InvalidInput => BAD_REQUEST,
            ErrorCodes::InternalServerError => INTERNAL_SERVER_ERROR,
        }
    }

    /// The transport status of a response that carries an error of this kind.
    pub fn status_code(self) -> (status: u16)
        ensures
            status == self.status(),
    {
        match self {
            ErrorCodes::InvalidId => NOT_FOUND,
            ErrorCodes::InvalidInput => BAD_REQUEST,
            ErrorCodes::InternalServerError => INTERNAL_SERVER_ERROR,
        }
    }
}

/// Why the body of a request could not be bound to an input.
#[derive(Clone, Copy, Debug, PartialEq, Eq, Structural)]
pub enum PayloadFailure {
    /// The body is larger than the service accepts.
    Oversized,
    /// The request does not declare its body as JSON.
    WrongContentType,
    /// The body is not the JSON of an input.
    Malformed,
    /// The body could not be read from the transport.
    Transport,
}

/// What a client is told when a request fails: the kind, and a message that
/// never carries the store's own words.
#[derive(Debug)]
pub struct ClientError {
    code: ErrorCodes,
    msg: String,
}

/// A [`ClientError`] as a mathematical value.
pub ghost struct ClientErrorView {
    pub code: ErrorCodes,
    pub msg: Seq<char>,
}

impl PartialEq for ClientError {
    fn eq(&self, other: &ClientError) -> (equal: bool) {
        self.code == other.code && self.msg == other.msg
    }
}

/// Two errors are equal when they have the same kind and message.
impl vstd::std_specs::cmp::PartialEqSpecImpl for ClientError {
    open spec fn obeys_eq_spec() -> bool {
        true
    }

    open spec fn eq_spec(&self, other: &ClientError) -> bool {
        self@ == other@
    }
}

/// The message for each reason why a body could not be bound.
pub open spec fn payload_message(failure: PayloadFailure) -> Seq<char> {
    match failure {
        PayloadFailure::Oversized => "Request is too large."@,
        PayloadFailure::WrongContentType => "Cannot process this content, invalid format."@,
        PayloadFailure::Malformed => "Incorrect Syntax applied"@,
        PayloadFailure::Transport => "Something went wrong communicating with the server."@,
    }
}

/// The error for a body that could not be bound: always `InvalidInput`, with
/// the message of the reason.
pub open spec fn payload_failure(failure: PayloadFailure) -> ClientErrorView {
    ClientErrorView { code: ErrorCodes::InvalidInput, msg: payload_message(failure) }
}

impl View for ClientError {
    type V = ClientErrorView;

    closed spec fn view(&self) -> ClientErrorView {
        ClientErrorView { code: self.code, msg: self.msg@ }
    }
}

impl ClientError {
    /// The error of the given kind with the given message.
    pub fn new(code: ErrorCodes, msg: String) -> (error: ClientError)
        ensures
            error@ == (ClientErrorView { code, msg: msg@ }),
    {
        ClientError { code, msg }
    }

    /// The kind of this error.
    pub fn code(&self) -> (code: ErrorCodes)
        ensures
            code == self@.code,
    {
        self.code
    }

    /// The message of this error.
    pub fn msg(&self) -> (msg: &str)
        ensures
            msg@ == self@.msg,
    {
        self.msg.as_str()
    }

    /// The transport status of the response that carries this error.
    pub fn status_code(&self) -> (status: u16)
        ensures
            status == self@.code.status(),
    {
        self.code.status_code()
    }
}

/// Answers a request whose body could not be bound to an input. The store
/// is not asked anything for such a request.
pub fn payload_error(failure: PayloadFailure) -> (error: ClientError)
    ensures
        error@ == payload_failure(failure),
{
    let msg = match failure {
        PayloadFailure::Oversized => "Request is too large.".to_string(),
        PayloadFailure::WrongContentType => "Cannot process this content, invalid format.".to_string(),
        PayloadFailure::Malformed => "Incorrect Syntax applied".to_string(),
        PayloadFailure::Transport => "Something went wrong communicating with the server.".to_string(),
    };
    ClientError::new(ErrorCodes::InvalidInput, msg)
}

} // verus!

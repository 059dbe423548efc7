//! The closed set of failures, and how each is answered.

use vstd::prelude::*;

verus! {

/// Declares `std::num::ParseIntError`, the cause a parse failure carries.
#[verifier::external_type_specification]
#[verifier::external_body]
pub struct ExParseIntError(std::num::ParseIntError);

pub const STATUS_OK: u16 = 200;

pub const STATUS_FORBIDDEN: u16 = 403;

pub const STATUS_NOT_FOUND: u16 = 404;

pub const STATUS_RANGE_NOT_SATISFIABLE: u16 = 416;

pub const STATUS_UNPROCESSABLE_ENTITY: u16 = 422;

/// A failure of the store, of the pagination resolver or of a handler.
#[derive(Debug)]
pub enum Error {
    ParseError(std::num::ParseIntError),
    MissingParameter(String),
    QuestionNotFound,
}

/// Every way a request can fail: the failures of this library, and those
/// that the transport around it reports.
#[derive(Debug)]
pub enum Rejection {
    /// The cross-origin policy refused the request; the text says why.
    CorsForbidden(String),
    /// The request body could not be decoded; the text says why.
    MalformedBody(String),
    Failed(Error),
    /// No route took the request.
    Unmatched,
}

/// What is sent back: a text and a status code.
#[derive(Debug)]
pub struct Outcome {
    pub message: String,
    pub status: u16,
}

/// The text that `std::num::ParseIntError` displays.
pub uninterp spec fn int_error_text(e: std::num::ParseIntError) -> Seq<char>;

/// Relies on the `Display` impl of `std::num::ParseIntError`, whose text
/// depends on the error alone.
#[verifier::external_body]
fn describe_int_error(e: &std::num::ParseIntError) -> (r: String)
    ensures
        r@ == int_error_text(*e),
{
    e.to_string()
}

/// The message of a failure.
pub open spec fn error_text(e: Error) -> Seq<char> {
    match e {
        Error::ParseError(p) => "Cannot parse parameter: "@ + int_error_text(p),
        Error::MissingParameter(name) => "Missing parameter: '"@ + name@ + "'"@,
        Error::QuestionNotFound => "Question not found"@,
    }
}

/// The status that answers a failure: a bad parameter is unprocessable, a
/// missing question is out of range.
pub open spec fn error_status(e: Error) -> u16 {
    match e {
        Error::ParseError(_) => STATUS_UNPROCESSABLE_ENTITY,
        Error::MissingParameter(_) => STATUS_UNPROCESSABLE_ENTITY,
        Error::QuestionNotFound => STATUS_RANGE_NOT_SATISFIABLE,
    }
}

pub open spec fn rejection_text(r: Rejection) -> Seq<char> {
    match r {
        Rejection::CorsForbidden(why) => why@,
        Rejection::MalformedBody(why) => why@,
        Rejection::Failed(e) => error_text(e),
        Rejection::Unmatched => "Route not found"@,
    }
}

pub open spec fn rejection_status(r: Rejection) -> u16 {
    match r {
        Rejection::CorsForbidden(_) => STATUS_FORBIDDEN,
        Rejection::MalformedBody(_) => STATUS_UNPROCESSABLE_ENTITY,
        Rejection::Failed(e) => error_status(e),
        Rejection::Unmatched => STATUS_NOT_FOUND,
    }
}

impl Error {
    /// The human-readable description of the failure.
    pub fn message(&self) -> (r: String)
        ensures
            r@ == error_text(*self),
    {
        match self {
            Error::ParseError(p) => {
                let mut s = String::from_str("Cannot parse parameter: ");
                let d = describe_int_error(p);
                s.append(d.as_str());
                s
            },
            Error::MissingParameter(name) => {
                let mut s = String::from_str("Missing parameter: '");
                s.append(name.as_str());
                s.append("'");
                s
            },
            Error::QuestionNotFound => String::from_str("Question not found"),
        }
    }

    /// The status code that answers the failure.
    pub fn status(&self) -> (r: u16)
        ensures
            r == error_status(*self),
    {
        match self {
            Error::ParseError(_) => STATUS_UNPROCESSABLE_ENTITY,
            Error::MissingParameter(_) => STATUS_UNPROCESSABLE_ENTITY,
            Error::QuestionNotFound => STATUS_RANGE_NOT_SATISFIABLE,
        }
    }
}

impl Outcome {
    /// A success carrying a confirmation text.
    pub fn confirm(message: &str) -> (r: Outcome)
        ensures
            r.message@ == message@,
            r.status == STATUS_OK,
    {
        Outcome { message: String::from_str(message), status: STATUS_OK }
    }
}

/// The single place where a failure becomes a response: the text of the
/// failure and the status of the table that classifies it.
pub fn return_error(r: Rejection) -> (o: Outcome)
    ensures
        o.message@ == rejection_text(r),
        o.status == rejection_status(r),
{
    match r {
        Rejection::CorsForbidden(why) => Outcome { message: why, status: STATUS_FORBIDDEN },
        Rejection::MalformedBody(why) => Outcome {
            message: why,
            status: STATUS_UNPROCESSABLE_ENTITY,
        },
        Rejection::Failed(e) => Outcome { message: e.message(), status: e.status() },
        Rejection::Unmatched => Outcome {
            message: String::from_str("Route not found"),
            status: STATUS_NOT_FOUND,
        },
    }
}

} // verus!

//! The closed set of ways in which a call can fail, and the rule that maps
//! the status code of a completed response to one of them.

use std::collections::BTreeMap;
use vstd::prelude::*;

verus! {

/// The error document that the server sends with a client error: free-text
/// messages, and messages that belong to one field each.
#[derive(Debug, PartialEq, Eq)]
pub struct Errors {
    /// Messages about the request as a whole.
    pub error_messages: Vec<String>,
    /// Field name to the message about that field.
    pub errors: BTreeMap<String, String>,
}

/// Why a call failed.
#[derive(Debug, PartialEq, Eq)]
pub enum Error {
    /// The transport failed: connection, timeout, name resolution. Holds the
    /// transport's own account of the failure.
    Http(String),
    /// JSON could not be written or read. Holds the codec's own account of
    /// the failure.
    Serde(String),
    /// A client error without a name of its own, with the status code and
    /// the error document of the response.
    Fault { code: u16, errors: Errors },
    /// Status 401: the credentials were not accepted.
    Unauthorized,
    /// Status 412.
    PreconditionFailed,
    /// Status 403.
    Forbidden,
    /// Status 405.
    MethodNotAllowed,
    /// Status 404.
    NotFound,
}

/// The status codes of client errors: 400 to 499.
pub open spec fn is_client_error(status: u16) -> bool {
    400 <= status <= 499
}

/// The error that a status code names by itself, whatever the body holds.
pub open spec fn named_outcome(status: u16) -> Option<Error> {
    if status == 401 {
        Some(Error::Unauthorized)
    } else if status == 403 {
        Some(Error::Forbidden)
    } else if status == 404 {
        Some(Error::NotFound)
    } else if status == 405 {
        Some(Error::MethodNotAllowed)
    } else if status == 412 {
        Some(Error::PreconditionFailed)
    } else {
        None
    }
}

/// The status codes that make a fault: client errors without a name.
pub open spec fn is_fault(status: u16) -> bool {
    is_client_error(status) && named_outcome(status) is None
}

/// What the status code of a completed response calls for.
pub enum Verdict {
    /// Not an error: the body is the payload.
    Accept,
    /// A named outcome; the body plays no part.
    Reject(Error),
    /// A client error without a name: the body is an error document.
    Fault,
}

/// The verdict on each status code.
pub open spec fn verdict_of(status: u16) -> Verdict {
    match named_outcome(status) {
        Some(error) => Verdict::Reject(error),
        None => if is_client_error(status) {
            Verdict::Fault
        } else {
            Verdict::Accept
        },
    }
}

/// Classifies the status code of a completed response: 401, 403, 404, 405
/// and 412 are rejected under their names, every other code from 400 to 499
/// is a fault, and every other code is accepted.
pub fn classify(status: u16) -> (verdict: Verdict)
    ensures
        verdict == verdict_of(status),
{
    if status == 401 {
        Verdict::Reject(Error::Unauthorized)
    } else if status == 403 {
        Verdict::Reject(Error::Forbidden)
    } else if status == 404 {
        Verdict::Reject(Error::NotFound)
    } else if status == 405 {
        Verdict::Reject(Error::MethodNotAllowed)
    } else if status == 412 {
        Verdict::Reject(Error::PreconditionFailed)
    } else if 400 <= status && status <= 499 {
        Verdict::Fault
    } else {
        Verdict::Accept
    }
}

impl Error {
    /// The error of a fault with status `code`, given what decoding the
    /// response body as an error document gave: the fault with that
    /// document, or the failure to decode it.
    pub fn fault(code: u16, document: Result<Errors, String>) -> (error: Error)
        ensures
            match document {
                Ok(errors) => error == (Error::Fault { code, errors }),
                Err(cause) => error == Error::Serde(cause),
            },
    {
        match document {
            Ok(errors) => Error::Fault { code, errors },
            Err(cause) => Error::Serde(cause),
        }
    }
}

/// A status code has a name, makes a fault, or is accepted, and never two
/// of these: each code has exactly one verdict.
pub proof fn lemma_one_verdict(status: u16)
    ensures
        verdict_of(status) is Reject <==> named_outcome(status) is Some,
        verdict_of(status) is Fault <==> is_fault(status),
        verdict_of(status) is Accept <==> !is_client_error(status),
        named_outcome(status) is Some ==> is_client_error(status),
{
}

} // verus!

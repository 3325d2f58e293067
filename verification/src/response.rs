//! The responses that the gateway writes itself.

use vstd::prelude::*;
use vstd::string::*;
use crate::utils::{json_message, json_message_text};

verus! {

pub const OK: u16 = 200;

pub const CREATED: u16 = 201;

pub const BAD_REQUEST: u16 = 400;

pub const NOT_FOUND: u16 = 404;

pub const UNPROCESSABLE_ENTITY: u16 = 422;

pub const INTERNAL_SERVER_ERROR: u16 = 500;

pub const GATEWAY_TIMEOUT: u16 = 504;

/// A response of the gateway's own: a status code and a body.
#[derive(Debug)]
pub struct HTTPResponse {
    pub status_code: u16,
    pub body: String,
}

impl HTTPResponse {
    /// Whether this response has the given status and carries `message` in
    /// the gateway's JSON envelope.
    pub open spec fn says(&self, status_code: u16, message: Seq<char>) -> bool {
        self.status_code == status_code && self.body@ == json_message_text(message)
    }

    /// Whether this response has the given status and carries some message
    /// in the gateway's JSON envelope.
    pub open spec fn reports(&self, status_code: u16) -> bool {
        exists|message: Seq<char>| self.says(status_code, message)
    }

    /// The response with the given status that carries `message` in the
    /// gateway's JSON envelope.
    pub fn message(status_code: u16, message: &str) -> (response: HTTPResponse)
        ensures
            response.says(status_code, message@),
            response.reports(status_code),
    {
        let response = HTTPResponse { status_code, body: json_message(message) };
        assert(response.says(status_code, message@));
        response
    }
}

/// The status codes that a mocking rule may answer with: the five classes
/// that HTTP defines.
pub open spec fn valid_status_code(code: i64) -> bool {
    100 <= code <= 599
}

/// `hyper::StatusCode::from_u16`: whether hyper takes the number as a status
/// code, which it does from 100 to 999.
#[verifier::external_body]
fn status_decodes(code: u16) -> (decodes: bool)
    ensures
        decodes == (100 <= code < 1000),
{
    hyper::StatusCode::from_u16(code).is_ok()
}

/// The status code that a stored number stands for, if it is a valid one:
/// it must lie in one of HTTP's five classes and be taken by hyper.
pub fn decode_status_code(code: i64) -> (decoded: Option<u16>)
    ensures
        decoded == if valid_status_code(code) {
            Some(code as u16)
        } else {
            None
        },
{
    if 0 <= code && code <= 599 {
        let narrow = code as u16;
        if status_decodes(narrow) {
            Some(narrow)
        } else {
            None
        }
    } else {
        None
    }
}

} // verus!

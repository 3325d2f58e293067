//! Small helpers shared by the request handlers.

use vstd::prelude::*;
use vstd::string::*;
use vstd::utf8::*;
use crate::json::{all_written, parsed_members, read_payload, Members, Payload};
use crate::text::{same_text, slice_text};

verus! {

/// The text of the JSON envelope that carries `message`.
pub open spec fn json_message_text(message: Seq<char>) -> Seq<char> {
    "{\"msg\": \""@ + message + "\" }\r\n"@
}

/// Wraps `message` in the gateway's one-member JSON envelope. The message is
/// inserted as it is, without escaping.
pub fn json_message(message: &str) -> (out: String)
    ensures
        out@ == json_message_text(message@),
{
    let mut out = String::from_str("{\"msg\": \"");
    out.append(message);
    out.append("\" }\r\n");
    out
}

/// Whether a request with this `Content-Type` header carries a JSON body: the
/// header must be present and be exactly `application/json`.
pub open spec fn is_json_content_type(content_type: Option<Seq<char>>) -> bool {
    content_type == Some("application/json"@)
}

/// Checks if a request has the `application/json` content type, given the
/// value of its `Content-Type` header.
pub fn is_json_request(content_type: Option<&str>) -> (json: bool)
    ensures
        json == is_json_content_type(slice_text(content_type)),
{
    match content_type {
        Some(value) => same_text(value, "application/json"),
        None => false,
    }
}

/// What `String::from_utf8` says of bytes that are not UTF-8.
pub uninterp spec fn utf8_error_text(bytes: Seq<u8>) -> Seq<char>;

/// `String::from_utf8`: the text that the bytes encode, or for bytes that
/// are not UTF-8 the error's message, which depends on the bytes alone.
#[verifier::external_body]
fn utf8_text(bytes: Vec<u8>) -> (text: Result<String, String>)
    ensures
        match text {
            Ok(decoded) => valid_utf8(bytes@) && decoded@ == decode_utf8(bytes@),
            Err(message) => !valid_utf8(bytes@) && message@ == utf8_error_text(bytes@),
        },
{
    String::from_utf8(bytes).map_err(|e| e.to_string())
}

/// The text of a request body, or a message for a body that is not UTF-8.
pub open spec fn body_text(bytes: Seq<u8>) -> Result<Seq<char>, Seq<char>> {
    if valid_utf8(bytes) {
        Ok(decode_utf8(bytes))
    } else {
        Err(utf8_error_text(bytes))
    }
}

/// The outcome with the characters of each text.
pub open spec fn text_result(outcome: Result<String, String>) -> Result<Seq<char>, Seq<char>> {
    match outcome {
        Ok(text) => Ok(text@),
        Err(message) => Err(message@),
    }
}

/// Reads the bytes of a request body as text.
pub fn parse_http_body_to_string(bytes: Vec<u8>) -> (text: Result<String, String>)
    ensures
        text_result(text) == body_text(bytes@),
{
    utf8_text(bytes)
}

/// The members of a request body that is JSON text, or a message for a body
/// that is not.
pub open spec fn body_members(bytes: Seq<u8>) -> Result<Members, Seq<char>> {
    match body_text(bytes) {
        Err(message) => Err(message),
        Ok(text) => match parsed_members(text) {
            Some(members) => Ok(members),
            None => Err("HTTP request body must be in JSON format"@),
        },
    }
}

/// Reads the bytes of a request body as text and the text as JSON.
pub fn parse_http_body_to_json(bytes: Vec<u8>) -> (parsed: Result<Payload, String>)
    ensures
        match parsed {
            Ok(payload) => body_members(bytes@) == Ok::<Members, Seq<char>>(payload@),
            Err(message) => body_members(bytes@) == Err::<Members, Seq<char>>(message@),
        },
        parsed matches Ok(payload) ==> all_written(payload@),
{
    let text = match parse_http_body_to_string(bytes) {
        Ok(text) => text,
        Err(message) => { return Err(message); },
    };
    match read_payload(text.as_str()) {
        Some(payload) => Ok(payload),
        None => Err(String::from_str("HTTP request body must be in JSON format")),
    }
}

} // verus!

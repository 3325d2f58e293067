//! Validation of the payloads that describe mocking rules. Every member is
//! looked at on its own, and all errors are collected before any is reported.

use vstd::prelude::*;
use vstd::string::*;
use crate::db::{Criteria, MockingRule};
use crate::engine::RuleRow;
use crate::json::{
    all_written, member_of, messages_json, write_messages, FieldModel, Members, Payload,
};
use crate::method::{method_name, method_of_token, Method};
use crate::response::{decode_status_code, valid_status_code};
use crate::text::{text_of, texts_of, upper_text};
use crate::utils::{json_message, json_message_text};
use crate::views::RuleView;

verus! {

pub const URL_FIELD: &'static str = "_rockery_request_url";

pub const QUERY_FIELD: &'static str = "_rockery_request_query";

pub const METHOD_FIELD: &'static str = "_rockery_request_method";

pub const DATA_FIELD: &'static str = "_rockery_request_data";

pub const STATUS_FIELD: &'static str = "_rockery_response_status_code";

pub const RESPONSE_FIELD: &'static str = "_rockery_response_data";

pub const URL_NOT_STRING: &'static str = "_rockery_request_url must be a string";

pub const URL_REQUIRED: &'static str = "Field _rockery_request_url is required";

pub const QUERY_NOT_STRING: &'static str = "_rockery_request_query must be a string";

pub const METHOD_NOT_ALLOWED: &'static str =
    "_rockery_request_method must be one of following: GET, HEAD, POST, PUT, DELETE, PATCH";

pub const METHOD_NOT_STRING: &'static str = "_rockery_request_method must be a string";

pub const METHOD_MISSING: &'static str = "Field _rockery_request_method is missing";

pub const DATA_NOT_JSON: &'static str =
    "_rockery_request_data must be of JSON format in order to be serialized properly";

pub const STATUS_INVALID: &'static str =
    "Provided _rockery_response_status_code status code os not valid http status code";

pub const STATUS_NOT_INTEGER: &'static str = "_rockery_response_status_code must be an integer";

pub const STATUS_REQUIRED: &'static str = "Field _rockery_response_status_code is required";

pub const RESPONSE_NOT_JSON: &'static str =
    "_rockery_response_data must be of JSON format in order to be serialized properly";

pub const RESPONSE_REQUIRED: &'static str = "Field _rockery_response_data is required";

pub const ERRORS_NOT_WRITTEN: &'static str = "Fatal Error. Serialization of error messages failed!";

pub const FIELDS_INCONSISTENT: &'static str =
    "Internal error. One of fields do not handle error messages properly";

/// The errors that one member raises: none or one.
pub open spec fn raised(error: Option<Seq<char>>) -> Seq<Seq<char>> {
    match error {
        Some(message) => seq![message],
        None => Seq::empty(),
    }
}

/// The request url of a payload: the member's text.
pub open spec fn url_value(member: Option<FieldModel>) -> Option<Seq<char>> {
    match member {
        Some(field) => field.text,
        None => None,
    }
}

/// The url is required and must be a string.
pub open spec fn url_error(member: Option<FieldModel>) -> Option<Seq<char>> {
    match member {
        Some(field) => if field.text is Some {
            None
        } else {
            Some(URL_NOT_STRING@)
        },
        None => Some(URL_REQUIRED@),
    }
}

/// The request query of a payload: the member's text.
pub open spec fn query_value(member: Option<FieldModel>) -> Option<Seq<char>> {
    match member {
        Some(field) => field.text,
        None => None,
    }
}

/// The query may be absent; a query that is there must be a string.
pub open spec fn query_error(member: Option<FieldModel>) -> Option<Seq<char>> {
    match member {
        Some(field) => if field.text is Some {
            None
        } else {
            Some(QUERY_NOT_STRING@)
        },
        None => None,
    }
}

/// The request method of a payload: the interceptable method that the
/// member's text names in any letter case.
pub open spec fn method_value(member: Option<FieldModel>) -> Option<Method> {
    match member {
        Some(field) => match field.text {
            Some(name) => method_of_token(upper_text(name)),
            None => None,
        },
        None => None,
    }
}

/// The method is required and must be a string that names an interceptable
/// method.
pub open spec fn method_error(member: Option<FieldModel>) -> Option<Seq<char>> {
    match member {
        Some(field) => match field.text {
            Some(name) => if method_of_token(upper_text(name)) is Some {
                None
            } else {
                Some(METHOD_NOT_ALLOWED@)
            },
            None => Some(METHOD_NOT_STRING@),
        },
        None => Some(METHOD_MISSING@),
    }
}

/// The body that a payload asks for, or the body that it answers with: the
/// member written out as JSON.
pub open spec fn data_value(member: Option<FieldModel>) -> Option<Seq<char>> {
    match member {
        Some(field) => field.serialized,
        None => None,
    }
}

/// The request body may be absent; one that is there must be writable as
/// JSON.
pub open spec fn data_error(member: Option<FieldModel>) -> Option<Seq<char>> {
    match member {
        Some(field) => if field.serialized is Some {
            None
        } else {
            Some(DATA_NOT_JSON@)
        },
        None => None,
    }
}

/// The status code of a payload: the member's integer, if it is a valid
/// status code.
pub open spec fn status_value(member: Option<FieldModel>) -> Option<i64> {
    match member {
        Some(field) => match field.integer {
            Some(code) => if valid_status_code(code) {
                Some(code)
            } else {
                None
            },
            None => None,
        },
        None => None,
    }
}

/// The status code is required and must be an integer that is a valid status
/// code. The first two messages come in the JSON envelope.
pub open spec fn status_error(member: Option<FieldModel>) -> Option<Seq<char>> {
    match member {
        Some(field) => match field.integer {
            Some(code) => if valid_status_code(code) {
                None
            } else {
                Some(json_message_text(STATUS_INVALID@))
            },
            None => Some(json_message_text(STATUS_NOT_INTEGER@)),
        },
        None => Some(STATUS_REQUIRED@),
    }
}

/// The response body is required and must be writable as JSON.
pub open spec fn response_error(member: Option<FieldModel>) -> Option<Seq<char>> {
    match member {
        Some(field) => if field.serialized is Some {
            None
        } else {
            Some(RESPONSE_NOT_JSON@)
        },
        None => Some(RESPONSE_REQUIRED@),
    }
}

/// Every error of the four members that say which requests a rule answers,
/// in the order url, query, method, body.
pub open spec fn request_errors(members: Members) -> Seq<Seq<char>> {
    raised(url_error(member_of(members, URL_FIELD@))) + raised(
        query_error(member_of(members, QUERY_FIELD@)),
    ) + raised(method_error(member_of(members, METHOD_FIELD@))) + raised(
        data_error(member_of(members, DATA_FIELD@)),
    )
}

/// Every error of a payload that is to become a rule: those of the request
/// members, then those of status code and response body.
pub open spec fn rule_errors(members: Members) -> Seq<Seq<char>> {
    request_errors(members) + raised(status_error(member_of(members, STATUS_FIELD@))) + raised(
        response_error(member_of(members, RESPONSE_FIELD@)),
    )
}

/// The row of the rule that a payload without errors describes.
pub open spec fn validated_row(members: Members) -> RuleRow {
    RuleRow {
        request_method: method_name(method_value(member_of(members, METHOD_FIELD@))->Some_0),
        request_url: url_value(member_of(members, URL_FIELD@))->Some_0,
        request_query: query_value(member_of(members, QUERY_FIELD@)),
        request_data: data_value(member_of(members, DATA_FIELD@)),
        response_status_code: status_value(member_of(members, STATUS_FIELD@))->Some_0,
        response_data: data_value(member_of(members, RESPONSE_FIELD@)),
    }
}

/// The lookup for the rules that answer the requests which a payload
/// describes.
pub open spec fn validated_criteria(members: Members) -> Criteria {
    Criteria {
        url: url_value(member_of(members, URL_FIELD@)),
        query: query_value(member_of(members, QUERY_FIELD@)),
        method: method_value(member_of(members, METHOD_FIELD@)),
        data: data_value(member_of(members, DATA_FIELD@)),
    }
}

/// The text in which a list of errors is reported: the JSON array of the
/// messages.
pub open spec fn errors_text(errors: Seq<Seq<char>>) -> Seq<char> {
    match messages_json(errors) {
        Some(text) => text,
        None => ERRORS_NOT_WRITTEN@,
    }
}

/// Adds a message to a list of errors.
pub fn push_error(errors: &mut Vec<String>, message: String)
    ensures
        texts_of(final(errors)@) == texts_of(old(errors)@) + seq![message@],
{
    errors.push(message);
    assert(texts_of(errors@) =~= texts_of(old(errors)@) + seq![message@]);
}

/// Validation reports every error at once: a payload without method and
/// without status code is told of both, in two different messages.
pub proof fn lemma_missing_method_and_status_both_reported(members: Members)
    requires
        member_of(members, METHOD_FIELD@) is None,
        member_of(members, STATUS_FIELD@) is None,
    ensures
        rule_errors(members).contains(METHOD_MISSING@),
        rule_errors(members).contains(STATUS_REQUIRED@),
        METHOD_MISSING@ != STATUS_REQUIRED@,
        rule_errors(members).len() >= 2,
{
    reveal_strlit("Field _rockery_request_method is missing");
    reveal_strlit("Field _rockery_response_status_code is required");
    let request = request_errors(members);
    let url = raised(url_error(member_of(members, URL_FIELD@)));
    let query = raised(query_error(member_of(members, QUERY_FIELD@)));
    let errors = rule_errors(members);
    let at_method = url.len() + query.len();
    let at_status = request.len();
    assert(request[at_method as int] == METHOD_MISSING@);
    assert(errors[at_method as int] == METHOD_MISSING@);
    assert(errors[at_status as int] == STATUS_REQUIRED@);
}

/// A member that is found by its name is one of the members.
pub proof fn lemma_member_is_among(members: Members, name: Seq<char>)
    ensures
        member_of(members, name) matches Some(field) ==> exists|i: int|
            0 <= i < members.len() && (#[trigger] members[i]).1 == field,
    decreases members.len(),
{
    if members.len() > 0 && members[0].0 != name {
        let rest = members.drop_first();
        lemma_member_is_among(rest, name);
        if member_of(rest, name) is Some {
            let i = choose|i: int|
                0 <= i < rest.len() && (#[trigger] rest[i]).1 == member_of(rest, name)->Some_0;
            assert(members[i + 1] == rest[i]);
        }
    }
}

/// A payload that was read from JSON raises neither of the two errors for
/// members that cannot be written as JSON.
pub proof fn lemma_read_payload_is_written(members: Members)
    requires
        all_written(members),
    ensures
        data_error(member_of(members, DATA_FIELD@)) is None,
        response_error(member_of(members, RESPONSE_FIELD@)) != Some(RESPONSE_NOT_JSON@),
{
    reveal_strlit("_rockery_response_data must be of JSON format in order to be serialized properly");
    reveal_strlit("Field _rockery_response_data is required");
    lemma_member_is_among(members, DATA_FIELD@);
    lemma_member_is_among(members, RESPONSE_FIELD@);
    let data = member_of(members, DATA_FIELD@);
    let response = member_of(members, RESPONSE_FIELD@);
    if data is Some {
        let i = choose|i: int| 0 <= i < members.len() && (#[trigger] members[i]).1 == data->Some_0;
        assert(members[i].1.serialized is Some);
    }
    if response is Some {
        let i = choose|i: int|
            0 <= i < members.len() && (#[trigger] members[i]).1 == response->Some_0;
        assert(members[i].1.serialized is Some);
    } else {
        assert(RESPONSE_REQUIRED@.len() != RESPONSE_NOT_JSON@.len());
    }
}

impl RuleView {
    /// Extracts and validates the request url.
    pub fn get_json_request_url(payload: &Payload, error_messages: &mut Vec<String>) -> (output:
        Option<String>)
        ensures
            text_of(output) == url_value(member_of(payload@, URL_FIELD@)),
            texts_of(final(error_messages)@) == texts_of(old(error_messages)@) + raised(
                url_error(member_of(payload@, URL_FIELD@)),
            ),
    {
        match payload.get(URL_FIELD) {
            Some(field) => match &field.text {
                Some(url) => Some(url.clone()),
                None => {
                    push_error(error_messages, String::from_str(URL_NOT_STRING));
                    None
                },
            },
            None => {
                push_error(error_messages, String::from_str(URL_REQUIRED));
                None
            },
        }
    }

    /// Extracts and validates the request query.
    pub fn get_json_request_query(payload: &Payload, error_messages: &mut Vec<String>) -> (output:
        Option<String>)
        ensures
            text_of(output) == query_value(member_of(payload@, QUERY_FIELD@)),
            texts_of(final(error_messages)@) == texts_of(old(error_messages)@) + raised(
                query_error(member_of(payload@, QUERY_FIELD@)),
            ),
    {
        match payload.get(QUERY_FIELD) {
            Some(field) => match &field.text {
                Some(query) => Some(query.clone()),
                None => {
                    push_error(error_messages, String::from_str(QUERY_NOT_STRING));
                    None
                },
            },
            None => None,
        }
    }

    /// Extracts and validates the request method.
    pub fn get_json_request_method(payload: &Payload, error_messages: &mut Vec<String>) -> (output:
        Option<Method>)
        ensures
            output == method_value(member_of(payload@, METHOD_FIELD@)),
            texts_of(final(error_messages)@) == texts_of(old(error_messages)@) + raised(
                method_error(member_of(payload@, METHOD_FIELD@)),
            ),
    {
        match payload.get(METHOD_FIELD) {
            Some(field) => match &field.text {
                Some(name) => match Method::from_name(name.as_str()) {
                    Some(method) => Some(method),
                    None => {
                        push_error(error_messages, String::from_str(METHOD_NOT_ALLOWED));
                        None
                    },
                },
                None => {
                    push_error(error_messages, String::from_str(METHOD_NOT_STRING));
                    None
                },
            },
            None => {
                push_error(error_messages, String::from_str(METHOD_MISSING));
                None
            },
        }
    }

    /// Extracts and validates the request body.
    pub fn get_json_request_data(payload: &Payload, error_messages: &mut Vec<String>) -> (output:
        Option<String>)
        ensures
            text_of(output) == data_value(member_of(payload@, DATA_FIELD@)),
            texts_of(final(error_messages)@) == texts_of(old(error_messages)@) + raised(
                data_error(member_of(payload@, DATA_FIELD@)),
            ),
    {
        match payload.get(DATA_FIELD) {
            Some(field) => match &field.serialized {
                Some(data) => Some(data.clone()),
                None => {
                    push_error(error_messages, String::from_str(DATA_NOT_JSON));
                    None
                },
            },
            None => None,
        }
    }

    /// Extracts and validates the status code of the response.
    pub fn get_json_response_status_code(
        payload: &Payload,
        error_messages: &mut Vec<String>,
    ) -> (output: Option<i64>)
        ensures
            output == status_value(member_of(payload@, STATUS_FIELD@)),
            texts_of(final(error_messages)@) == texts_of(old(error_messages)@) + raised(
                status_error(member_of(payload@, STATUS_FIELD@)),
            ),
    {
        match payload.get(STATUS_FIELD) {
            Some(field) => match field.integer {
                Some(code) => if decode_status_code(code).is_some() {
                    Some(code)
                } else {
                    push_error(error_messages, json_message(STATUS_INVALID));
                    None
                },
                None => {
                    push_error(error_messages, json_message(STATUS_NOT_INTEGER));
                    None
                },
            },
            None => {
                push_error(error_messages, String::from_str(STATUS_REQUIRED));
                None
            },
        }
    }

    /// Extracts and validates the body of the response.
    pub fn get_json_response_data(payload: &Payload, error_messages: &mut Vec<String>) -> (output:
        Option<String>)
        ensures
            text_of(output) == data_value(member_of(payload@, RESPONSE_FIELD@)),
            texts_of(final(error_messages)@) == texts_of(old(error_messages)@) + raised(
                response_error(member_of(payload@, RESPONSE_FIELD@)),
            ),
    {
        match payload.get(RESPONSE_FIELD) {
            Some(field) => match &field.serialized {
                Some(data) => Some(data.clone()),
                None => {
                    push_error(error_messages, String::from_str(RESPONSE_NOT_JSON));
                    None
                },
            },
            None => {
                push_error(error_messages, String::from_str(RESPONSE_REQUIRED));
                None
            },
        }
    }

    /// Writes a list of errors as the text in which it is reported.
    pub fn report_errors(error_messages: &Vec<String>) -> (text: String)
        ensures
            text@ == errors_text(texts_of(error_messages@)),
    {
        match write_messages(error_messages) {
            Some(text) => text,
            None => String::from_str(ERRORS_NOT_WRITTEN),
        }
    }

    /// Makes a rule of a payload, or reports every error of the payload at
    /// once. The rule is not yet in any store and has no identifier.
    pub fn create_mocking_rule_from_json(parsed_body: &Payload) -> (made: Result<
        MockingRule,
        String,
    >)
        ensures
            match made {
                Ok(rule) => {
                    &&& rule_errors(parsed_body@).len() == 0
                    &&& rule.id is None
                    &&& rule.row() == validated_row(parsed_body@)
                    &&& Some(rule.request_method) == method_value(
                        member_of(parsed_body@, METHOD_FIELD@),
                    )
                },
                Err(text) => {
                    &&& rule_errors(parsed_body@).len() > 0
                    &&& text@ == errors_text(rule_errors(parsed_body@))
                },
            },
    {
        let mut error_messages: Vec<String> = Vec::new();
        assert(texts_of(error_messages@) =~= Seq::<Seq<char>>::empty());
        let request_url = Self::get_json_request_url(parsed_body, &mut error_messages);
        let request_query = Self::get_json_request_query(parsed_body, &mut error_messages);
        let request_method = Self::get_json_request_method(parsed_body, &mut error_messages);
        let request_data = Self::get_json_request_data(parsed_body, &mut error_messages);
        let response_status_code = Self::get_json_response_status_code(
            parsed_body,
            &mut error_messages,
        );
        let response_data = Self::get_json_response_data(parsed_body, &mut error_messages);
        assert(texts_of(error_messages@) =~= rule_errors(parsed_body@));
        if error_messages.len() > 0 {
            return Err(Self::report_errors(&error_messages));
        }
        match (request_method, request_url, response_status_code) {
            (Some(request_method), Some(request_url), Some(response_status_code)) => Ok(
                MockingRule {
                    id: None,
                    request_method,
                    request_url,
                    request_query,
                    request_data,
                    response_status_code,
                    response_data,
                },
            ),
            // Never reached: a payload without errors has all three.
            _ => Err(String::from_str(FIELDS_INCONSISTENT)),
        }
    }
}

} // verus!

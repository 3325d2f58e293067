//! The request handlers: rule creation, rule deletion, and the decision
//! between a mocked answer and forwarding.

use vstd::prelude::*;
use vstd::string::*;
use crate::db::{
    criteria_of, finds, first_match, has_match, refusal_of, row_matches, rows_wf, Criteria,
    MockingRule, StoreError,
};
use crate::engine::{RuleRow, RuleStore};
use crate::json::{messages_json, write_messages, Members, Payload};
use crate::method::{method_of_token, Method};
use crate::settings::Settings;
use crate::response::{
    decode_status_code, valid_status_code, HTTPResponse, BAD_REQUEST, CREATED,
    INTERNAL_SERVER_ERROR, NOT_FOUND, OK, UNPROCESSABLE_ENTITY,
};
use crate::text::{integer_text, same_text, slice_text, text_of, texts_of, trim, trimmed};
use crate::utils::{
    body_members, body_text, is_json_content_type, is_json_request, json_message,
    json_message_text, parse_http_body_to_json, parse_http_body_to_string,
};
use crate::validation::{
    errors_text, request_errors, rule_errors, validated_criteria, validated_row,
};

verus! {

pub const CREATE_RULE_PATH: &'static str = "/rockery-mock/create-rule";

pub const DELETE_RULE_PATH: &'static str = "/rockery-mock/delete-rule";

pub const CONTENT_TYPE_REQUIRED: &'static str =
    "Request Content-Type header must be application/json";

pub const RULE_NOT_FOUND: &'static str = "Mocking rule does not exists and has not been deleted.";

pub const RULE_DELETED: &'static str = "A rule has been deleted successfully";

pub const ERRORS_NOT_SERIALIZED: &'static str = "Fatal Error: Failed to serialize errors";

pub const NO_RESPONSE_DATA: &'static str = "-";

/// The members of a management request, or the status and message with
/// which the request is refused before anyone looks at its members.
pub open spec fn request_members(content_type: Option<Seq<char>>, body: Seq<u8>) -> Result<
    Members,
    (u16, Seq<char>),
> {
    if !is_json_content_type(content_type) {
        Err((BAD_REQUEST, CONTENT_TYPE_REQUIRED@))
    } else {
        match body_members(body) {
            Ok(members) => Ok(members),
            Err(message) => Err((UNPROCESSABLE_ENTITY, message)),
        }
    }
}

/// The message that reports a created rule.
pub open spec fn created_text(id: i64, url: Seq<char>) -> Seq<char> {
    "Rule #"@ + integer_text(id as int) + " for "@ + url + " has been created successfully!"@
}

/// The handler that a request goes to.
#[derive(Clone, Copy, Debug, PartialEq, Eq, Structural)]
pub enum Route {
    /// [`RuleView::create`]
    CreateRule,
    /// [`RuleView::delete`]
    DeleteRule,
    /// [`RuleView::default`]
    Default,
}

/// The handler for a method and a path: a `POST` to one of the two
/// management paths is a management request, everything else is not.
pub open spec fn route_of(method: Seq<char>, path: Seq<char>) -> Route {
    if method == "POST"@ && path == CREATE_RULE_PATH@ {
        Route::CreateRule
    } else if method == "POST"@ && path == DELETE_RULE_PATH@ {
        Route::DeleteRule
    } else {
        Route::Default
    }
}

/// Picks the handler for a request by its method and path.
pub fn route(method: &str, path: &str) -> (handler: Route)
    ensures
        handler == route_of(method@, path@),
{
    if same_text(method, "POST") && same_text(path, CREATE_RULE_PATH) {
        Route::CreateRule
    } else if same_text(method, "POST") && same_text(path, DELETE_RULE_PATH) {
        Route::DeleteRule
    } else {
        Route::Default
    }
}

/// The answer that a matching rule gives.
#[derive(Debug)]
pub struct MockedResponse {
    pub status_code: u16,
    pub headers: Vec<(String, String)>,
    pub body: String,
}

/// A request that goes on to the backend as it came. Method, path, query,
/// headers and protocol version stay; `host`, where it is there, replaces
/// the `Host` header.
#[derive(Debug)]
pub struct ForwardRequest {
    pub host: Option<String>,
    pub body: String,
}

/// What becomes of a request that is no management request.
#[derive(Debug)]
pub enum Dispatch {
    /// A rule matches: answer with its response.
    Mocked(MockedResponse),
    /// No rule matches, or the method is not interceptable: forward.
    Forward(ForwardRequest),
    /// A rule matches whose stored number is no status code.
    Corrupted(i64),
}

/// The names and values of the headers of every mocked answer.
pub open spec fn mock_header_texts() -> Seq<(Seq<char>, Seq<char>)> {
    seq![
        ("Access-Control-Allow-Origin"@, "*"@),
        ("Access-Control-Allow-Headers"@, "*"@),
        ("Access-Control-Allow-Methods"@, "GET, PUT, POST, DELETE, HEAD, OPTIONS"@),
        ("Server"@, "Rockery - Rust Mocking Gateway"@),
        ("X-Mocked"@, "1"@),
        ("Content-Type"@, "application/json; charset=UTF-8"@),
    ]
}

/// The characters of each name and value of a list of headers.
pub open spec fn header_texts(headers: Seq<(String, String)>) -> Seq<(Seq<char>, Seq<char>)> {
    Seq::new(headers.len(), |i: int| (headers[i].0@, headers[i].1@))
}

/// Whether a mocked answer is the one that a row gives: the row's status
/// code, which must be valid, the fixed headers, and the row's response
/// body, or a dash where it has none.
pub open spec fn mocks(response: MockedResponse, row: RuleRow) -> bool {
    &&& valid_status_code(row.response_status_code)
    &&& response.status_code == row.response_status_code
    &&& header_texts(response.headers@) == mock_header_texts()
    &&& response.body@ == match row.response_data {
        Some(data) => data,
        None => NO_RESPONSE_DATA@,
    }
}

/// The body that a lookup asks for: the request's body without the
/// whitespace around it, an empty one standing for none.
pub open spec fn body_criterion(text: Seq<char>) -> Option<Seq<char>> {
    if trimmed(text).len() == 0 {
        None
    } else {
        Some(trimmed(text))
    }
}

/// Whether a request is forwarded as it should be: with its body, and with
/// the backend's host in place of its own exactly when that is switched on.
pub open spec fn forwards(forward: ForwardRequest, settings: Settings, text: Seq<char>) -> bool {
    &&& forward.body@ == text
    &&& text_of(forward.host) == if settings.spoof_host_header {
        Some(settings.target_host@)
    } else {
        None
    }
}

/// The headers of every mocked answer.
pub fn mock_headers() -> (headers: Vec<(String, String)>)
    ensures
        header_texts(headers@) == mock_header_texts(),
{
    let mut headers: Vec<(String, String)> = Vec::new();
    headers.push((String::from_str("Access-Control-Allow-Origin"), String::from_str("*")));
    headers.push((String::from_str("Access-Control-Allow-Headers"), String::from_str("*")));
    headers.push(
        (
            String::from_str("Access-Control-Allow-Methods"),
            String::from_str("GET, PUT, POST, DELETE, HEAD, OPTIONS"),
        ),
    );
    headers.push((String::from_str("Server"), String::from_str("Rockery - Rust Mocking Gateway")));
    headers.push((String::from_str("X-Mocked"), String::from_str("1")));
    headers.push(
        (String::from_str("Content-Type"), String::from_str("application/json; charset=UTF-8")),
    );
    assert(header_texts(headers@) =~= mock_header_texts());
    headers
}

/// Of the rules that a lookup has found, the first is the first match of the
/// table, and where none was found the table has no match.
pub proof fn lemma_first_found_is_first_match(
    found: Seq<MockingRule>,
    rows: Map<i64, RuleRow>,
    wanted: Criteria,
)
    requires
        finds(found, rows, wanted),
    ensures
        found.len() == 0 <==> !has_match(rows, wanted),
        found.len() > 0 ==> (found[0].id matches Some(id) && first_match(rows, wanted, id)
            && rows[id] == found[0].row()),
{
    if found.len() > 0 {
        let id = found[0].id->Some_0;
        assert(rows.contains_key(id) && row_matches(rows[id], wanted));
        assert forall|other: i64|
            rows.contains_key(other) && row_matches(#[trigger] rows[other], wanted) implies id
            <= other by {
            let i = choose|i: int| 0 <= i < found.len() && (#[trigger] found[i]).id == Some(other);
            if i > 0 {
                assert(found[0].id->Some_0 < found[i].id->Some_0);
            }
        }
    }
}

/// Whether `dispatch` is what becomes of a request for which the lookup has
/// found `found`: without a rule the request is forwarded; otherwise the
/// first rule answers, or is reported where its stored number is no status
/// code.
pub open spec fn answers(
    found: Seq<MockingRule>,
    settings: Settings,
    text: Seq<char>,
    dispatch: Dispatch,
) -> bool {
    if found.len() == 0 {
        dispatch matches Dispatch::Forward(forward) && forwards(forward, settings, text)
    } else if valid_status_code(found[0].response_status_code) {
        dispatch matches Dispatch::Mocked(response) && mocks(response, found[0].row())
    } else {
        dispatch matches Dispatch::Corrupted(code) && code == found[0].response_status_code
    }
}

/// Forwards a request as it came, but for the host where that is switched
/// on.
pub fn forward(settings: &Settings, request_body: String) -> (forward: ForwardRequest)
    ensures
        forwards(forward, *settings, request_body@),
{
    ForwardRequest {
        host: if settings.spoof_host_header {
            Some(settings.target_host.clone())
        } else {
            None
        },
        body: request_body,
    }
}

/// Decides what becomes of a request from the rules that the lookup has
/// found for it. The first rule wins.
pub fn answer(found: Vec<MockingRule>, settings: &Settings, request_body: String) -> (dispatch:
    Dispatch)
    ensures
        answers(found@, *settings, request_body@, dispatch),
{
    let mut found = found;
    if found.len() == 0 {
        return Dispatch::Forward(forward(settings, request_body));
    }
    let rule = found.remove(0);
    match decode_status_code(rule.response_status_code) {
        Some(status_code) => Dispatch::Mocked(
            MockedResponse {
                status_code,
                headers: mock_headers(),
                body: match rule.response_data {
                    Some(data) => data,
                    None => String::from_str(NO_RESPONSE_DATA),
                },
            },
        ),
        None => Dispatch::Corrupted(rule.response_status_code),
    }
}

/// Picks the rule to delete from the rules that the lookup has found: the
/// first, or a refusal where there is none.
pub fn first_found(found: Vec<MockingRule>) -> (picked: Result<MockingRule, HTTPResponse>)
    ensures
        match picked {
            Ok(rule) => found@.len() > 0 && rule == found@[0],
            Err(response) => found@.len() == 0 && response.says(NOT_FOUND, RULE_NOT_FOUND@),
        },
{
    let mut found = found;
    if found.len() == 0 {
        return Err(HTTPResponse::message(NOT_FOUND, RULE_NOT_FOUND));
    }
    Ok(found.remove(0))
}

/// The answer to a request that asked for a rule to be created, by what the
/// store did with the rule.
pub open spec fn creation_answer(
    created: Result<(), StoreError>,
    rule: MockingRule,
    response: HTTPResponse,
) -> bool {
    match created {
        Ok(()) => response.says(
            CREATED,
            "Rule #"@ + rule.id_text() + " for "@ + rule.request_url@
                + " has been created successfully!"@,
        ),
        Err(StoreError::Duplicate) => response.says(
            UNPROCESSABLE_ENTITY,
            StoreError::Duplicate.message_text(),
        ),
        Err(error) => response.says(INTERNAL_SERVER_ERROR, error.message_text()),
    }
}

/// Answers a request that asked for a rule to be created: 201 with the
/// rule's identifier, 422 for a duplicate, 500 where the store failed.
pub fn creation_response(created: Result<(), StoreError>, rule: &MockingRule) -> (outcome: Result<
    HTTPResponse,
    HTTPResponse,
>)
    ensures
        outcome is Ok <==> created is Ok,
        match outcome {
            Ok(response) => creation_answer(created, *rule, response),
            Err(response) => creation_answer(created, *rule, response),
        },
{
    match created {
        Ok(()) => {
            let mut message = String::from_str("Rule #");
            message.append(rule.display_id().as_str());
            message.append(" for ");
            message.append(rule.request_url.as_str());
            message.append(" has been created successfully!");
            Ok(HTTPResponse::message(CREATED, message.as_str()))
        },
        Err(StoreError::Duplicate) => Err(
            HTTPResponse::message(UNPROCESSABLE_ENTITY, StoreError::Duplicate.message().as_str()),
        ),
        Err(error) => Err(HTTPResponse::message(INTERNAL_SERVER_ERROR, error.message().as_str())),
    }
}

/// Answers a request that asked for a rule to be deleted: 200, or 500 where
/// the store failed.
pub fn deletion_response(deleted: Result<(), StoreError>) -> (outcome: Result<
    HTTPResponse,
    HTTPResponse,
>)
    ensures
        match (deleted, outcome) {
            (Ok(()), Ok(response)) => response.says(OK, RULE_DELETED@),
            (Err(error), Err(response)) => response.says(
                INTERNAL_SERVER_ERROR,
                error.message_text(),
            ),
            _ => false,
        },
{
    match deleted {
        Ok(()) => Ok(HTTPResponse::message(OK, RULE_DELETED)),
        Err(error) => Err(HTTPResponse::message(INTERNAL_SERVER_ERROR, error.message().as_str())),
    }
}

/// Uniqueness, where the lookup succeeds: once a rule is created, a request
/// to create a rule for the same requests is answered 422, as a conflict.
pub proof fn lemma_second_creation_is_a_conflict(
    rows: Map<i64, RuleRow>,
    id: i64,
    first: MockingRule,
    second: MockingRule,
    found: Seq<MockingRule>,
    response: HTTPResponse,
)
    requires
        first.criteria() == second.criteria(),
        finds(found, rows.insert(id, first.row()), second.criteria()),
        creation_answer(refusal_of(found), second, response),
    ensures
        response.says(UNPROCESSABLE_ENTITY, StoreError::Duplicate.message_text()),
{
    crate::db::lemma_duplicate_is_refused(rows, id, first, second, found);
}

/// Round trip, where the lookup succeeds: the only rule for a request
/// answers it with its own status code and body, and nothing is forwarded;
/// a request for which the store holds no rule is forwarded.
pub proof fn lemma_only_match_answers(
    found: Seq<MockingRule>,
    rows: Map<i64, RuleRow>,
    wanted: Criteria,
    settings: Settings,
    text: Seq<char>,
    dispatch: Dispatch,
)
    requires
        rows_wf(rows),
        finds(found, rows, wanted),
        answers(found, settings, text, dispatch),
    ensures
        !has_match(rows, wanted) ==> (dispatch matches Dispatch::Forward(forward) && forwards(
            forward,
            settings,
            text,
        )),
        forall|id: i64|
            rows.contains_key(id) && row_matches(#[trigger] rows[id], wanted) ==> {
                &&& dispatch !is Forward
                &&& valid_status_code(rows[id].response_status_code) ==> (
                dispatch matches Dispatch::Mocked(response) && mocks(response, rows[id]))
            },
{
    lemma_first_found_is_first_match(found, rows, wanted);
    assert forall|id: i64| rows.contains_key(id) && row_matches(#[trigger] rows[id], wanted) implies {
        &&& dispatch !is Forward
        &&& valid_status_code(rows[id].response_status_code) ==> (
        dispatch matches Dispatch::Mocked(response) && mocks(response, rows[id]))
    } by {
        let first = found[0].id->Some_0;
        crate::db::lemma_at_most_one_match(rows, wanted, id, first);
    }
}

/// Delete requires existence, where the lookup succeeds: without a match
/// the request is answered 404, and with one match that rule is the one
/// picked for deletion, which leaves one rule less.
pub proof fn lemma_delete_picks_the_match(
    found: Seq<MockingRule>,
    rows: Map<i64, RuleRow>,
    wanted: Criteria,
)
    requires
        rows_wf(rows),
        finds(found, rows, wanted),
    ensures
        !has_match(rows, wanted) ==> found.len() == 0,
        forall|id: i64|
            rows.contains_key(id) && row_matches(#[trigger] rows[id], wanted) ==> {
                &&& found.len() > 0
                &&& found[0].id == Some(id)
                &&& rows.remove(id).dom().len() == rows.dom().len() - 1
            },
{
    lemma_first_found_is_first_match(found, rows, wanted);
    assert forall|id: i64| rows.contains_key(id) && row_matches(#[trigger] rows[id], wanted) implies {
        &&& found.len() > 0
        &&& found[0].id == Some(id)
        &&& rows.remove(id).dom().len() == rows.dom().len() - 1
    } by {
        let first = found[0].id->Some_0;
        crate::db::lemma_at_most_one_match(rows, wanted, id, first);
        crate::db::lemma_delete_removes_one(rows, id);
    }
}

/// Handlers for the gateway's requests. It has no state of its own.
pub struct RuleView {}

impl RuleView {
    /// Validates that a request meets the general requirements of a
    /// management request: its content type must be JSON.
    pub fn validate_rule_request(content_type: Option<&str>) -> (validated: Result<
        (),
        HTTPResponse,
    >)
        ensures
            match validated {
                Ok(()) => is_json_content_type(slice_text(content_type)),
                Err(response) => !is_json_content_type(slice_text(content_type)) && response.says(
                    BAD_REQUEST,
                    CONTENT_TYPE_REQUIRED@,
                ),
            },
    {
        if !is_json_request(content_type) {
            return Err(HTTPResponse::message(BAD_REQUEST, CONTENT_TYPE_REQUIRED));
        }
        Ok(())
    }

    /// Reads the members of a management request, or refuses the request.
    pub fn read_rule_request(content_type: Option<&str>, body: Vec<u8>) -> (read: Result<
        Payload,
        HTTPResponse,
    >)
        ensures
            match read {
                Ok(payload) => request_members(slice_text(content_type), body@) == Ok::<
                    Members,
                    (u16, Seq<char>),
                >(payload@),
                Err(response) => request_members(slice_text(content_type), body@) matches Err(
                    (status_code, message),
                ) && response.says(status_code, message),
            },
    {
        match Self::validate_rule_request(content_type) {
            Ok(()) => {},
            Err(response) => { return Err(response); },
        }
        match parse_http_body_to_json(body) {
            Ok(payload) => Ok(payload),
            Err(message) => Err(HTTPResponse::message(UNPROCESSABLE_ENTITY, message.as_str())),
        }
    }

    /// Handles a request that attempts to create a new mocking rule.
    ///
    /// A request that is not JSON is refused before the store is touched,
    /// and so is a payload with errors, all of which are reported at once.
    /// A rule for requests that have a rule already is a conflict. Whatever
    /// is refused or fails leaves the store as it was.
    pub fn create(store: &mut RuleStore, content_type: Option<&str>, body: Vec<u8>) -> (outcome:
        Result<HTTPResponse, HTTPResponse>)
        requires
            old(store).wf(),
        ensures
            final(store).wf(),
            final(store).ready() == old(store).ready(),
            outcome is Err ==> final(store).rows() == old(store).rows(),
            outcome is Err ==> final(store).last_issued() == old(store).last_issued(),
            match request_members(slice_text(content_type), body@) {
                Err((status_code, message)) => outcome matches Err(response) && response.says(
                    status_code,
                    message,
                ),
                Ok(members) => if rule_errors(members).len() > 0 {
                    outcome matches Err(response) && response.says(
                        UNPROCESSABLE_ENTITY,
                        errors_text(rule_errors(members)),
                    )
                } else {
                    match outcome {
                        Ok(response) => {
                            &&& !has_match(old(store).rows(), validated_criteria(members))
                            &&& exists|id: i64|
                                {
                                    &&& !old(store).rows().contains_key(id)
                                    &&& id > old(store).last_issued()
                                    &&& final(store).last_issued() == id
                                    &&& final(store).rows() == #[trigger] old(store).rows().insert(
                                        id,
                                        validated_row(members),
                                    )
                                    &&& response.says(
                                        CREATED,
                                        created_text(id, validated_row(members).request_url),
                                    )
                                }
                        },
                        Err(response) => {
                            if has_match(old(store).rows(), validated_criteria(members)) {
                                ||| response.says(
                                    UNPROCESSABLE_ENTITY,
                                    StoreError::Duplicate.message_text(),
                                )
                                ||| response.reports(INTERNAL_SERVER_ERROR)
                            } else {
                                response.reports(INTERNAL_SERVER_ERROR)
                            }
                        },
                    }
                },
            },
            request_members(slice_text(content_type), body@) matches Ok(members) && rule_errors(
                members,
            ).len() == 0 && has_match(old(store).rows(), validated_criteria(members))
                ==> outcome is Err,
    {
        let parsed_body = match Self::read_rule_request(content_type, body) {
            Ok(payload) => payload,
            Err(response) => { return Err(response); },
        };
        let mut new_rule = match Self::create_mocking_rule_from_json(&parsed_body) {
            Ok(rule) => rule,
            Err(error) => {
                return Err(HTTPResponse::message(UNPROCESSABLE_ENTITY, error.as_str()));
            },
        };
        let ghost members = parsed_body@;
        assert(new_rule.criteria() == validated_criteria(members));
        let created = new_rule.create(store);
        proof {
            if created is Ok {
                let id = new_rule.id->Some_0;
                assert(store.rows() == old(store).rows().insert(id, validated_row(members)));
            }
        }
        creation_response(created, &new_rule)
    }

    /// Handles a request that attempts to delete an existing mocking rule.
    ///
    /// The payload names the requests by the same four members as a rule
    /// does. The rule that answers exactly those requests is deleted; where
    /// there is none, nothing is.
    pub fn delete(store: &mut RuleStore, content_type: Option<&str>, body: Vec<u8>) -> (outcome:
        Result<HTTPResponse, HTTPResponse>)
        requires
            old(store).wf(),
        ensures
            final(store).wf(),
            final(store).ready() == old(store).ready(),
            final(store).last_issued() == old(store).last_issued(),
            outcome is Err ==> final(store).rows() == old(store).rows(),
            match request_members(slice_text(content_type), body@) {
                Err((status_code, message)) => outcome matches Err(response) && response.says(
                    status_code,
                    message,
                ),
                Ok(members) => if request_errors(members).len() > 0 {
                    outcome matches Err(response) && match messages_json(request_errors(members)) {
                        Some(text) => response.says(UNPROCESSABLE_ENTITY, text),
                        None => response.says(
                            INTERNAL_SERVER_ERROR,
                            json_message_text(ERRORS_NOT_SERIALIZED@),
                        ),
                    }
                } else {
                    match outcome {
                        Ok(response) => {
                            &&& response.says(OK, RULE_DELETED@)
                            &&& exists|id: i64|
                                {
                                    &&& first_match(
                                        old(store).rows(),
                                        validated_criteria(members),
                                        id,
                                    )
                                    &&& final(store).rows() == #[trigger] old(store).rows().remove(
                                        id,
                                    )
                                }
                        },
                        Err(response) => {
                            if has_match(old(store).rows(), validated_criteria(members)) {
                                response.reports(INTERNAL_SERVER_ERROR)
                            } else {
                                ||| response.says(NOT_FOUND, RULE_NOT_FOUND@)
                                ||| response.reports(INTERNAL_SERVER_ERROR)
                            }
                        },
                    }
                },
            },
            request_members(slice_text(content_type), body@) matches Ok(members) && request_errors(
                members,
            ).len() == 0 && !has_match(old(store).rows(), validated_criteria(members))
                ==> outcome is Err,
    {
        let parsed_body = match Self::read_rule_request(content_type, body) {
            Ok(payload) => payload,
            Err(response) => { return Err(response); },
        };
        let ghost members = parsed_body@;
        let mut error_messages: Vec<String> = Vec::new();
        assert(texts_of(error_messages@) =~= Seq::<Seq<char>>::empty());
        let request_url = Self::get_json_request_url(&parsed_body, &mut error_messages);
        let request_query = Self::get_json_request_query(&parsed_body, &mut error_messages);
        let request_method = Self::get_json_request_method(&parsed_body, &mut error_messages);
        let request_data = Self::get_json_request_data(&parsed_body, &mut error_messages);
        assert(texts_of(error_messages@) =~= request_errors(members));
        if error_messages.len() > 0 {
            return Err(
                match write_messages(&error_messages) {
                    Some(text) => HTTPResponse::message(UNPROCESSABLE_ENTITY, text.as_str()),
                    None => HTTPResponse::message(
                        INTERNAL_SERVER_ERROR,
                        json_message(ERRORS_NOT_SERIALIZED).as_str(),
                    ),
                },
            );
        }
        let ghost wanted = validated_criteria(members);
        let found_rules = match MockingRule::find(
            store,
            &request_url,
            &request_query,
            &request_method,
            &request_data,
        ) {
            Ok(found) => found,
            Err(error) => {
                return Err(HTTPResponse::message(INTERNAL_SERVER_ERROR, error.message().as_str()));
            },
        };
        let ghost found = found_rules@;
        let mut rule = match first_found(found_rules) {
            Ok(rule) => rule,
            Err(response) => { return Err(response); },
        };
        proof {
            lemma_first_found_is_first_match(found, store.rows(), wanted);
        }
        deletion_response(rule.delete(store))
    }

    /// Decides what becomes of a request that is no management request: the
    /// answer of the rule that matches it, or forwarding.
    ///
    /// Rules are looked up only for the interceptable methods, by the
    /// request's uri as it was written, its query and method, and by its
    /// body without the whitespace around it. Where several rules match, the first that the
    /// store hands out answers. The store stays as it is.
    pub fn default(
        store: &RuleStore,
        settings: &Settings,
        method: &str,
        uri: &str,
        query: Option<&str>,
        body: Vec<u8>,
    ) -> (outcome: Result<Dispatch, HTTPResponse>)
        ensures
            match body_text(body@) {
                Err(message) => outcome matches Err(response) && response.says(
                    UNPROCESSABLE_ENTITY,
                    message,
                ),
                Ok(text) => match method_of_token(method@) {
                    None => outcome matches Ok(Dispatch::Forward(forward)) && forwards(
                        forward,
                        *settings,
                        text,
                    ),
                    Some(interceptable) => {
                        let wanted = Criteria {
                            url: Some(uri@),
                            query: slice_text(query),
                            method: Some(interceptable),
                            data: body_criterion(text),
                        };
                        match outcome {
                            Err(response) => response.reports(INTERNAL_SERVER_ERROR),
                            Ok(Dispatch::Forward(forward)) => !has_match(store.rows(), wanted)
                                && forwards(forward, *settings, text),
                            Ok(Dispatch::Mocked(response)) => exists|id: i64|
                                {
                                    &&& #[trigger] first_match(store.rows(), wanted, id)
                                    &&& mocks(response, store.rows()[id])
                                },
                            Ok(Dispatch::Corrupted(code)) => exists|id: i64|
                                {
                                    &&& #[trigger] first_match(store.rows(), wanted, id)
                                    &&& store.rows()[id].response_status_code == code
                                    &&& !valid_status_code(code)
                                },
                        }
                    },
                },
            },
    {
        let request_body = match parse_http_body_to_string(body) {
            Ok(text) => text,
            Err(error) => {
                return Err(HTTPResponse::message(UNPROCESSABLE_ENTITY, error.as_str()));
            },
        };
        if let Some(interceptable) = Method::from_token(method) {
            let trimmed_body = trim(request_body.as_str());
            proof {
                reveal_strlit("");
                assert(trimmed_body@.len() == 0 ==> trimmed_body@ =~= ""@);
            }
            let request_data = if same_text(trimmed_body.as_str(), "") {
                None
            } else {
                Some(trimmed_body)
            };
            let request_url = Some(String::from_str(uri));
            let request_query = match query {
                Some(query) => Some(String::from_str(query)),
                None => None,
            };
            let found = match MockingRule::find(
                store,
                &request_url,
                &request_query,
                &Some(interceptable),
                &request_data,
            ) {
                Ok(found) => found,
                Err(error) => {
                    return Err(
                        HTTPResponse::message(INTERNAL_SERVER_ERROR, error.message().as_str()),
                    );
                },
            };
            proof {
                lemma_first_found_is_first_match(
                    found@,
                    store.rows(),
                    criteria_of(request_url, request_query, Some(interceptable), request_data),
                );
            }
            return Ok(answer(found, settings, request_body));
        }
        Ok(Dispatch::Forward(forward(settings, request_body)))
    }
}

} // verus!

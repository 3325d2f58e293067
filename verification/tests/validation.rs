use rockery::json::{JsonField, Payload};
use rockery::method::Method;
use rockery::utils::parse_http_body_to_json;
use rockery::views::RuleView;

fn payload(text: &str) -> Payload {
    parse_http_body_to_json(text.as_bytes().to_vec()).unwrap()
}

fn errors_of(text: &str) -> String {
    RuleView::create_mocking_rule_from_json(&payload(text)).unwrap_err()
}

#[test]
fn a_complete_payload_becomes_a_rule() {
    let rule = RuleView::create_mocking_rule_from_json(&payload(
        r#"{
            "_rockery_request_url": "/ping",
            "_rockery_request_query": "a=1&b=2",
            "_rockery_request_method": "post",
            "_rockery_request_data": {"name": "x", "list": [1, 2]},
            "_rockery_response_status_code": 201,
            "_rockery_response_data": {"ok": true}
        }"#,
    )).unwrap();
    assert_eq!(rule.id, None);
    assert_eq!(rule.request_method, Method::Post);
    assert_eq!(rule.request_url, "/ping");
    assert_eq!(rule.request_query.as_deref(), Some("a=1&b=2"));
    assert_eq!(rule.request_data.as_deref(), Some("{\"list\":[1,2],\"name\":\"x\"}"));
    assert_eq!(rule.response_status_code, 201);
    assert_eq!(rule.response_data.as_deref(), Some("{\"ok\":true}"));
}

#[test]
fn query_and_request_data_may_be_absent() {
    let rule = RuleView::create_mocking_rule_from_json(&payload(
        r#"{"_rockery_request_url": "", "_rockery_request_method": "GET",
            "_rockery_response_status_code": 599, "_rockery_response_data": "plain"}"#,
    )).unwrap();
    assert_eq!(rule.request_url, "");
    assert_eq!(rule.request_query, None);
    assert_eq!(rule.request_data, None);
    assert_eq!(rule.response_status_code, 599);
    assert_eq!(rule.response_data.as_deref(), Some("\"plain\""));
}

#[test]
fn a_payload_written_by_hand_is_read_the_same() {
    let text = |t: &str| JsonField {
        text: Some(t.to_string()),
        integer: None,
        serialized: Some(format!("\"{}\"", t)),
    };
    let hand = Payload {
        members: vec![
            ("_rockery_request_url".to_string(), text("/x")),
            ("_rockery_request_method".to_string(), text("Patch")),
            (
                "_rockery_response_status_code".to_string(),
                JsonField { text: None, integer: Some(100), serialized: Some("100".to_string()) },
            ),
            (
                "_rockery_response_data".to_string(),
                JsonField { text: None, integer: None, serialized: Some("null".to_string()) },
            ),
        ],
    };
    let rule = RuleView::create_mocking_rule_from_json(&hand).unwrap();
    assert_eq!(rule.request_method, Method::Patch);
    assert_eq!(rule.request_url, "/x");
    assert_eq!(rule.response_status_code, 100);
    assert_eq!(rule.response_data.as_deref(), Some("null"));
}

#[test]
fn the_first_of_two_members_with_one_name_counts() {
    let field = |t: &str| JsonField { text: Some(t.to_string()), integer: None, serialized: None };
    let hand = Payload {
        members: vec![
            ("_rockery_request_url".to_string(), field("/first")),
            ("_rockery_request_url".to_string(), field("/second")),
        ],
    };
    let mut errors = Vec::new();
    assert_eq!(RuleView::get_json_request_url(&hand, &mut errors).as_deref(), Some("/first"));
    assert!(errors.is_empty());
}

#[test]
fn missing_method_and_status_code_are_both_reported() {
    assert_eq!(
        errors_of(r#"{"_rockery_request_url": "/x", "_rockery_response_data": {"ok": true}}"#),
        "[\"Field _rockery_request_method is missing\",\"Field _rockery_response_status_code is required\"]"
    );
}

#[test]
fn an_empty_payload_gets_every_required_error() {
    let expected = "[\"Field _rockery_request_url is required\",\"Field _rockery_request_method is missing\",\"Field _rockery_response_status_code is required\",\"Field _rockery_response_data is required\"]";
    assert_eq!(errors_of("{}"), expected);
    assert_eq!(errors_of("[]"), expected);
    assert_eq!(errors_of("null"), expected);
}

#[test]
fn wrong_types_are_reported_in_field_order() {
    assert_eq!(
        errors_of(
            r#"{"_rockery_request_url": 1, "_rockery_request_query": ["a"],
                "_rockery_request_method": {"m": "GET"}, "_rockery_request_data": 5,
                "_rockery_response_status_code": "200", "_rockery_response_data": 0}"#
        ),
        "[\"_rockery_request_url must be a string\",\"_rockery_request_query must be a string\",\"_rockery_request_method must be a string\",\"{\\\"msg\\\": \\\"_rockery_response_status_code must be an integer\\\" }\\r\\n\"]"
    );
}

#[test]
fn a_method_outside_the_allow_list_is_refused() {
    for method in ["OPTIONS", "trace", "connect", "FETCH", "", "G E T", "GET,POST"] {
        let text = format!(
            r#"{{"_rockery_request_url": "/x", "_rockery_request_method": "{}",
                "_rockery_response_status_code": 200, "_rockery_response_data": 1}}"#,
            method
        );
        assert_eq!(
            errors_of(&text),
            "[\"_rockery_request_method must be one of following: GET, HEAD, POST, PUT, DELETE, PATCH\"]"
        );
    }
}

#[test]
fn a_status_code_outside_100_to_599_is_refused() {
    for code in ["99", "600", "999", "0", "-200", "65736", "9223372036854775807"] {
        let text = format!(
            r#"{{"_rockery_request_url": "/x", "_rockery_request_method": "GET",
                "_rockery_response_status_code": {}, "_rockery_response_data": 1}}"#,
            code
        );
        assert_eq!(
            errors_of(&text),
            "[\"{\\\"msg\\\": \\\"Provided _rockery_response_status_code status code os not valid http status code\\\" }\\r\\n\"]"
        );
    }
}

#[test]
fn a_status_code_that_is_no_integer_is_refused() {
    for code in ["200.0", "2e2", "18446744073709551615", "null", "true", "[200]"] {
        let text = format!(
            r#"{{"_rockery_request_url": "/x", "_rockery_request_method": "GET",
                "_rockery_response_status_code": {}, "_rockery_response_data": 1}}"#,
            code
        );
        assert_eq!(
            errors_of(&text),
            "[\"{\\\"msg\\\": \\\"_rockery_response_status_code must be an integer\\\" }\\r\\n\"]"
        );
    }
}

#[test]
fn members_that_cannot_be_written_out_are_refused() {
    let unwritable = || JsonField { text: None, integer: None, serialized: None };
    let hand = Payload {
        members: vec![
            ("_rockery_request_data".to_string(), unwritable()),
            ("_rockery_response_data".to_string(), unwritable()),
        ],
    };
    let mut errors = Vec::new();
    assert_eq!(RuleView::get_json_request_data(&hand, &mut errors), None);
    assert_eq!(RuleView::get_json_response_data(&hand, &mut errors), None);
    assert_eq!(
        errors,
        vec![
            "_rockery_request_data must be of JSON format in order to be serialized properly",
            "_rockery_response_data must be of JSON format in order to be serialized properly",
        ]
    );
}

#[test]
fn getters_add_to_the_errors_that_are_there() {
    let empty = payload("{}");
    let mut errors = vec!["earlier".to_string()];
    assert_eq!(RuleView::get_json_request_url(&empty, &mut errors), None);
    assert_eq!(RuleView::get_json_request_query(&empty, &mut errors), None);
    assert_eq!(RuleView::get_json_request_method(&empty, &mut errors), None);
    assert_eq!(RuleView::get_json_request_data(&empty, &mut errors), None);
    assert_eq!(RuleView::get_json_response_status_code(&empty, &mut errors), None);
    assert_eq!(RuleView::get_json_response_data(&empty, &mut errors), None);
    assert_eq!(
        errors,
        vec![
            "earlier",
            "Field _rockery_request_url is required",
            "Field _rockery_request_method is missing",
            "Field _rockery_response_status_code is required",
            "Field _rockery_response_data is required",
        ]
    );
}

#[test]
fn errors_are_reported_as_a_json_array() {
    assert_eq!(RuleView::report_errors(&Vec::new()), "[]");
    assert_eq!(
        RuleView::report_errors(&vec!["a \"b\"".to_string(), "c\n".to_string()]),
        "[\"a \\\"b\\\"\",\"c\\n\"]"
    );
}

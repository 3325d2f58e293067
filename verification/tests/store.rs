use rockery::db::{
    count_outcome, delete_outcome, duplicate_refusal, initialize_db, insert_outcome,
    matching_rules, MockingRule, StoreError,
};
use rockery::engine::{RuleStore, StoredRule};
use rockery::method::Method;

fn ready_store() -> RuleStore {
    let mut store = RuleStore::open().unwrap();
    initialize_db(&mut store).unwrap();
    store
}

fn rule(method: Method, url: &str, query: Option<&str>, data: Option<&str>) -> MockingRule {
    MockingRule {
        id: None,
        request_method: method,
        request_url: url.to_string(),
        request_query: query.map(|q| q.to_string()),
        request_data: data.map(|d| d.to_string()),
        response_status_code: 200,
        response_data: Some("{\"ok\":true}".to_string()),
    }
}

fn find(
    store: &RuleStore,
    method: Option<Method>,
    url: Option<&str>,
    query: Option<&str>,
    data: Option<&str>,
) -> Vec<MockingRule> {
    MockingRule::find(
        store,
        &url.map(|u| u.to_string()),
        &query.map(|q| q.to_string()),
        &method,
        &data.map(|d| d.to_string()),
    ).unwrap()
}

#[test]
fn a_new_store_is_empty() {
    let store = ready_store();
    assert_eq!(MockingRule::count_all(&store).unwrap(), 0);
    assert!(find(&store, Some(Method::Get), Some("/"), None, None).is_empty());
}

#[test]
fn initializing_twice_keeps_the_rules() {
    let mut store = ready_store();
    rule(Method::Get, "/a", None, None).create(&mut store).unwrap();
    initialize_db(&mut store).unwrap();
    MockingRule::create_db_table(&mut store).unwrap();
    assert_eq!(MockingRule::count_all(&store).unwrap(), 1);
    assert_eq!(find(&store, Some(Method::Get), Some("/a"), None, None).len(), 1);
}

#[test]
fn the_engine_fails_without_the_table() {
    let mut store = RuleStore::open().unwrap();
    assert!(matches!(MockingRule::count_all(&store), Err(StoreError::Engine(_))));
    assert!(matches!(
        MockingRule::find(&store, &Some("/".to_string()), &None, &Some(Method::Get), &None),
        Err(StoreError::Engine(_))
    ));
    let mut new_rule = rule(Method::Get, "/", None, None);
    assert!(matches!(new_rule.create(&mut store), Err(StoreError::Engine(_))));
    assert_eq!(new_rule.id, None);
    let mut stale = rule(Method::Get, "/", None, None);
    stale.id = Some(1);
    assert!(matches!(stale.delete(&mut store), Err(StoreError::Engine(_))));
}

#[test]
fn create_assigns_an_identifier_and_stores_the_rule() {
    let mut store = ready_store();
    let mut new_rule = rule(Method::Post, "/items", Some("a=1"), Some("{\"x\":1}"));
    new_rule.response_status_code = 418;
    new_rule.response_data = None;
    assert!(new_rule.create(&mut store).is_ok());
    let id = new_rule.id.unwrap();
    assert_eq!(MockingRule::count_all(&store).unwrap(), 1);
    let found = find(&store, Some(Method::Post), Some("/items"), Some("a=1"), Some("{\"x\":1}"));
    assert_eq!(found.len(), 1);
    assert_eq!(found[0].id, Some(id));
    assert_eq!(found[0].request_method, Method::Post);
    assert_eq!(found[0].request_url, "/items");
    assert_eq!(found[0].request_query.as_deref(), Some("a=1"));
    assert_eq!(found[0].request_data.as_deref(), Some("{\"x\":1}"));
    assert_eq!(found[0].response_status_code, 418);
    assert_eq!(found[0].response_data, None);
}

#[test]
fn create_refuses_a_rule_that_has_an_identifier() {
    let mut store = ready_store();
    let mut new_rule = rule(Method::Get, "/a", None, None);
    new_rule.create(&mut store).unwrap();
    let id = new_rule.id;
    assert!(matches!(new_rule.create(&mut store), Err(StoreError::AlreadyPersisted)));
    assert_eq!(new_rule.id, id);
    assert_eq!(MockingRule::count_all(&store).unwrap(), 1);
}

#[test]
fn create_refuses_duplicates_whatever_is_absent() {
    let combinations = [
        (None, None),
        (Some("q=1"), None),
        (None, Some("{}")),
        (Some("q=1"), Some("{}")),
    ];
    for (query, data) in combinations {
        let mut store = ready_store();
        let mut first = rule(Method::Put, "/same", query, data);
        assert!(first.create(&mut store).is_ok());
        let mut second = rule(Method::Put, "/same", query, data);
        second.response_status_code = 500;
        second.response_data = Some("other".to_string());
        assert!(matches!(second.create(&mut store), Err(StoreError::Duplicate)));
        assert_eq!(second.id, None);
        assert_eq!(MockingRule::count_all(&store).unwrap(), 1);
    }
}

#[test]
fn rules_that_differ_in_one_part_are_no_duplicates() {
    let mut store = ready_store();
    rule(Method::Get, "/a", None, None).create(&mut store).unwrap();
    rule(Method::Head, "/a", None, None).create(&mut store).unwrap();
    rule(Method::Get, "/b", None, None).create(&mut store).unwrap();
    rule(Method::Get, "/a", Some("q"), None).create(&mut store).unwrap();
    rule(Method::Get, "/a", None, Some("d")).create(&mut store).unwrap();
    rule(Method::Get, "/a", Some(""), None).create(&mut store).unwrap();
    assert_eq!(MockingRule::count_all(&store).unwrap(), 6);
}

#[test]
fn an_absent_part_matches_only_an_absent_part() {
    let mut store = ready_store();
    rule(Method::Get, "/a", None, None).create(&mut store).unwrap();
    assert_eq!(find(&store, Some(Method::Get), Some("/a"), None, None).len(), 1);
    assert!(find(&store, Some(Method::Get), Some("/a"), Some("x=1"), None).is_empty());
    assert!(find(&store, Some(Method::Get), Some("/a"), Some(""), None).is_empty());
    assert!(find(&store, Some(Method::Get), Some("/a"), None, Some("body")).is_empty());
    assert!(find(&store, None, Some("/a"), None, None).is_empty());
    assert!(find(&store, Some(Method::Get), None, None, None).is_empty());
}

#[test]
fn a_present_part_is_not_matched_by_an_absent_one() {
    let mut store = ready_store();
    rule(Method::Get, "/a", Some("x=1"), Some("body")).create(&mut store).unwrap();
    assert_eq!(find(&store, Some(Method::Get), Some("/a"), Some("x=1"), Some("body")).len(), 1);
    assert!(find(&store, Some(Method::Get), Some("/a"), None, Some("body")).is_empty());
    assert!(find(&store, Some(Method::Get), Some("/a"), Some("x=1"), None).is_empty());
    assert!(find(&store, Some(Method::Get), Some("/a"), Some("x=2"), Some("body")).is_empty());
    assert!(find(&store, Some(Method::Post), Some("/a"), Some("x=1"), Some("body")).is_empty());
}

#[test]
fn find_matches_exactly() {
    let mut store = ready_store();
    rule(Method::Get, "/a", None, None).create(&mut store).unwrap();
    assert!(find(&store, Some(Method::Get), Some("/A"), None, None).is_empty());
    assert!(find(&store, Some(Method::Get), Some("/a/"), None, None).is_empty());
    assert!(find(&store, Some(Method::Get), Some("/"), None, None).is_empty());
    assert!(find(&store, Some(Method::Get), Some(""), None, None).is_empty());
}

#[test]
fn delete_removes_the_rule_and_no_other() {
    let mut store = ready_store();
    let mut a = rule(Method::Get, "/a", None, None);
    let mut b = rule(Method::Get, "/b", None, None);
    a.create(&mut store).unwrap();
    b.create(&mut store).unwrap();
    assert_eq!(MockingRule::count_all(&store).unwrap(), 2);
    assert!(a.delete(&mut store).is_ok());
    assert_eq!(MockingRule::count_all(&store).unwrap(), 1);
    assert!(find(&store, Some(Method::Get), Some("/a"), None, None).is_empty());
    assert_eq!(find(&store, Some(Method::Get), Some("/b"), None, None)[0].id, b.id);
}

#[test]
fn delete_refuses_a_rule_without_identifier() {
    let mut store = ready_store();
    rule(Method::Get, "/a", None, None).create(&mut store).unwrap();
    let mut unsaved = rule(Method::Get, "/a", None, None);
    assert!(matches!(unsaved.delete(&mut store), Err(StoreError::NotPersisted)));
    assert_eq!(MockingRule::count_all(&store).unwrap(), 1);
}

#[test]
fn delete_reports_a_row_that_is_gone() {
    let mut store = ready_store();
    let mut a = rule(Method::Get, "/a", None, None);
    a.create(&mut store).unwrap();
    a.delete(&mut store).unwrap();
    assert!(matches!(a.delete(&mut store), Err(StoreError::NothingDeleted)));
    assert_eq!(MockingRule::count_all(&store).unwrap(), 0);
}

#[test]
fn a_deleted_rule_can_be_created_again_under_a_new_identifier() {
    let mut store = ready_store();
    let mut a = rule(Method::Get, "/a", None, None);
    a.create(&mut store).unwrap();
    let first = a.id.unwrap();
    a.delete(&mut store).unwrap();
    let mut again = rule(Method::Get, "/a", None, None);
    again.create(&mut store).unwrap();
    assert!(again.id.unwrap() > first);
}

#[test]
fn texts_are_stored_as_they_are() {
    let mut store = ready_store();
    let url = "/päth/'quoted'/\"x\"; DROP TABLE mocking_rules;--";
    let data = "line\nbreak\ttab ünïcödé";
    rule(Method::Patch, url, Some("q=%20&r=é"), Some(data)).create(&mut store).unwrap();
    let found = find(&store, Some(Method::Patch), Some(url), Some("q=%20&r=é"), Some(data));
    assert_eq!(found.len(), 1);
    assert_eq!(found[0].request_url, url);
    assert_eq!(found[0].request_data.as_deref(), Some(data));
    assert_eq!(MockingRule::count_all(&store).unwrap(), 1);
}

#[test]
fn the_engine_s_answers_become_outcomes() {
    assert!(matches!(insert_outcome(Ok(1)), Ok(())));
    assert!(matches!(insert_outcome(Ok(0)), Err(StoreError::NothingInserted)));
    assert!(matches!(insert_outcome(Err("x".to_string())), Err(StoreError::Engine(m)) if m == "x"));
    assert!(matches!(delete_outcome(Ok(1)), Ok(())));
    assert!(matches!(delete_outcome(Ok(0)), Err(StoreError::NothingDeleted)));
    assert!(matches!(delete_outcome(Err("y".to_string())), Err(StoreError::Engine(m)) if m == "y"));
    assert!(matches!(count_outcome(Ok(Some(3))), Ok(3)));
    assert!(matches!(count_outcome(Ok(None)), Err(StoreError::NoCount)));
    assert!(matches!(count_outcome(Err("z".to_string())), Err(StoreError::Engine(m)) if m == "z"));
}

#[test]
fn errors_have_their_messages() {
    assert_eq!(
        StoreError::AlreadyPersisted.message(),
        "MockingRule already exists. Cannot create records with already existing ID"
    );
    assert_eq!(StoreError::Duplicate.message(), "Rule on this endpoint already exists!");
    assert_eq!(
        StoreError::NotPersisted.message(),
        "Cannot delete MockingRule which does not exist in database."
    );
    assert_eq!(StoreError::NothingInserted.message(), "Database failed to perform insert");
    assert_eq!(StoreError::NothingDeleted.message(), "Database failed to perform delete");
    assert_eq!(StoreError::NoCount.message(), "Database Count statement returned no result");
    assert_eq!(StoreError::Engine("boom".to_string()).message(), "boom");
}

fn stored(id: i64, method: &str, url: &str, query: Option<&str>, data: Option<&str>) -> StoredRule {
    StoredRule {
        id,
        request_method: method.to_string(),
        request_url: url.to_string(),
        request_query: query.map(|q| q.to_string()),
        request_data: data.map(|d| d.to_string()),
        response_status_code: 200 + id,
        response_data: Some(format!("r{}", id)),
    }
}

fn pick(
    listed: &Vec<StoredRule>,
    method: Option<Method>,
    url: Option<&str>,
    query: Option<&str>,
    data: Option<&str>,
) -> Vec<i64> {
    matching_rules(
        listed,
        &url.map(|u| u.to_string()),
        &query.map(|q| q.to_string()),
        &method,
        &data.map(|d| d.to_string()),
    ).iter().map(|rule| rule.id.unwrap()).collect()
}

#[test]
fn matching_rows_are_picked_in_their_order() {
    let listed = vec![
        stored(5, "GET", "/a", None, None),
        stored(2, "GET", "/b", None, None),
        stored(9, "GET", "/a", None, None),
        stored(1, "POST", "/a", None, None),
        stored(4, "GET", "/a", Some("q"), None),
        stored(3, "GET", "/a", None, Some("d")),
        stored(7, "GET", "/a", None, None),
    ];
    assert_eq!(pick(&listed, Some(Method::Get), Some("/a"), None, None), vec![5, 9, 7]);
    assert_eq!(pick(&listed, Some(Method::Get), Some("/a"), Some("q"), None), vec![4]);
    assert_eq!(pick(&listed, Some(Method::Get), Some("/a"), None, Some("d")), vec![3]);
    assert_eq!(pick(&listed, Some(Method::Post), Some("/a"), None, None), vec![1]);
    assert_eq!(pick(&listed, Some(Method::Get), Some("/b"), None, None), vec![2]);
    assert_eq!(pick(&listed, Some(Method::Get), Some("/a"), Some("q"), Some("d")), Vec::<i64>::new());
    assert_eq!(pick(&listed, None, Some("/a"), None, None), Vec::<i64>::new());
    assert_eq!(pick(&listed, Some(Method::Get), None, None, None), Vec::<i64>::new());
    assert_eq!(pick(&Vec::new(), Some(Method::Get), Some("/a"), None, None), Vec::<i64>::new());
}

#[test]
fn a_picked_rule_is_the_row_it_was_made_of() {
    let listed = vec![stored(6, "DELETE", "/x", Some("a=b"), Some("{}"))];
    let rules = matching_rules(
        &listed,
        &Some("/x".to_string()),
        &Some("a=b".to_string()),
        &Some(Method::Delete),
        &Some("{}".to_string()),
    );
    assert_eq!(rules.len(), 1);
    assert_eq!(rules[0].id, Some(6));
    assert_eq!(rules[0].request_method, Method::Delete);
    assert_eq!(rules[0].request_url, "/x");
    assert_eq!(rules[0].request_query.as_deref(), Some("a=b"));
    assert_eq!(rules[0].request_data.as_deref(), Some("{}"));
    assert_eq!(rules[0].response_status_code, 206);
    assert_eq!(rules[0].response_data.as_deref(), Some("r6"));
}

#[test]
fn a_row_with_another_method_text_is_never_picked() {
    let listed = vec![stored(1, "get", "/a", None, None), stored(2, "OPTIONS", "/a", None, None)];
    for method in [Method::Get, Method::Head, Method::Post, Method::Put, Method::Delete, Method::Patch] {
        assert!(pick(&listed, Some(method), Some("/a"), None, None).is_empty());
    }
}

#[test]
fn a_rule_that_was_found_stands_in_the_way_of_a_new_one() {
    assert!(matches!(duplicate_refusal(&Vec::new()), Ok(())));
    let found = vec![rule(Method::Get, "/a", None, None)];
    assert!(matches!(duplicate_refusal(&found), Err(StoreError::Duplicate)));
    let found = vec![rule(Method::Get, "/a", None, None), rule(Method::Get, "/a", None, None)];
    assert!(matches!(duplicate_refusal(&found), Err(StoreError::Duplicate)));
}

#[test]
fn identifiers_grow_with_every_rule() {
    let mut store = ready_store();
    let mut ids = Vec::new();
    for url in ["/c", "/a", "/b", "/d"] {
        let mut new_rule = rule(Method::Get, url, None, None);
        new_rule.create(&mut store).unwrap();
        ids.push(new_rule.id.unwrap());
    }
    assert!(ids.windows(2).all(|pair| pair[0] < pair[1]));
    let mut second = rule(Method::Get, "/a", None, None);
    second.id = Some(ids[1]);
    second.delete(&mut store).unwrap();
    let mut again = rule(Method::Get, "/a", None, None);
    again.create(&mut store).unwrap();
    assert!(again.id.unwrap() > ids[3]);
    assert_eq!(MockingRule::count_all(&store).unwrap(), 4);
}

//! Mocking rules and their store: rules are found again by exact match on
//! method, url, query and body, and no two rules answer the same requests.

use vstd::prelude::*;
use vstd::string::*;
use crate::engine::{lists, no_rows, RuleRow, RuleStore, StoredRule};
use crate::method::{lemma_method_names, method_name, Method};
use crate::text::{clone_text, decimal, integer_text, same_optional_text, same_text, text_of};

verus! {

/// What a lookup asks for. An absent part asks for rows in which that part
/// is absent too; it does not stand for "any".
pub ghost struct Criteria {
    pub url: Option<Seq<char>>,
    pub query: Option<Seq<char>>,
    pub method: Option<Method>,
    pub data: Option<Seq<char>>,
}

/// Whether a row is what a lookup asks for: each of the four parts is equal,
/// or absent on both sides. Url and method are never absent in a row.
pub open spec fn row_matches(row: RuleRow, wanted: Criteria) -> bool {
    &&& wanted.url == Some(row.request_url)
    &&& wanted.query == row.request_query
    &&& wanted.method matches Some(method) && method_name(method) == row.request_method
    &&& wanted.data == row.request_data
}

/// Whether the table holds a row that a lookup asks for.
pub open spec fn has_match(rows: Map<i64, RuleRow>, wanted: Criteria) -> bool {
    exists|id: i64| rows.contains_key(id) && row_matches(#[trigger] rows[id], wanted)
}

/// Whether two rows answer the same requests.
pub open spec fn same_request(a: RuleRow, b: RuleRow) -> bool {
    &&& a.request_method == b.request_method
    &&& a.request_url == b.request_url
    &&& a.request_query == b.request_query
    &&& a.request_data == b.request_data
}

/// The table's invariant: finitely many rows, and no two that answer the
/// same requests.
pub open spec fn rows_wf(rows: Map<i64, RuleRow>) -> bool {
    &&& rows.dom().finite()
    &&& forall|a: i64, b: i64|
        rows.contains_key(a) && rows.contains_key(b) && a != b ==> !same_request(
            #[trigger] rows[a],
            #[trigger] rows[b],
        )
}

/// Why the store refused or failed.
#[derive(Debug)]
pub enum StoreError {
    /// The rule to create carries an identifier already.
    AlreadyPersisted,
    /// A rule for the same method, url, query and body exists.
    Duplicate,
    /// The rule to delete carries no identifier.
    NotPersisted,
    /// The insert went through but changed no row.
    NothingInserted,
    /// The delete went through but changed no row.
    NothingDeleted,
    /// The count statement gave no row.
    NoCount,
    /// The engine failed; its own message.
    Engine(String),
}

/// A mocking rule: the request it answers and the response it gives.
#[derive(Debug)]
pub struct MockingRule {
    pub id: Option<i64>,
    pub request_method: Method,
    pub request_url: String,
    pub request_query: Option<String>,
    pub request_data: Option<String>,
    pub response_status_code: i64,
    pub response_data: Option<String>,
}

/// Whether the row under `id` is the first that a lookup asks for: it
/// matches, and no row with a smaller identifier does.
pub open spec fn first_match(rows: Map<i64, RuleRow>, wanted: Criteria, id: i64) -> bool {
    &&& rows.contains_key(id)
    &&& row_matches(rows[id], wanted)
    &&& forall|other: i64|
        rows.contains_key(other) && row_matches(#[trigger] rows[other], wanted) ==> id <= other
}

/// Whether `found` holds exactly the rows that a lookup asks for, each once,
/// the smaller identifier first.
pub open spec fn finds(found: Seq<MockingRule>, rows: Map<i64, RuleRow>, wanted: Criteria) -> bool {
    &&& forall|i: int|
        0 <= i < found.len() ==> {
            &&& (#[trigger] found[i]).id matches Some(id)
            &&& rows.contains_key(id)
            &&& rows[id] == found[i].row()
            &&& row_matches(rows[id], wanted)
        }
    &&& forall|i: int, j: int|
        0 <= i < j < found.len() ==> (#[trigger] found[i]).id->Some_0 < (
        #[trigger] found[j]).id->Some_0
    &&& forall|id: i64|
        rows.contains_key(id) && row_matches(#[trigger] rows[id], wanted) ==> exists|i: int|
            0 <= i < found.len() && (#[trigger] found[i]).id == Some(id)
}

/// What a lookup with these four arguments asks for.
pub open spec fn criteria_of(
    url: Option<String>,
    query: Option<String>,
    method: Option<Method>,
    data: Option<String>,
) -> Criteria {
    Criteria { url: text_of(url), query: text_of(query), method, data: text_of(data) }
}

/// Whether a row as the engine handed it out is what a lookup asks for.
fn stored_matches(
    stored: &StoredRule,
    url: &Option<String>,
    query: &Option<String>,
    method: &Option<Method>,
    data: &Option<String>,
) -> (matches: bool)
    ensures
        matches == row_matches(stored.row(), criteria_of(*url, *query, *method, *data)),
{
    let url_matches = match url {
        Some(u) => same_text(u.as_str(), stored.request_url.as_str()),
        None => false,
    };
    let method_matches = match method {
        Some(m) => same_text(m.as_str(), stored.request_method.as_str()),
        None => false,
    };
    url_matches && same_optional_text(query, &stored.request_query) && method_matches
        && same_optional_text(data, &stored.request_data)
}

/// The rows among `listed` that a lookup asks for, in their order.
pub open spec fn matching(listed: Seq<StoredRule>, wanted: Criteria) -> Seq<StoredRule>
    decreases listed.len(),
{
    if listed.len() == 0 {
        Seq::empty()
    } else {
        let earlier = matching(listed.drop_last(), wanted);
        if row_matches(listed.last().row(), wanted) {
            earlier.push(listed.last())
        } else {
            earlier
        }
    }
}

/// Whether a rule is a stored row: it has the row's identifier and content.
pub open spec fn is_rule_of(rule: MockingRule, stored: StoredRule) -> bool {
    rule.id == Some(stored.id) && rule.row() == stored.row()
}

/// Whether `rules` are the rows of `stored`, one for one and in their order.
pub open spec fn are_rules_of(rules: Seq<MockingRule>, stored: Seq<StoredRule>) -> bool {
    &&& rules.len() == stored.len()
    &&& forall|k: int| 0 <= k < rules.len() ==> is_rule_of(#[trigger] rules[k], stored[k])
}

/// Picks from the rows that the engine handed out those that a lookup asks
/// for, and makes rules of them. They keep their order.
pub fn matching_rules(
    listed: &Vec<StoredRule>,
    request_url: &Option<String>,
    request_query: &Option<String>,
    request_method: &Option<Method>,
    request_data: &Option<String>,
) -> (found: Vec<MockingRule>)
    ensures
        are_rules_of(
            found@,
            matching(
                listed@,
                criteria_of(*request_url, *request_query, *request_method, *request_data),
            ),
        ),
{
    let ghost wanted = criteria_of(*request_url, *request_query, *request_method, *request_data);
    let mut found: Vec<MockingRule> = Vec::new();
    let mut i: usize = 0;
    assert(listed@.take(0) == Seq::<StoredRule>::empty());
    while i < listed.len()
        invariant
            i <= listed@.len(),
            wanted == criteria_of(*request_url, *request_query, *request_method, *request_data),
            are_rules_of(found@, matching(listed@.take(i as int), wanted)),
        decreases listed@.len() - i,
    {
        let stored = &listed[i];
        proof {
            let longer = listed@.take(i + 1);
            assert(longer.drop_last() == listed@.take(i as int));
            assert(longer.last() == listed@[i as int]);
        }
        if stored_matches(stored, request_url, request_query, request_method, request_data) {
            if let Some(method) = request_method {
                found.push(
                    MockingRule {
                        id: Some(stored.id),
                        request_method: *method,
                        request_url: stored.request_url.clone(),
                        request_query: clone_text(&stored.request_query),
                        request_data: clone_text(&stored.request_data),
                        response_status_code: stored.response_status_code,
                        response_data: clone_text(&stored.response_data),
                    },
                );
            }
        }
        i += 1;
    }
    assert(listed@.take(listed@.len() as int) == listed@);
    found
}

/// The places in `listed` of the rows that a lookup asks for, in order.
pub open spec fn matching_places(listed: Seq<StoredRule>, wanted: Criteria) -> Seq<int>
    decreases listed.len(),
{
    if listed.len() == 0 {
        Seq::empty()
    } else {
        let earlier = matching_places(listed.drop_last(), wanted);
        if row_matches(listed.last().row(), wanted) {
            earlier.push(listed.len() - 1)
        } else {
            earlier
        }
    }
}

/// Whether `places` are places of `listed`, each later than the one before,
/// at which exactly the rows stand that a lookup asks for.
pub open spec fn places_of_matches(places: Seq<int>, listed: Seq<StoredRule>, wanted: Criteria) -> bool {
    &&& forall|k: int|
        0 <= k < places.len() ==> 0 <= #[trigger] places[k] < listed.len() && row_matches(
            listed[places[k]].row(),
            wanted,
        )
    &&& forall|k: int, l: int| 0 <= k < l < places.len() ==> #[trigger] places[k] < #[trigger] places[l]
    &&& forall|j: int|
        0 <= j < listed.len() && row_matches((#[trigger] listed[j]).row(), wanted)
            ==> places.contains(j)
}

/// The rows that a lookup picks from a list are the rows at the places that
/// it finds, place by place.
pub proof fn lemma_matching_places(listed: Seq<StoredRule>, wanted: Criteria)
    ensures
        matching_places(listed, wanted).len() == matching(listed, wanted).len(),
        forall|k: int|
            0 <= k < matching(listed, wanted).len() ==> #[trigger] matching(listed, wanted)[k]
                == listed[matching_places(listed, wanted)[k]],
        places_of_matches(matching_places(listed, wanted), listed, wanted),
    decreases listed.len(),
{
    if listed.len() > 0 {
        let shorter = listed.drop_last();
        let earlier = matching_places(shorter, wanted);
        let places = matching_places(listed, wanted);
        let last = listed.len() - 1;
        lemma_matching_places(shorter, wanted);
        assert forall|k: int| 0 <= k < places.len() implies 0 <= #[trigger] places[k]
            < listed.len() && row_matches(listed[places[k]].row(), wanted) by {
            if k < earlier.len() {
                assert(places[k] == earlier[k]);
                assert(shorter[earlier[k]] == listed[earlier[k]]);
            }
        }
        assert forall|k: int, l: int| 0 <= k < l < places.len() implies #[trigger] places[k]
            < #[trigger] places[l] by {
            assert(places[k] == earlier[k]);
            if l < earlier.len() {
                assert(places[l] == earlier[l]);
            }
        }
        assert forall|j: int|
            0 <= j < listed.len() && row_matches(
                (#[trigger] listed[j]).row(),
                wanted,
            ) implies places.contains(j) by {
            if j < last {
                assert(shorter[j] == listed[j]);
                let k = choose|k: int| 0 <= k < earlier.len() && earlier[k] == j;
                assert(places[k] == j);
            } else {
                assert(places[places.len() - 1] == j);
            }
        }
        assert forall|k: int| 0 <= k < matching(listed, wanted).len() implies #[trigger] matching(
            listed,
            wanted,
        )[k] == listed[places[k]] by {
            if k < earlier.len() {
                assert(matching(listed, wanted)[k] == matching(shorter, wanted)[k]);
                assert(places[k] == earlier[k]);
                assert(shorter[earlier[k]] == listed[earlier[k]]);
            }
        }
    }
}

/// Of a list that holds every row of the table once, a lookup picks exactly
/// the rows of the table that it asks for, each once.
pub proof fn lemma_matching_finds(
    listed: Seq<StoredRule>,
    rows: Map<i64, RuleRow>,
    wanted: Criteria,
    found: Seq<MockingRule>,
)
    requires
        lists(listed, rows),
        are_rules_of(found, matching(listed, wanted)),
    ensures
        finds(found, rows, wanted),
{
    let picked = matching(listed, wanted);
    let places = matching_places(listed, wanted);
    lemma_matching_places(listed, wanted);
    assert forall|i: int| 0 <= i < found.len() implies {
        &&& (#[trigger] found[i]).id matches Some(id)
        &&& rows.contains_key(id)
        &&& rows[id] == found[i].row()
        &&& row_matches(rows[id], wanted)
    } by {
        assert(is_rule_of(found[i], picked[i]));
        assert(picked[i] == listed[places[i]]);
        assert(rows.contains_key(listed[places[i]].id));
    }
    assert forall|i: int, j: int| 0 <= i < j < found.len() implies (
    #[trigger] found[i]).id->Some_0 < (#[trigger] found[j]).id->Some_0 by {
        assert(is_rule_of(found[i], picked[i]) && is_rule_of(found[j], picked[j]));
        assert(picked[i] == listed[places[i]] && picked[j] == listed[places[j]]);
        assert(places[i] < places[j]);
        assert(listed[places[i]].id < listed[places[j]].id);
    }
    assert forall|id: i64|
        rows.contains_key(id) && row_matches(#[trigger] rows[id], wanted) implies exists|i: int|
        0 <= i < found.len() && (#[trigger] found[i]).id == Some(id) by {
        let j = choose|j: int| 0 <= j < listed.len() && (#[trigger] listed[j]).id == id;
        assert(row_matches(listed[j].row(), wanted));
        assert(places.contains(j));
        let k = choose|k: int| 0 <= k < places.len() && places[k] == j;
        assert(is_rule_of(found[k], picked[k]));
        assert(picked[k] == listed[places[k]]);
    }
}

impl StoreError {
    /// The message of this error.
    pub open spec fn message_text(self) -> Seq<char> {
        match self {
            StoreError::AlreadyPersisted =>
                "MockingRule already exists. Cannot create records with already existing ID"@,
            StoreError::Duplicate => "Rule on this endpoint already exists!"@,
            StoreError::NotPersisted =>
                "Cannot delete MockingRule which does not exist in database."@,
            StoreError::NothingInserted => "Database failed to perform insert"@,
            StoreError::NothingDeleted => "Database failed to perform delete"@,
            StoreError::NoCount => "Database Count statement returned no result"@,
            StoreError::Engine(message) => message@,
        }
    }

    /// The message of this error.
    pub fn message(&self) -> (text: String)
        ensures
            text@ == self.message_text(),
    {
        match self {
            StoreError::AlreadyPersisted => String::from_str(
                "MockingRule already exists. Cannot create records with already existing ID",
            ),
            StoreError::Duplicate => String::from_str("Rule on this endpoint already exists!"),
            StoreError::NotPersisted => String::from_str(
                "Cannot delete MockingRule which does not exist in database.",
            ),
            StoreError::NothingInserted => String::from_str("Database failed to perform insert"),
            StoreError::NothingDeleted => String::from_str("Database failed to perform delete"),
            StoreError::NoCount => String::from_str("Database Count statement returned no result"),
            StoreError::Engine(message) => message.clone(),
        }
    }
}

impl RuleStore {
    /// The store's invariant: that of its rows, see [`rows_wf`], none of
    /// which has an identifier beyond the last that was given out.
    pub open spec fn wf(&self) -> bool {
        &&& rows_wf(self.rows())
        &&& forall|id: i64| #[trigger] self.rows().contains_key(id) ==> id <= self.last_issued()
    }

    /// Opens a new, empty in-memory store. The rule table is not yet
    /// created: see [`initialize_db`].
    pub fn open() -> (opened: Result<RuleStore, StoreError>)
        ensures
            opened matches Ok(store) ==> store.wf() && !store.ready() && store.rows() == no_rows(),
            opened matches Err(e) ==> e is Engine,
    {
        match RuleStore::connect() {
            Ok(store) => Ok(store),
            Err(message) => Err(StoreError::Engine(message)),
        }
    }
}

/// What the lookup for a new rule's requests means for the rule: a rule that
/// was found stands in its way.
pub open spec fn refusal_of(found: Seq<MockingRule>) -> Result<(), StoreError> {
    if found.len() > 0 {
        Err(StoreError::Duplicate)
    } else {
        Ok(())
    }
}

/// Refuses a new rule as a duplicate where the lookup for its requests has
/// found a rule.
pub fn duplicate_refusal(found: &Vec<MockingRule>) -> (outcome: Result<(), StoreError>)
    ensures
        outcome == refusal_of(found@),
{
    if found.len() > 0 {
        Err(StoreError::Duplicate)
    } else {
        Ok(())
    }
}

/// What the store reports for the number of rows that an insert changed.
pub fn insert_outcome(done: Result<usize, String>) -> (outcome: Result<(), StoreError>)
    ensures
        outcome == match done {
            Ok(changed) => if changed == 0 {
                Err(StoreError::NothingInserted)
            } else {
                Ok(())
            },
            Err(message) => Err(StoreError::Engine(message)),
        },
{
    match done {
        Ok(changed) => if changed == 0 {
            Err(StoreError::NothingInserted)
        } else {
            Ok(())
        },
        Err(message) => Err(StoreError::Engine(message)),
    }
}

/// What the store reports for the number of rows that a delete changed.
pub fn delete_outcome(done: Result<usize, String>) -> (outcome: Result<(), StoreError>)
    ensures
        outcome == match done {
            Ok(changed) => if changed == 0 {
                Err(StoreError::NothingDeleted)
            } else {
                Ok(())
            },
            Err(message) => Err(StoreError::Engine(message)),
        },
{
    match done {
        Ok(changed) => if changed == 0 {
            Err(StoreError::NothingDeleted)
        } else {
            Ok(())
        },
        Err(message) => Err(StoreError::Engine(message)),
    }
}

/// What the store reports for the answer to the count statement.
pub fn count_outcome(counted: Result<Option<i64>, String>) -> (outcome: Result<i64, StoreError>)
    ensures
        outcome == match counted {
            Ok(Some(count)) => Ok(count),
            Ok(None) => Err(StoreError::NoCount),
            Err(message) => Err(StoreError::Engine(message)),
        },
{
    match counted {
        Ok(Some(count)) => Ok(count),
        Ok(None) => Err(StoreError::NoCount),
        Err(message) => Err(StoreError::Engine(message)),
    }
}

impl MockingRule {
    /// The row that stands for this rule in the table.
    pub open spec fn row(&self) -> RuleRow {
        RuleRow {
            request_method: method_name(self.request_method),
            request_url: self.request_url@,
            request_query: text_of(self.request_query),
            request_data: text_of(self.request_data),
            response_status_code: self.response_status_code,
            response_data: text_of(self.response_data),
        }
    }

    /// The lookup that finds the rules for the same requests as this one.
    pub open spec fn criteria(&self) -> Criteria {
        Criteria {
            url: Some(self.request_url@),
            query: text_of(self.request_query),
            method: Some(self.request_method),
            data: text_of(self.request_data),
        }
    }

    /// Creates the rule table unless it exists. The rows stay as they are.
    pub fn create_db_table(store: &mut RuleStore) -> (created: Result<(), StoreError>)
        ensures
            created is Ok ==> final(store).ready(),
            created is Err ==> final(store).ready() == old(store).ready(),
            final(store).rows() == old(store).rows(),
            final(store).last_issued() == old(store).last_issued(),
            created matches Err(e) ==> e is Engine,
    {
        match store.create_table() {
            Ok(_) => Ok(()),
            Err(message) => Err(StoreError::Engine(message)),
        }
    }

    /// Counts the rules in the store.
    pub fn count_all(store: &RuleStore) -> (counted: Result<i64, StoreError>)
        ensures
            counted matches Ok(count) ==> store.ready() && count == store.rows().dom().len(),
            counted matches Err(e) ==> e is Engine,
    {
        count_outcome(store.count())
    }

    /// Finds the rules that answer a request: those whose url, query,
    /// method and body each equal the argument, an absent argument standing
    /// for an absent part and never for "any". The rule that was created
    /// first comes first.
    pub fn find(
        store: &RuleStore,
        request_url: &Option<String>,
        request_query: &Option<String>,
        request_method: &Option<Method>,
        request_data: &Option<String>,
    ) -> (found: Result<Vec<MockingRule>, StoreError>)
        ensures
            found matches Ok(rules) ==> store.ready() && finds(
                rules@,
                store.rows(),
                criteria_of(*request_url, *request_query, *request_method, *request_data),
            ),
            found matches Err(e) ==> e is Engine,
    {
        match store.list() {
            Ok(listed) => {
                let found = matching_rules(
                    &listed,
                    request_url,
                    request_query,
                    request_method,
                    request_data,
                );
                proof {
                    lemma_matching_finds(
                        listed@,
                        store.rows(),
                        criteria_of(*request_url, *request_query, *request_method, *request_data),
                        found@,
                    );
                }
                Ok(found)
            },
            Err(message) => Err(StoreError::Engine(message)),
        }
    }

    /// Creates the rule in the store and gives it its identifier.
    ///
    /// A rule that carries an identifier is refused as already created, and
    /// one for whose requests the store holds a rule is refused as a
    /// duplicate. Any refusal or failure leaves the rule and the store as
    /// they were.
    pub fn create(&mut self, store: &mut RuleStore) -> (created: Result<(), StoreError>)
        requires
            old(store).wf(),
        ensures
            final(store).wf(),
            final(store).ready() == old(store).ready(),
            old(self).id is Some ==> created == Err::<(), StoreError>(StoreError::AlreadyPersisted),
            old(self).id is None && has_match(old(store).rows(), old(self).criteria()) ==> (
            created matches Err(e) && (e is Duplicate || e is Engine)),
            created matches Err(e) ==> {
                &&& *final(self) == *old(self)
                &&& final(store).rows() == old(store).rows()
                &&& e is AlreadyPersisted || e is Duplicate || e is NothingInserted || e is Engine
                &&& e is AlreadyPersisted ==> old(self).id is Some
                &&& e is Duplicate ==> has_match(old(store).rows(), old(self).criteria())
            },
            created is Err ==> final(store).last_issued() == old(store).last_issued(),
            created is Ok ==> {
                &&& old(store).ready()
                &&& old(self).id is None
                &&& !has_match(old(store).rows(), old(self).criteria())
                &&& final(self).id matches Some(id)
                &&& !old(store).rows().contains_key(id)
                &&& id > old(store).last_issued()
                &&& final(store).last_issued() == id
                &&& final(store).rows() == old(store).rows().insert(id, old(self).row())
                &&& *final(self) == (MockingRule { id: Some(id), ..*old(self) })
            },
    {
        if self.id.is_some() {
            return Err(StoreError::AlreadyPersisted);
        }
        let ghost rows = store.rows();
        let ghost wanted = self.criteria();
        let url = Some(self.request_url.clone());
        let method = Some(self.request_method);
        let found = match Self::find(store, &url, &self.request_query, &method, &self.request_data) {
            Ok(found) => found,
            Err(e) => { return Err(e); },
        };
        assert(criteria_of(url, self.request_query, method, self.request_data) == wanted);
        match duplicate_refusal(&found) {
            Ok(()) => {},
            Err(e) => {
                proof {
                    let id = found@[0].id->Some_0;
                    assert(rows.contains_key(id) && row_matches(rows[id], wanted));
                }
                return Err(e);
            },
        }
        let done = store.insert(
            self.request_method.as_str(),
            &self.request_url,
            &self.request_query,
            &self.request_data,
            self.response_status_code,
            &self.response_data,
        );
        match insert_outcome(done) {
            Ok(()) => {
                let id = store.inserted_id();
                self.id = Some(id);
                proof {
                    let row = old(self).row();
                    assert(store.rows() == rows.insert(id, row));
                    assert forall|other: i64| rows.contains_key(other) implies !same_request(
                        #[trigger] rows[other],
                        row,
                    ) by {
                        if same_request(rows[other], row) {
                            assert(row_matches(rows[other], wanted));
                        }
                    }
                }
                Ok(())
            },
            Err(e) => Err(e),
        }
    }

    /// Deletes the rule from the store by its identifier.
    ///
    /// A rule without identifier is refused, and so is one whose row the
    /// store no longer holds. The rule itself stays as it is, and a refusal
    /// or failure leaves the store as it was.
    pub fn delete(&mut self, store: &mut RuleStore) -> (deleted: Result<(), StoreError>)
        requires
            old(store).wf(),
        ensures
            final(store).wf(),
            final(store).ready() == old(store).ready(),
            final(store).last_issued() == old(store).last_issued(),
            *final(self) == *old(self),
            old(self).id is None ==> deleted == Err::<(), StoreError>(StoreError::NotPersisted),
            deleted matches Err(e) ==> {
                &&& final(store).rows() == old(store).rows()
                &&& e is NotPersisted || e is NothingDeleted || e is Engine
                &&& e is NotPersisted ==> old(self).id is None
                &&& e is NothingDeleted ==> (old(self).id matches Some(id) && !old(
                    store,
                ).rows().contains_key(id))
            },
            deleted is Ok ==> {
                &&& old(store).ready()
                &&& old(self).id matches Some(id)
                &&& old(store).rows().contains_key(id)
                &&& final(store).rows() == old(store).rows().remove(id)
            },
    {
        let id = match self.id {
            Some(id) => id,
            None => { return Err(StoreError::NotPersisted); },
        };
        let ghost rows = store.rows();
        let done = store.remove(id);
        proof {
            if !rows.contains_key(id) {
                assert(rows.remove(id) == rows);
            }
        }
        delete_outcome(done)
    }

    /// The identifier as it is displayed.
    pub open spec fn id_text(&self) -> Seq<char> {
        match self.id {
            Some(id) => integer_text(id as int),
            None => "<None>"@,
        }
    }

    /// Displays the identifier: the number in decimal, or `<None>` for a rule
    /// that has none.
    pub fn display_id(&self) -> (text: String)
        ensures
            text@ == self.id_text(),
    {
        match self.id {
            Some(id) => decimal(id),
            None => String::from_str("<None>"),
        }
    }
}

/// Two rules answer the same requests exactly when the lookup for the one is
/// the lookup for the other.
pub proof fn lemma_same_request_same_criteria(a: MockingRule, b: MockingRule)
    ensures
        same_request(a.row(), b.row()) <==> a.criteria() == b.criteria(),
{
    lemma_method_names(a.request_method);
    lemma_method_names(b.request_method);
}

/// Uniqueness: once a rule is created, the store holds a match for every
/// rule that answers the same requests, whichever of query and body are
/// absent. [`MockingRule::create`] refuses such a rule as a duplicate.
pub proof fn lemma_created_rule_excludes_its_like(
    rows: Map<i64, RuleRow>,
    id: i64,
    first: MockingRule,
    second: MockingRule,
)
    requires
        first.criteria() == second.criteria(),
    ensures
        has_match(rows.insert(id, first.row()), second.criteria()),
{
    let after = rows.insert(id, first.row());
    assert(after.contains_key(id) && row_matches(after[id], second.criteria()));
}

/// Uniqueness, where the lookup succeeds: once a rule is created, the lookup
/// for a rule that answers the same requests finds a rule, so that the new
/// rule is refused as a duplicate.
pub proof fn lemma_duplicate_is_refused(
    rows: Map<i64, RuleRow>,
    id: i64,
    first: MockingRule,
    second: MockingRule,
    found: Seq<MockingRule>,
)
    requires
        first.criteria() == second.criteria(),
        finds(found, rows.insert(id, first.row()), second.criteria()),
    ensures
        refusal_of(found) == Err::<(), StoreError>(StoreError::Duplicate),
{
    let after = rows.insert(id, first.row());
    assert(after.contains_key(id) && row_matches(after[id], second.criteria()));
    let i = choose|i: int| 0 <= i < found.len() && (#[trigger] found[i]).id == Some(id);
}

/// Absent means absent, where the lookup succeeds: a lookup with a query
/// does not find a rule without one, and a lookup with a body does not find
/// a rule without one.
pub proof fn lemma_lookup_skips_what_is_absent(
    found: Seq<MockingRule>,
    rows: Map<i64, RuleRow>,
    wanted: Criteria,
    id: i64,
)
    requires
        finds(found, rows, wanted),
        rows.contains_key(id),
        (rows[id].request_query is None && wanted.query is Some) || (rows[id].request_data is None
            && wanted.data is Some),
    ensures
        forall|i: int| 0 <= i < found.len() ==> (#[trigger] found[i]).id != Some(id),
{
}

/// Absent means absent: a row without query is matched by no lookup that
/// has a query, and a row without body by none that has a body. The same
/// holds the other way round.
pub proof fn lemma_absent_matches_absent_only(row: RuleRow, wanted: Criteria)
    requires
        row_matches(row, wanted),
    ensures
        row.request_query is None <==> wanted.query is None,
        row.request_data is None <==> wanted.data is None,
{
}

/// Round trip: in a store that held no rule for its requests, a rule that
/// was created is the one and only match for exactly its own requests, and
/// after its deletion those requests have no match again.
pub proof fn lemma_round_trip(rows: Map<i64, RuleRow>, id: i64, rule: MockingRule)
    requires
        !rows.contains_key(id),
        !has_match(rows, rule.criteria()),
    ensures
        has_match(rows.insert(id, rule.row()), rule.criteria()),
        forall|other: i64|
            rows.insert(id, rule.row()).contains_key(other) && row_matches(
                #[trigger] rows.insert(id, rule.row())[other],
                rule.criteria(),
            ) ==> other == id,
        rows.insert(id, rule.row()).remove(id) == rows,
        !has_match(rows.insert(id, rule.row()).remove(id), rule.criteria()),
{
    let after = rows.insert(id, rule.row());
    assert(after.contains_key(id) && row_matches(after[id], rule.criteria()));
    assert forall|other: i64|
        after.contains_key(other) && row_matches(
            #[trigger] after[other],
            rule.criteria(),
        ) implies other == id by {
        if other != id {
            assert(rows.contains_key(other) && row_matches(rows[other], rule.criteria()));
        }
    }
    assert(after.remove(id) =~= rows);
}

/// In a store that keeps its invariant, a lookup that names url and method
/// has at most one match.
pub proof fn lemma_at_most_one_match(rows: Map<i64, RuleRow>, wanted: Criteria, a: i64, b: i64)
    requires
        rows_wf(rows),
        rows.contains_key(a) && row_matches(rows[a], wanted),
        rows.contains_key(b) && row_matches(rows[b], wanted),
    ensures
        a == b,
{
    if a != b {
        assert(same_request(rows[a], rows[b]));
    }
}

/// Deleting a rule that the store holds removes that rule and no other, and
/// leaves one rule less.
pub proof fn lemma_delete_removes_one(rows: Map<i64, RuleRow>, id: i64)
    requires
        rows.dom().finite(),
        rows.contains_key(id),
    ensures
        rows.remove(id).dom().len() == rows.dom().len() - 1,
        !rows.remove(id).contains_key(id),
        forall|other: i64|
            other != id && rows.contains_key(other) ==> rows.remove(id).contains_key(other)
                && #[trigger] rows.remove(id)[other] == rows[other],
{
    assert(rows.remove(id).dom() =~= rows.dom().remove(id));
}

/// Creating a rule leaves one rule more.
pub proof fn lemma_create_adds_one(rows: Map<i64, RuleRow>, id: i64, row: RuleRow)
    requires
        rows.dom().finite(),
        !rows.contains_key(id),
    ensures
        rows.insert(id, row).dom().len() == rows.dom().len() + 1,
{
    assert(rows.insert(id, row).dom() =~= rows.dom().insert(id));
}

/// Initializes the store: makes sure that the rule table exists. A store
/// that is initialized already stays as it is.
pub fn initialize_db(store: &mut RuleStore) -> (initialized: Result<(), StoreError>)
    ensures
        initialized is Ok ==> final(store).ready(),
        initialized is Err ==> final(store).ready() == old(store).ready(),
        final(store).rows() == old(store).rows(),
        final(store).last_issued() == old(store).last_issued(),
        initialized matches Err(e) ==> e is Engine,
{
    MockingRule::create_db_table(store)
}

} // verus!

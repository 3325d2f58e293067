//! The engine under the rule store: one table in an SQLite database of
//! `rusqlite`, and what each statement on it does to its rows.

use vstd::prelude::*;
use crate::text::text_of;

verus! {

/// The SQLite connection of `rusqlite`. Verus sees nothing inside it.
#[verifier::external_type_specification]
#[verifier::external_body]
pub struct ExConnection(rusqlite::Connection);

/// One row of the rule table, without its identifier.
pub ghost struct RuleRow {
    pub request_method: Seq<char>,
    pub request_url: Seq<char>,
    pub request_query: Option<Seq<char>>,
    pub request_data: Option<Seq<char>>,
    pub response_status_code: i64,
    pub response_data: Option<Seq<char>>,
}

/// The rows of the rule table behind a connection, by identifier. A
/// connection without the table holds no rows.
pub uninterp spec fn table_rows(conn: rusqlite::Connection) -> Map<i64, RuleRow>;

/// The identifier that the connection's latest insert gave out.
pub uninterp spec fn last_rowid(conn: rusqlite::Connection) -> i64;

/// The largest identifier that the rule table has ever given out, or zero
/// where there is none. The table counts its identifiers upwards and does
/// not go back when a row leaves.
pub uninterp spec fn largest_rowid(conn: rusqlite::Connection) -> i64;

/// Whether the database behind a connection holds the rule table.
pub uninterp spec fn has_table(conn: rusqlite::Connection) -> bool;

/// The table without rows.
pub open spec fn no_rows() -> Map<i64, RuleRow> {
    Map::empty()
}

/// A row as the engine hands it out.
pub struct StoredRule {
    pub id: i64,
    pub request_method: String,
    pub request_url: String,
    pub request_query: Option<String>,
    pub request_data: Option<String>,
    pub response_status_code: i64,
    pub response_data: Option<String>,
}

impl StoredRule {
    /// The row without its identifier.
    pub open spec fn row(&self) -> RuleRow {
        RuleRow {
            request_method: self.request_method@,
            request_url: self.request_url@,
            request_query: text_of(self.request_query),
            request_data: text_of(self.request_data),
            response_status_code: self.response_status_code,
            response_data: text_of(self.response_data),
        }
    }
}

/// Whether `listed` holds every row of the table once, each under its own
/// identifier, the smaller identifier first.
pub open spec fn lists(listed: Seq<StoredRule>, rows: Map<i64, RuleRow>) -> bool {
    &&& forall|i: int|
        0 <= i < listed.len() ==> rows.contains_key((#[trigger] listed[i]).id) && rows[listed[i].id]
            == listed[i].row()
    &&& forall|i: int, j: int|
        0 <= i < j < listed.len() ==> (#[trigger] listed[i]).id < (#[trigger] listed[j]).id
    &&& forall|id: i64| #[trigger]
        rows.contains_key(id) ==> exists|i: int| 0 <= i < listed.len() && (#[trigger] listed[i]).id == id
}

pub const CREATE_TABLE_SQL: &'static str =
    "CREATE TABLE IF NOT EXISTS mocking_rules (id INTEGER PRIMARY KEY AUTOINCREMENT, request_method TEXT NOT NULL, request_url TEXT NOT NULL, request_query TEXT, request_data TEXT, response_status_code INTEGER NOT NULL, response_data TEXT)";

pub const INSERT_SQL: &'static str =
    "INSERT INTO mocking_rules (request_method, request_url, request_query, request_data, response_status_code, response_data) VALUES (?, ?, ?, ?, ?, ?)";

pub const SELECT_SQL: &'static str =
    "SELECT id, request_method, request_url, request_query, request_data, response_status_code, response_data FROM mocking_rules ORDER BY id";

pub const DELETE_SQL: &'static str = "DELETE FROM mocking_rules WHERE id = ?";

pub const COUNT_SQL: &'static str = "SELECT Count(*) FROM mocking_rules";

/// The rule store: one private SQLite connection that holds the rule table.
pub struct RuleStore {
    conn: rusqlite::Connection,
}

/// `rusqlite::Connection::open_in_memory`: a new private in-memory database,
/// which holds no table and so no rows.
#[verifier::external_body]
fn open_in_memory() -> (opened: Result<rusqlite::Connection, String>)
    ensures
        opened matches Ok(conn) ==> !has_table(conn) && table_rows(conn) == no_rows(),
{
    rusqlite::Connection::open_in_memory().map_err(|e| e.to_string())
}

/// `rusqlite::Connection::execute` on the statement that creates the rule
/// table unless it exists. Where it succeeds the table is there; where it
/// fails nothing has changed. Either way the rows stay as they are, and so
/// does the count of identifiers: an existing table is left alone and a new
/// one is empty.
#[verifier::external_body]
fn execute_create_table(conn: &mut rusqlite::Connection, sql: &str) -> (done: Result<usize, String>)
    requires
        sql@ == CREATE_TABLE_SQL@,
    ensures
        done is Ok ==> has_table(*final(conn)),
        done is Err ==> has_table(*final(conn)) == has_table(*old(conn)),
        table_rows(*final(conn)) == table_rows(*old(conn)),
        largest_rowid(*final(conn)) == largest_rowid(*old(conn)),
{
    conn.execute(sql, ()).map_err(|e| e.to_string())
}

/// `rusqlite::Connection::execute` on the insert statement, with the six
/// columns of the new row as its parameters. It neither makes nor drops the
/// table, and fails where there is none. An error leaves the table as it was, and so does a statement that
/// reports no changed row. Otherwise the
/// table has one row more: the new one, under an identifier that no row had
/// and that is larger than any the table gave out before. It is the one that
/// `last_insert_rowid` then reports.
#[verifier::external_body]
fn execute_insert(
    conn: &mut rusqlite::Connection,
    sql: &str,
    method: &str,
    url: &String,
    query: &Option<String>,
    data: &Option<String>,
    status: i64,
    response: &Option<String>,
) -> (done: Result<usize, String>)
    requires
        sql@ == INSERT_SQL@,
    ensures
        done matches Ok(changed) && changed > 0 ==> {
            &&& !table_rows(*old(conn)).contains_key(last_rowid(*final(conn)))
            &&& last_rowid(*final(conn)) > largest_rowid(*old(conn))
            &&& largest_rowid(*final(conn)) == last_rowid(*final(conn))
            &&& table_rows(*final(conn)) == table_rows(*old(conn)).insert(
                last_rowid(*final(conn)),
                RuleRow {
                    request_method: method@,
                    request_url: url@,
                    request_query: text_of(*query),
                    request_data: text_of(*data),
                    response_status_code: status,
                    response_data: text_of(*response),
                },
            )
        },
        !(done matches Ok(changed) && changed > 0) ==> table_rows(*final(conn)) == table_rows(
            *old(conn),
        ) && largest_rowid(*final(conn)) == largest_rowid(*old(conn)),
        has_table(*final(conn)) == has_table(*old(conn)),
        !has_table(*old(conn)) ==> done is Err,
{
    conn.execute(sql, (method, url, query, data, status, response)).map_err(|e| e.to_string())
}

/// `rusqlite::Connection::last_insert_rowid`: the identifier of the row that
/// the connection inserted last.
#[verifier::external_body]
fn last_insert_rowid(conn: &rusqlite::Connection) -> (id: i64)
    ensures
        id == last_rowid(*conn),
{
    conn.last_insert_rowid()
}

/// `rusqlite::Connection::execute` on the delete statement, with the
/// identifier as its parameter. An error leaves the table as it was.
/// Otherwise the row under that identifier is gone, and the number reported
/// is zero exactly when there was no such row. The count of identifiers
/// stays where it was, and the table is neither made nor dropped. Without
/// the table the statement fails.
#[verifier::external_body]
fn execute_delete(conn: &mut rusqlite::Connection, sql: &str, id: i64) -> (done: Result<
    usize,
    String,
>)
    requires
        sql@ == DELETE_SQL@,
    ensures
        match done {
            Ok(changed) => {
                &&& table_rows(*final(conn)) == table_rows(*old(conn)).remove(id)
                &&& changed == 0 <==> !table_rows(*old(conn)).contains_key(id)
            },
            Err(_) => table_rows(*final(conn)) == table_rows(*old(conn)),
        },
        largest_rowid(*final(conn)) == largest_rowid(*old(conn)),
        has_table(*final(conn)) == has_table(*old(conn)),
        !has_table(*old(conn)) ==> done is Err,
{
    conn.execute(sql, (id,)).map_err(|e| e.to_string())
}

/// `rusqlite::Connection::prepare` and `rusqlite::Statement::query_map` on
/// the select statement, each row read column by column with
/// `rusqlite::Row::get`. Where all of it succeeds, every row of the table is
/// handed out once, in the order of the identifiers, which the statement
/// asks for. Without the table the statement fails.
#[verifier::external_body]
fn query_rows(conn: &rusqlite::Connection, sql: &str) -> (listed: Result<Vec<StoredRule>, String>)
    requires
        sql@ == SELECT_SQL@,
    ensures
        listed matches Ok(rules) ==> lists(rules@, table_rows(*conn)),
        !has_table(*conn) ==> listed is Err,
{
    let mut statement = conn.prepare(sql).map_err(|e| e.to_string())?;
    let rows = statement.query_map((), |row| {
        Ok(StoredRule {
            id: row.get(0)?, request_method: row.get(1)?, request_url: row.get(2)?,
            request_query: row.get(3)?, request_data: row.get(4)?,
            response_status_code: row.get(5)?, response_data: row.get(6)?,
        })
    }).map_err(|e| e.to_string())?;
    rows.map(|row| row.map_err(|e| e.to_string())).collect()
}

/// `rusqlite::Connection::query_row` on the count statement, read with
/// `rusqlite::Row::get`: the number of rows in the table. A count over a
/// whole table always gives its one row, so `None`, which stands for a
/// statement without rows, never comes. Without the table the statement
/// fails.
#[verifier::external_body]
fn query_count(conn: &rusqlite::Connection, sql: &str) -> (counted: Result<Option<i64>, String>)
    requires
        sql@ == COUNT_SQL@,
    ensures
        counted matches Ok(answer) ==> answer matches Some(count) && count == table_rows(
            *conn,
        ).dom().len(),
        !has_table(*conn) ==> counted is Err,
{
    match conn.query_row(sql, (), |row| row.get(0)) {
        Ok(count) => Ok(Some(count)),
        Err(rusqlite::Error::QueryReturnedNoRows) => Ok(None),
        Err(e) => Err(e.to_string()),
    }
}

impl RuleStore {
    /// The rules in the store, by identifier.
    pub closed spec fn rows(&self) -> Map<i64, RuleRow> {
        table_rows(self.conn)
    }

    /// The largest identifier that the store has ever given out.
    pub closed spec fn last_issued(&self) -> i64 {
        largest_rowid(self.conn)
    }

    /// The identifier that the store's latest insert gave out.
    pub closed spec fn last_inserted(&self) -> i64 {
        last_rowid(self.conn)
    }

    /// Whether the store is initialized: its database holds the rule table.
    pub closed spec fn ready(&self) -> bool {
        has_table(self.conn)
    }

    /// Opens a new in-memory database. It holds no rows, and no table yet.
    pub(crate) fn connect() -> (opened: Result<RuleStore, String>)
        ensures
            opened matches Ok(store) ==> !store.ready() && store.rows() == no_rows(),
    {
        match open_in_memory() {
            Ok(conn) => Ok(RuleStore { conn }),
            Err(message) => Err(message),
        }
    }

    /// Creates the rule table unless it exists.
    pub(crate) fn create_table(&mut self) -> (done: Result<usize, String>)
        ensures
            done is Ok ==> final(self).ready(),
            done is Err ==> final(self).ready() == old(self).ready(),
            final(self).rows() == old(self).rows(),
            final(self).last_issued() == old(self).last_issued(),
    {
        execute_create_table(&mut self.conn, CREATE_TABLE_SQL)
    }

    /// Inserts a row and reports how many rows that changed. Where it
    /// changed one, the row stands under a new identifier, larger than any
    /// before, which [`RuleStore::inserted_id`] then gives.
    pub(crate) fn insert(
        &mut self,
        method: &str,
        url: &String,
        query: &Option<String>,
        data: &Option<String>,
        status: i64,
        response: &Option<String>,
    ) -> (done: Result<usize, String>)
        ensures
            done matches Ok(changed) && changed > 0 ==> {
                &&& !old(self).rows().contains_key(final(self).last_inserted())
                &&& final(self).last_inserted() > old(self).last_issued()
                &&& final(self).last_issued() == final(self).last_inserted()
                &&& final(self).rows() == old(self).rows().insert(
                    final(self).last_inserted(),
                    RuleRow {
                        request_method: method@,
                        request_url: url@,
                        request_query: text_of(*query),
                        request_data: text_of(*data),
                        response_status_code: status,
                        response_data: text_of(*response),
                    },
                )
            },
            !(done matches Ok(changed) && changed > 0) ==> final(self).rows() == old(self).rows()
                && final(self).last_issued() == old(self).last_issued(),
            final(self).ready() == old(self).ready(),
            !old(self).ready() ==> done is Err,
    {
        execute_insert(&mut self.conn, INSERT_SQL, method, url, query, data, status, response)
    }

    /// The identifier that the latest insert gave out.
    pub(crate) fn inserted_id(&self) -> (id: i64)
        ensures
            id == self.last_inserted(),
    {
        last_insert_rowid(&self.conn)
    }

    /// Removes the row under an identifier and reports how many rows that
    /// changed: none exactly when there was no such row.
    pub(crate) fn remove(&mut self, id: i64) -> (done: Result<usize, String>)
        ensures
            match done {
                Ok(changed) => {
                    &&& final(self).rows() == old(self).rows().remove(id)
                    &&& changed == 0 <==> !old(self).rows().contains_key(id)
                },
                Err(_) => final(self).rows() == old(self).rows(),
            },
            final(self).last_issued() == old(self).last_issued(),
            final(self).ready() == old(self).ready(),
            !old(self).ready() ==> done is Err,
    {
        execute_delete(&mut self.conn, DELETE_SQL, id)
    }

    /// Lists every row of the table once, the smaller identifier first.
    pub(crate) fn list(&self) -> (listed: Result<Vec<StoredRule>, String>)
        ensures
            listed matches Ok(rules) ==> lists(rules@, self.rows()),
            !self.ready() ==> listed is Err,
    {
        query_rows(&self.conn, SELECT_SQL)
    }

    /// Counts the rows of the table.
    pub(crate) fn count(&self) -> (counted: Result<Option<i64>, String>)
        ensures
            counted matches Ok(answer) ==> answer matches Some(count) && count
                == self.rows().dom().len(),
            !self.ready() ==> counted is Err,
    {
        query_count(&self.conn, COUNT_SQL)
    }
}

} // verus!

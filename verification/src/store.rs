//! The store: one table of tasks in an SQLite database. A task that is
//! deleted keeps its row, which is marked with the time of deletion and
//! left out of everything that is loaded.

use vstd::prelude::*;
use crate::clock::current_time;
use crate::sorting::{sort_stable, stable_sort, SortCriteria};
use crate::todo::{Priority, Todo};

verus! {

/// `rusqlite::Connection`, the open database. Nothing is known of what
/// it holds.
#[verifier::external_type_specification]
#[verifier::external_body]
pub struct ExConnection(rusqlite::Connection);

/// `rusqlite::Error`, the failure of a call into the database.
#[verifier::external_type_specification]
#[verifier::external_body]
pub struct ExSqlError(rusqlite::Error);

/// `rusqlite::Transaction`, a transaction that has begun on a connection.
#[verifier::external_type_specification]
#[verifier::external_body]
pub struct ExTransaction<'conn>(rusqlite::Transaction<'conn>);

/// What went wrong in the store.
#[derive(Debug)]
pub enum DatabaseError {
    /// The database could not be opened or its table could not be made.
    ConnectionError(String),
    /// One statement on the open database failed.
    OperationError(String),
}

impl DatabaseError {
    /// The text of the error as it is shown to the user.
    pub open spec fn spec_message(self) -> Seq<char> {
        match self {
            DatabaseError::ConnectionError(detail) => "Failed to connect to database: "@ + detail@,
            DatabaseError::OperationError(detail) => "Failed to exeute database operation: "@
                + detail@,
        }
    }

    /// The text of the error as it is shown to the user.
    pub fn message(&self) -> (text: String)
        ensures
            text@ == self.spec_message(),
    {
        match self {
            DatabaseError::ConnectionError(detail) => String::from_str(
                "Failed to connect to database: ",
            ).concat(detail.as_str()),
            DatabaseError::OperationError(detail) => String::from_str(
                "Failed to exeute database operation: ",
            ).concat(detail.as_str()),
        }
    }
}

/// A value bound to a placeholder of a statement.
#[derive(Debug)]
pub enum SqlValue {
    Null,
    Integer(i64),
    Text(String),
}

/// One row of the table, deleted or not. Times are microseconds since the
/// Unix epoch.
#[derive(Debug)]
pub struct StoredRow {
    pub id: i64,
    pub text: String,
    pub completed: bool,
    pub created_at: i64,
    pub modified_at: Option<i64>,
    pub completed_at: Option<i64>,
    pub deleted_at: Option<i64>,
    pub priority: Option<i64>,
}

pub const CREATE_TABLE: &'static str =
    "CREATE TABLE IF NOT EXISTS todos (
        id INTEGER PRIMARY KEY AUTOINCREMENT,
        text TEXT NOT NULL,
        completed BOOLEAN NOT NULL DEFAULT 0,
        created_at INTEGER NOT NULL,
        modified_at INTEGER,
        completed_at INTEGER,
        deleted_at INTEGER,
        priority INTEGER
    )";

pub const SELECT_ROWS: &'static str =
    "SELECT id, text, completed, created_at, modified_at, completed_at, deleted_at, priority
     FROM todos
     ORDER BY id";

pub const INSERT_ROW: &'static str =
    "INSERT INTO todos (text, completed, created_at, priority) VALUES (?1, ?2, ?3, ?4)";

pub const UPDATE_ROW: &'static str =
    "UPDATE todos
     SET text = ?1,
         completed = ?2,
         modified_at = ?3,
         completed_at = ?4,
         priority = ?5
     WHERE id = ?6 AND deleted_at IS NULL";

pub const DELETE_ROW: &'static str =
    "UPDATE todos SET deleted_at = ?1 WHERE id = ?2 AND deleted_at IS NULL";

/// Opens the database file with `rusqlite::Connection::open`, which
/// creates the file where there is none. Nothing is claimed of the
/// outcome, which depends on the file system.
#[verifier::external_body]
fn open_connection(path: &str) -> (opened: Result<rusqlite::Connection, rusqlite::Error>) {
    rusqlite::Connection::open(path)
}

/// Runs one statement with `rusqlite::Connection::execute`, the values
/// bound to its placeholders in order. Nothing is claimed of the outcome,
/// which depends on the database.
#[verifier::external_body]
fn execute(conn: &rusqlite::Connection, sql: &str, values: &Vec<SqlValue>) -> (changed: Result<
    usize,
    rusqlite::Error,
>) {
    let bound = values.iter().map(|v| match v {
        SqlValue::Null => rusqlite::types::Value::Null,
        SqlValue::Integer(n) => rusqlite::types::Value::Integer(*n),
        SqlValue::Text(s) => rusqlite::types::Value::Text(s.clone()),
    });
    conn.execute(sql, rusqlite::params_from_iter(bound))
}

/// Begins a transaction with `rusqlite::Connection::transaction`. The
/// transaction is rolled back when it is dropped without a commit.
/// Nothing is claimed of the outcome.
#[verifier::external_body]
fn begin<'a>(conn: &'a mut rusqlite::Connection) -> (begun: Result<
    rusqlite::Transaction<'a>,
    rusqlite::Error,
>) {
    conn.transaction()
}

/// The connection that a transaction runs on, as its `Deref` gives it.
#[verifier::external_body]
fn connection_of<'a>(tx: &'a rusqlite::Transaction<'_>) -> (conn: &'a rusqlite::Connection) {
    tx
}

/// Commits a transaction with `rusqlite::Transaction::commit`. Nothing
/// is claimed of the outcome.
#[verifier::external_body]
fn commit(tx: rusqlite::Transaction<'_>) -> (committed: Result<(), rusqlite::Error>) {
    tx.commit()
}

/// The row id of the last successful insert on the connection, as
/// `rusqlite::Connection::last_insert_rowid` gives it. Nothing is claimed
/// of the value.
#[verifier::external_body]
fn last_insert_rowid(conn: &rusqlite::Connection) -> (id: i64) {
    conn.last_insert_rowid()
}

/// Runs a query without placeholders with `rusqlite::Connection::prepare`
/// and `Statement::query_map`, and reads the eight columns of each row
/// into a `StoredRow`. Nothing is claimed of the outcome, which depends
/// on the database.
#[verifier::external_body]
fn query_rows(conn: &rusqlite::Connection, sql: &str) -> (rows: Result<
    Vec<StoredRow>,
    rusqlite::Error,
>) {
    let mut statement = conn.prepare(sql)?;
    let rows = statement.query_map((), |row| Ok(StoredRow {
        id: row.get(0)?,
        text: row.get(1)?,
        completed: row.get(2)?,
        created_at: row.get(3)?,
        modified_at: row.get(4)?,
        completed_at: row.get(5)?,
        deleted_at: row.get(6)?,
        priority: row.get(7)?,
    }))?;
    rows.collect()
}

/// The text of a `rusqlite::Error`, as its `Display` writes it.
#[verifier::external_body]
fn describe(error: &rusqlite::Error) -> (detail: String) {
    error.to_string()
}

/// The number that stands for a priority in the table: 1 for `High`,
/// 2 for `Medium`, 3 for `Low`, 0 for none.
pub open spec fn spec_priority_to_int(priority: Option<Priority>) -> i64 {
    match priority {
        Some(Priority::High) => 1,
        Some(Priority::Medium) => 2,
        Some(Priority::Low) => 3,
        None => 0,
    }
}

/// The priority for which a number of the table stands: none for any
/// number but 1, 2 and 3.
pub open spec fn spec_int_to_priority(priority: i64) -> Option<Priority> {
    if priority == 1 {
        Some(Priority::High)
    } else if priority == 2 {
        Some(Priority::Medium)
    } else if priority == 3 {
        Some(Priority::Low)
    } else {
        None
    }
}

/// Reading back the number written for a priority gives the priority.
pub proof fn lemma_priority_round_trip(priority: Option<Priority>)
    ensures
        spec_int_to_priority(spec_priority_to_int(priority)) == priority,
{
}

/// The task that a row holds. A priority that is NULL in the table is no
/// priority.
pub open spec fn spec_todo_of_row(row: StoredRow) -> Todo {
    Todo {
        id: row.id,
        text: row.text,
        completed: row.completed,
        created_at: row.created_at,
        completed_at: row.completed_at,
        priority: match row.priority {
            Some(n) => spec_int_to_priority(n),
            None => None,
        },
    }
}

/// The task that a row holds.
pub fn todo_of_row(row: &StoredRow) -> (todo: Todo)
    ensures
        todo == spec_todo_of_row(*row),
{
    Todo {
        id: row.id,
        text: row.text.clone(),
        completed: row.completed,
        created_at: row.created_at,
        completed_at: row.completed_at,
        priority: match row.priority {
            Some(n) => DatabaseHandler::int_to_priority(n),
            None => None,
        },
    }
}

/// The tasks of the rows that are not deleted, in the order of the rows.
pub open spec fn live_todos(rows: Seq<StoredRow>) -> Seq<Todo>
    decreases rows.len(),
{
    if rows.len() == 0 {
        Seq::empty()
    } else if rows.last().deleted_at.is_none() {
        live_todos(rows.drop_last()).push(spec_todo_of_row(rows.last()))
    } else {
        live_todos(rows.drop_last())
    }
}

/// The list that is loaded from a table: the tasks of the rows that are
/// not deleted, the highest priority first, and among tasks of one
/// priority the one created last first.
pub open spec fn spec_active_todos(rows: Seq<StoredRow>) -> Seq<Todo> {
    stable_sort(
        stable_sort(live_todos(rows), SortCriteria::CreatedDate, false),
        SortCriteria::Priority,
        false,
    )
}

/// The list that is loaded from the rows of the table.
pub fn active_todos(rows: &Vec<StoredRow>) -> (todos: Vec<Todo>)
    ensures
        todos@ == spec_active_todos(rows@),
{
    let mut live: Vec<Todo> = Vec::new();
    let mut i: usize = 0;
    while i < rows.len()
        invariant
            0 <= i <= rows.len(),
            live@ == live_todos(rows@.take(i as int)),
        decreases rows.len() - i,
    {
        proof {
            assert(rows@.take(i + 1).drop_last() =~= rows@.take(i as int));
        }
        if rows[i].deleted_at.is_none() {
            live.push(todo_of_row(&rows[i]));
        }
        i += 1;
    }
    proof {
        assert(rows@.take(i as int) =~= rows@);
    }
    let by_date = sort_stable(live, SortCriteria::CreatedDate, false);
    sort_stable(by_date, SortCriteria::Priority, false)
}

/// The values bound when a task is inserted: its text, whether it is
/// completed, its time of creation and the number of its priority.
pub open spec fn spec_insert_values(todo: Todo) -> Seq<SqlValue> {
    seq![
        SqlValue::Text(todo.text),
        SqlValue::Integer(if todo.completed { 1i64 } else { 0i64 }),
        SqlValue::Integer(todo.created_at),
        SqlValue::Integer(spec_priority_to_int(todo.priority)),
    ]
}

/// The values bound when a task is updated at the time `now`: its text,
/// whether it is completed, `now` as the time of modification, the time of
/// completion or NULL, the number of its priority, and its id.
pub open spec fn spec_update_values(todo: Todo, now: i64) -> Seq<SqlValue> {
    seq![
        SqlValue::Text(todo.text),
        SqlValue::Integer(if todo.completed { 1i64 } else { 0i64 }),
        SqlValue::Integer(now),
        match todo.completed_at {
            Some(at) => SqlValue::Integer(at),
            None => SqlValue::Null,
        },
        SqlValue::Integer(spec_priority_to_int(todo.priority)),
        SqlValue::Integer(todo.id),
    ]
}

/// The values bound when the task `id` is deleted at the time `now`.
pub open spec fn spec_delete_values(id: i64, now: i64) -> Seq<SqlValue> {
    seq![SqlValue::Integer(now), SqlValue::Integer(id)]
}

/// The values bound when a task is inserted. Its id is not among them:
/// the store assigns one.
pub fn insert_values(todo: &Todo) -> (values: Vec<SqlValue>)
    ensures
        values@ == spec_insert_values(*todo),
{
    let values = vec![
        SqlValue::Text(todo.text.clone()),
        SqlValue::Integer(if todo.completed { 1 } else { 0 }),
        SqlValue::Integer(todo.created_at),
        SqlValue::Integer(DatabaseHandler::priority_to_int(todo.priority)),
    ];
    values
}

/// The values bound when a task is updated at the time `now`.
pub fn update_values(todo: &Todo, now: i64) -> (values: Vec<SqlValue>)
    ensures
        values@ == spec_update_values(*todo, now),
{
    let values = vec![
        SqlValue::Text(todo.text.clone()),
        SqlValue::Integer(if todo.completed { 1 } else { 0 }),
        SqlValue::Integer(now),
        match todo.completed_at {
            Some(at) => SqlValue::Integer(at),
            None => SqlValue::Null,
        },
        SqlValue::Integer(DatabaseHandler::priority_to_int(todo.priority)),
        SqlValue::Integer(todo.id),
    ];
    values
}

/// The values bound when the task `id` is deleted at the time `now`.
pub fn delete_values(id: i64, now: i64) -> (values: Vec<SqlValue>)
    ensures
        values@ == spec_delete_values(id, now),
{
    let values = vec![SqlValue::Integer(now), SqlValue::Integer(id)];
    values
}

/// The error of a statement that failed on the open database.
fn operation_error(error: &rusqlite::Error) -> (e: DatabaseError)
    ensures
        e is OperationError,
{
    DatabaseError::OperationError(describe(error))
}

/// The open database.
pub struct DatabaseHandler {
    conn: rusqlite::Connection,
    /// How many writing statements were handed to the database.
    issued: Ghost<nat>,
}

impl DatabaseHandler {
    /// The number of writing statements that were handed to the database
    /// since it was opened, the making of the table not counted.
    pub closed spec fn writes(&self) -> nat {
        self.issued@
    }

    /// The number that stands for a priority in the table.
    pub fn priority_to_int(priority: Option<Priority>) -> (n: i64)
        ensures
            n == spec_priority_to_int(priority),
    {
        match priority {
            Some(Priority::Low) => 3,
            Some(Priority::Medium) => 2,
            Some(Priority::High) => 1,
            None => 0,
        }
    }

    /// The priority for which a number of the table stands.
    pub fn int_to_priority(priority: i64) -> (p: Option<Priority>)
        ensures
            p == spec_int_to_priority(priority),
    {
        match priority {
            3 => Some(Priority::Low),
            2 => Some(Priority::Medium),
            1 => Some(Priority::High),
            _ => None,
        }
    }

    /// Opens the database at `db_path` and makes the table where it is
    /// missing. Whatever fails here is a `ConnectionError`.
    pub fn new(db_path: &str) -> (opened: Result<Self, DatabaseError>)
        ensures
            opened matches Ok(handler) ==> handler.writes() == 0,
            opened matches Err(e) ==> e is ConnectionError,
    {
        match open_connection(db_path) {
            Ok(conn) => {
                let handler = DatabaseHandler { conn, issued: Ghost(0) };
                match handler.init_database() {
                    Ok(()) => Ok(handler),
                    Err(e) => Err(e),
                }
            },
            Err(e) => Err(DatabaseError::ConnectionError(describe(&e))),
        }
    }

    /// Makes the table where it is missing.
    fn init_database(&self) -> (made: Result<(), DatabaseError>)
        ensures
            made matches Err(e) ==> e is ConnectionError,
    {
        let none: Vec<SqlValue> = Vec::new();
        match execute(&self.conn, CREATE_TABLE, &none) {
            Ok(_) => Ok(()),
            Err(e) => Err(DatabaseError::ConnectionError(describe(&e))),
        }
    }

    /// Every row of the table, deleted or not, by ascending id.
    pub fn load_rows(&self) -> (loaded: Result<Vec<StoredRow>, DatabaseError>)
        ensures
            loaded matches Err(e) ==> e is OperationError,
    {
        match query_rows(&self.conn, SELECT_ROWS) {
            Ok(rows) => Ok(rows),
            Err(e) => Err(operation_error(&e)),
        }
    }

    /// The tasks that are not deleted, the highest priority first and
    /// among tasks of one priority the one created last first: whatever
    /// rows the database gave, the list is `spec_active_todos` of them.
    pub fn load_todos(&self) -> (loaded: Result<Vec<Todo>, DatabaseError>)
        ensures
            loaded matches Ok(todos) ==> exists|rows: Seq<StoredRow>|
                todos@ == spec_active_todos(rows),
            loaded matches Err(e) ==> e is OperationError,
    {
        match self.load_rows() {
            Ok(rows) => Ok(active_todos(&rows)),
            Err(e) => Err(e),
        }
    }

    /// Runs one statement in a transaction of its own and commits it: the
    /// statement is applied wholly or, on any failure, not at all. Returns
    /// the row id of the last insert on the connection.
    fn apply(&mut self, sql: &str, values: &Vec<SqlValue>) -> (applied: Result<i64, DatabaseError>)
        ensures
            applied matches Err(e) ==> e is OperationError,
            final(self).writes() == old(self).writes() + 1,
    {
        proof {
            self.issued = Ghost((self.issued@ + 1) as nat);
        }
        match begin(&mut self.conn) {
            Ok(tx) => match execute(connection_of(&tx), sql, values) {
                Ok(_) => {
                    let id = last_insert_rowid(connection_of(&tx));
                    match commit(tx) {
                        Ok(()) => Ok(id),
                        Err(e) => Err(operation_error(&e)),
                    }
                },
                Err(e) => Err(operation_error(&e)),
            },
            Err(e) => Err(operation_error(&e)),
        }
    }

    /// Inserts the task as a new row, in a transaction of its own, and
    /// returns the id that the database gave it. The id that `todo`
    /// carries is not written. What is bound to the statement is
    /// `spec_insert_values`; whether it succeeds rests with the database.
    pub fn insert_todo(&mut self, todo: &Todo) -> (inserted: Result<i64, DatabaseError>)
        ensures
            inserted matches Err(e) ==> e is OperationError,
            final(self).writes() == old(self).writes() + 1,
    {
        let values = insert_values(todo);
        self.apply(INSERT_ROW, &values)
    }

    /// Writes text, completion and priority of the task to the row of
    /// its id, unless that row is deleted, and stamps the row with the
    /// time of the call, in a transaction of its own. No such row is no
    /// error. What is bound to the statement is `spec_update_values`;
    /// whether it succeeds rests with the database.
    pub fn update_todo(&mut self, todo: &Todo) -> (updated: Result<(), DatabaseError>)
        ensures
            updated matches Err(e) ==> e is OperationError,
            final(self).writes() == old(self).writes() + 1,
    {
        let values = update_values(todo, current_time());
        match self.apply(UPDATE_ROW, &values) {
            Ok(_) => Ok(()),
            Err(e) => Err(e),
        }
    }

    /// Marks the row of `id` as deleted at the time of the call, in a
    /// transaction of its own; the row stays in the table. No such row,
    /// or one already deleted, is no error. What is bound to the
    /// statement is `spec_delete_values`; whether it succeeds rests with
    /// the database.
    pub fn delete_todo(&mut self, id: i64) -> (deleted: Result<(), DatabaseError>)
        ensures
            deleted matches Err(e) ==> e is OperationError,
            final(self).writes() == old(self).writes() + 1,
    {
        let values = delete_values(id, current_time());
        match self.apply(DELETE_ROW, &values) {
            Ok(_) => Ok(()),
            Err(e) => Err(e),
        }
    }
}

} // verus!

use super::category::Category;
use super::task::Task;
use chrono::NaiveDateTime;
use rusqlite::types::Value;
use rusqlite::{Connection, Row};
use vstd::prelude::*;

verus! {

/// `rusqlite::Connection`, an open SQLite database. Opaque: what it holds is
/// outside every contract.
#[verifier::external_type_specification]
#[verifier::external_body]
pub struct ExConnection(Connection);

/// `rusqlite::Error`, what a failed SQLite call reports. Opaque: it is only
/// handed on.
#[verifier::external_type_specification]
#[verifier::external_body]
pub struct ExSqliteError(rusqlite::Error);

/// `rusqlite::types::Value`, a value that SQLite can store. Opaque: it is
/// only handed to a statement.
#[verifier::external_type_specification]
#[verifier::external_body]
pub struct ExSqliteValue(Value);

/// `rusqlite::Row`, one row of a running query. Opaque: it is only handed
/// to [`Task::map`].
#[verifier::external_type_specification]
#[verifier::external_body]
pub struct ExRow<'stmt>(Row<'stmt>);

/// Why a storage operation did not deliver.
#[derive(Debug)]
pub enum StorageError {
    /// SQLite refused the statement, or a row could not be decoded.
    Database(rusqlite::Error),
    /// No task is stored under the id that was asked for.
    NotFound,
}

/// A value bound to a placeholder of a statement.
#[derive(Debug, Clone, PartialEq, Eq)]
pub enum SqlValue {
    Null,
    Integer(i64),
    Text(String),
}

/// The mathematical value of a [`SqlValue`].
pub enum SqlValueView {
    Null,
    Integer(i64),
    Text(Seq<char>),
}

impl View for SqlValue {
    type V = SqlValueView;

    open spec fn view(&self) -> SqlValueView {
        match self {
            SqlValue::Null => SqlValueView::Null,
            SqlValue::Integer(i) => SqlValueView::Integer(*i),
            SqlValue::Text(s) => SqlValueView::Text(s@),
        }
    }
}

/// The views of the values of a sequence, in the same order.
pub open spec fn sql_views(values: Seq<SqlValue>) -> Seq<SqlValueView> {
    values.map_values(|v: SqlValue| v@)
}

/// How an optional text is bound: a missing text is SQL `NULL`.
pub open spec fn text_or_null(text: Option<Seq<char>>) -> SqlValueView {
    match text {
        Some(s) => SqlValueView::Text(s),
        None => SqlValueView::Null,
    }
}

/// How an optional id is bound: a missing id is SQL `NULL`.
pub open spec fn id_or_null(id: Option<i64>) -> SqlValueView {
    match id {
        Some(i) => SqlValueView::Integer(i),
        None => SqlValueView::Null,
    }
}

/// Turns each bound value into the `rusqlite::types::Value` of the same kind
/// and content, in the same order.
#[verifier::external_body]
fn sqlite_values(params: &Vec<SqlValue>) -> Vec<Value> {
    params.iter().map(
        |p| match p {
            SqlValue::Null => Value::Null,
            SqlValue::Integer(i) => Value::Integer(*i),
            SqlValue::Text(s) => Value::Text(s.clone()),
        },
    ).collect()
}

/// Runs one statement with `Connection::execute`, its placeholders bound to
/// `values` in order, and hands back the number of rows that it changed.
/// Whether the statement succeeds depends on the database, so nothing is
/// claimed of the result.
#[verifier::external_body]
fn execute(conn: &Connection, sql: &str, values: Vec<Value>) -> Result<usize, rusqlite::Error> {
    conn.execute(sql, rusqlite::params_from_iter(values))
}

/// `Connection::last_insert_rowid`: the row id of the most recent successful
/// insert on this connection. It depends on the database, so nothing is
/// claimed of it.
#[verifier::external_body]
fn last_insert_rowid(conn: &Connection) -> i64 {
    conn.last_insert_rowid()
}

/// Runs one query with `Connection::prepare` and `Statement::query_map`, its
/// placeholders bound to `values` in order, and hands back what [`Task::map`]
/// made of each row, in the order in which SQLite returned them. What the
/// rows hold depends on the database, so nothing is claimed of the result.
#[verifier::external_body]
fn query_tasks(conn: &Connection, sql: &str, values: Vec<Value>) -> Result<
    Vec<Result<Task, rusqlite::Error>>,
    rusqlite::Error,
> {
    let mut stmt = conn.prepare(sql)?;
    let rows = stmt.query_map(rusqlite::params_from_iter(values), |row| Task::map(row))?;
    Ok(rows.collect())
}

const CREATE_CATEGORIES: &'static str =
    "create table if not exists categories (
        id integer primary key,
        name text not null,
        color text not null
    )";

const CREATE_TASKS: &'static str =
    "create table if not exists tasks (
        id integer primary key,
        title text not null,
        description text,
        created_at datetime default current_timestamp,
        completed boolean not null default 0,
        completed_at datetime default null,
        category_id integer,
        foreign key (category_id) references categories(id) on delete set null
    )";

const SELECT_TASKS: &'static str =
    "select t.title, t.description, t.created_at, t.completed, tt.name, tt.color, t.id
     from tasks t inner join categories tt on tt.id = t.category_id";

const SELECT_TASK: &'static str =
    "select t.title, t.description, t.created_at, t.completed, tt.name, tt.color, t.id
     from tasks t inner join categories tt on tt.id = t.category_id
     where t.id = ?1";

const INSERT_CATEGORY: &'static str = "insert into categories (name, color) values (?1, ?2)";

const INSERT_TASK: &'static str = "insert into tasks (title, description, category_id) values (?1, ?2, ?3)";

const UPDATE_TASK: &'static str = "update tasks set title = ?2, description = ?3 where tasks.id = ?1";

const DELETE_TASK: &'static str = "delete from tasks where tasks.id = ?1";

/// Binds an optional text.
fn bind_text(text: &Option<String>) -> (v: SqlValue)
    ensures
        v@ == text_or_null(super::task::text_view(*text)),
{
    match text {
        Some(s) => SqlValue::Text(s.clone()),
        None => SqlValue::Null,
    }
}

/// Binds an optional id.
fn bind_id(id: Option<i64>) -> (v: SqlValue)
    ensures
        v@ == id_or_null(id),
{
    match id {
        Some(i) => SqlValue::Integer(i),
        None => SqlValue::Null,
    }
}

/// What a decoding step makes of the first row of a query for one task.
pub open spec fn first_decoded(rows: Seq<Result<Task, rusqlite::Error>>) -> Result<
    Task,
    StorageError,
> {
    if rows.len() == 0 {
        Err(StorageError::NotFound)
    } else {
        match rows[0] {
            Ok(task) => Ok(task),
            Err(e) => Err(StorageError::Database(e)),
        }
    }
}

/// Picks the first row of a query for one task: no row means that the task
/// is not stored, a row that could not be decoded is an error.
pub fn first_row(rows: Vec<Result<Task, rusqlite::Error>>) -> (r: Result<Task, StorageError>)
    ensures
        r == first_decoded(rows@),
{
    let mut rows = rows;
    if rows.len() == 0 {
        Err(StorageError::NotFound)
    } else {
        match rows.swap_remove(0) {
            Ok(task) => Ok(task),
            Err(e) => Err(StorageError::Database(e)),
        }
    }
}

/// `Row::get` for a text column that must hold a text: the text of column
/// `index` of the row, or the error that `rusqlite` reports where the column
/// is missing or holds no text. What a row holds depends on the database, so
/// nothing is claimed of the result.
#[verifier::external_body]
fn column_text(row: &Row, index: usize) -> Result<String, rusqlite::Error> {
    row.get(index)
}

/// `Row::get` for a text column that may be `NULL`. Nothing is claimed of
/// the result.
#[verifier::external_body]
fn column_opt_text(row: &Row, index: usize) -> Result<Option<String>, rusqlite::Error> {
    row.get(index)
}

/// `Row::get` for a date and time column that may be `NULL`. Nothing is
/// claimed of the result.
#[verifier::external_body]
fn column_opt_time(row: &Row, index: usize) -> Result<Option<NaiveDateTime>, rusqlite::Error> {
    row.get(index)
}

/// `Row::get` for a boolean column that may be `NULL`. Nothing is claimed of
/// the result.
#[verifier::external_body]
fn column_opt_bool(row: &Row, index: usize) -> Result<Option<bool>, rusqlite::Error> {
    row.get(index)
}

/// `Row::get` for an integer column that may be `NULL`. Nothing is claimed
/// of the result.
#[verifier::external_body]
fn column_opt_id(row: &Row, index: usize) -> Result<Option<i64>, rusqlite::Error> {
    row.get(index)
}

impl Task {
    /// Assembles a task from the seven columns of the task query. The
    /// completion time is no column of the query: a loaded task has none.
    pub fn from_columns(
        title: String,
        description: Option<String>,
        created_at: Option<NaiveDateTime>,
        completed: Option<bool>,
        name: String,
        color: String,
        id: Option<i64>,
    ) -> (t: Task)
        ensures
            t.title == title,
            t.description == description,
            t.created_at == created_at,
            t.completed == completed,
            t.completed_at is None,
            t.category.name == name,
            t.category.color == color,
            t.id == id,
    {
        Task {
            title,
            description,
            created_at,
            completed_at: None,
            completed,
            category: Category { name, color },
            id,
        }
    }

    /// Decodes one row of the task query, column by column, and assembles
    /// the task with [`Task::from_columns`]: the title from column 0, the
    /// description from 1, the creation time from 2, the completion from 3,
    /// the name and the color of the category from 4 and 5, the id from 6.
    /// The first column that cannot be decoded is the error.
    pub fn map(row: &Row) -> (r: Result<Task, rusqlite::Error>)
        ensures
            r matches Ok(t) ==> t.completed_at is None,
    {
        let title = match column_text(row, 0) {
            Ok(v) => v,
            Err(e) => {
                return Err(e);
            },
        };
        let description = match column_opt_text(row, 1) {
            Ok(v) => v,
            Err(e) => {
                return Err(e);
            },
        };
        let created_at = match column_opt_time(row, 2) {
            Ok(v) => v,
            Err(e) => {
                return Err(e);
            },
        };
        let completed = match column_opt_bool(row, 3) {
            Ok(v) => v,
            Err(e) => {
                return Err(e);
            },
        };
        let name = match column_text(row, 4) {
            Ok(v) => v,
            Err(e) => {
                return Err(e);
            },
        };
        let color = match column_text(row, 5) {
            Ok(v) => v,
            Err(e) => {
                return Err(e);
            },
        };
        let id = match column_opt_id(row, 6) {
            Ok(v) => v,
            Err(e) => {
                return Err(e);
            },
        };
        Ok(Task::from_columns(title, description, created_at, completed, name, color, id))
    }
}

impl Task {
    /// The values bound when the category of the task is inserted: its name and
    /// its color.
    pub fn category_params(&self) -> (params: Vec<SqlValue>)
        ensures
            sql_views(params@) == seq![
                SqlValueView::Text(self@.category.name),
                SqlValueView::Text(self@.category.color),
            ],
    {
        let params = vec![
            SqlValue::Text(self.category.name.clone()),
            SqlValue::Text(self.category.color.clone()),
        ];
        assert(sql_views(params@) =~= seq![
            SqlValueView::Text(self@.category.name),
            SqlValueView::Text(self@.category.color),
        ]);
        params
    }

    /// The values bound when the task is inserted under the category row
    /// `category_id`: its title, its description and that row's id.
    pub fn insert_params(&self, category_id: i64) -> (params: Vec<SqlValue>)
        ensures
            sql_views(params@) == seq![
                SqlValueView::Text(self@.title),
                text_or_null(self@.description),
                SqlValueView::Integer(category_id),
            ],
    {
        let params = vec![
            SqlValue::Text(self.title.clone()),
            bind_text(&self.description),
            SqlValue::Integer(category_id),
        ];
        assert(sql_views(params@) =~= seq![
            SqlValueView::Text(self@.title),
            text_or_null(self@.description),
            SqlValueView::Integer(category_id),
        ]);
        params
    }

    /// The values bound when the texts of the task are written back: its id, its
    /// title and its description. Nothing else of the task is written.
    pub fn update_params(&self) -> (params: Vec<SqlValue>)
        ensures
            sql_views(params@) == seq![
                id_or_null(self@.id),
                SqlValueView::Text(self@.title),
                text_or_null(self@.description),
            ],
    {
        let params = vec![
            bind_id(self.id),
            SqlValue::Text(self.title.clone()),
            bind_text(&self.description),
        ];
        assert(sql_views(params@) =~= seq![
            id_or_null(self@.id),
            SqlValueView::Text(self@.title),
            text_or_null(self@.description),
        ]);
        params
    }

    /// The value bound when the row stored under `id` is read or deleted.
    pub fn id_params(id: Option<i64>) -> (params: Vec<SqlValue>)
        ensures
            sql_views(params@) == seq![id_or_null(id)],
    {
        let params = vec![bind_id(id)];
        assert(sql_views(params@) =~= seq![id_or_null(id)]);
        params
    }
}

/// The rows that were decoded, in their order; the others are left out.
pub open spec fn decoded<T, E>(rows: Seq<Result<T, E>>) -> Seq<T>
    decreases rows.len(),
{
    if rows.len() == 0 {
        Seq::empty()
    } else {
        match rows.last() {
            Ok(t) => decoded(rows.drop_last()).push(t),
            Err(_) => decoded(rows.drop_last()),
        }
    }
}

/// Keeps the rows that were decoded and skips the others.
pub fn keep_decoded<T, E>(rows: Vec<Result<T, E>>) -> (kept: Vec<T>)
    ensures
        kept@ == decoded(rows@),
{
    let mut kept: Vec<T> = Vec::new();
    let ghost all = rows@;
    for row in it: rows.into_iter()
        invariant
            it.seq() == all,
            kept@ == decoded(all.take(it.index() as int)),
    {
        assert(all.take(it.index() + 1).drop_last() =~= all.take(it.index() as int));
        match row {
            Ok(t) => kept.push(t),
            Err(_) => {},
        }
    }
    assert(all.take(all.len() as int) =~= all);
    kept
}

impl Task {
    /// Creates the category table and the task table where they do not exist
    /// yet. It can be run on a database that has them. Whether it succeeds is
    /// for SQLite to say; a failure is the one that SQLite reported.
    pub fn ensure_tables(conn: &Connection) -> (r: Result<(), StorageError>)
        ensures
            r matches Err(e) ==> e is Database,
    {
        let none: Vec<SqlValue> = Vec::new();
        match from_sqlite(execute(conn, CREATE_CATEGORIES, sqlite_values(&none))) {
            Ok(_) => {},
            Err(e) => {
                return Err(e);
            },
        }
        match from_sqlite(execute(conn, CREATE_TASKS, sqlite_values(&none))) {
            Ok(_) => Ok(()),
            Err(e) => Err(e),
        }
    }

    /// Loads the tasks, in the order in which SQLite returns them. A row that
    /// cannot be decoded is skipped. Which tasks there are is for SQLite to
    /// say; a failure is the one that SQLite reported for the query.
    ///
    /// Known limitation: tasks are joined to their categories, so a task
    /// whose category row is gone is not loaded, though it is still stored.
    pub fn get_tasks(conn: &Connection) -> (r: Result<Vec<Task>, StorageError>)
        ensures
            r matches Err(e) ==> e is Database,
    {
        let none: Vec<SqlValue> = Vec::new();
        match from_sqlite(query_tasks(conn, SELECT_TASKS, sqlite_values(&none))) {
            Ok(rows) => Ok(keep_decoded(rows)),
            Err(e) => Err(e),
        }
    }

    /// Stores `task`: inserts a category row, then the task row under that
    /// category, and returns the id that SQLite gave the task. A failure is
    /// the one that SQLite reported for the insert that it refused.
    ///
    /// Known limitation: the category row is always a new one, also where a
    /// category of that name and color is stored already. Categories pile up
    /// by one row per task.
    pub fn add_task(conn: &Connection, task: &Task) -> (r: Result<i64, StorageError>)
        ensures
            r matches Err(e) ==> e is Database,
    {
        match from_sqlite(execute(conn, INSERT_CATEGORY, sqlite_values(&task.category_params()))) {
            Ok(_) => {},
            Err(e) => {
                return Err(e);
            },
        }
        let category_id = last_insert_rowid(conn);
        match from_sqlite(
            execute(conn, INSERT_TASK, sqlite_values(&task.insert_params(category_id))),
        ) {
            Ok(_) => Ok(last_insert_rowid(conn)),
            Err(e) => Err(e),
        }
    }

    /// Loads the task stored under `id`: what [`first_row_under`] makes of
    /// the rows that SQLite returns for that id. A failure of the query is
    /// the one that SQLite reported.
    pub fn get_task(conn: &Connection, id: i64) -> (r: Result<Task, StorageError>)
        ensures
            r matches Ok(task) ==> task.id == Some(id),
    {
        match from_sqlite(
            query_tasks(conn, SELECT_TASK, sqlite_values(&Task::id_params(Some(id)))),
        ) {
            Ok(rows) => first_row_under(rows, id),
            Err(e) => Err(e),
        }
    }

    /// Writes the title and the description of `task` to the row stored under
    /// its id. Completion and category are not written. A failure is the one
    /// that SQLite reported.
    pub fn update_task(conn: &Connection, task: &Task) -> (r: Result<(), StorageError>)
        ensures
            r matches Err(e) ==> e is Database,
    {
        match from_sqlite(execute(conn, UPDATE_TASK, sqlite_values(&task.update_params()))) {
            Ok(_) => Ok(()),
            Err(e) => Err(e),
        }
    }

    /// Deletes the row stored under the id of `task`. A failure is the one
    /// that SQLite reported.
    pub fn delete_task(conn: &Connection, task: &Task) -> (r: Result<(), StorageError>)
        ensures
            r matches Err(e) ==> e is Database,
    {
        match from_sqlite(execute(conn, DELETE_TASK, sqlite_values(&Task::id_params(task.id)))) {
            Ok(_) => Ok(()),
            Err(e) => Err(e),
        }
    }
}

/// What is made of the rows of a query for the task under `id`: the first
/// row as [`first_decoded`] reads it, if it is a task under that id. A task
/// under another id is no answer to the question: no task was found.
pub open spec fn found_under(rows: Seq<Result<Task, rusqlite::Error>>, id: i64) -> Result<
    Task,
    StorageError,
> {
    match first_decoded(rows) {
        Ok(task) => if task.id == Some(id) {
            Ok(task)
        } else {
            Err(StorageError::NotFound)
        },
        Err(e) => Err(e),
    }
}

/// Picks the task under `id` from the rows of a query for it.
pub fn first_row_under(rows: Vec<Result<Task, rusqlite::Error>>, id: i64) -> (r: Result<
    Task,
    StorageError,
>)
    ensures
        r == found_under(rows@, id),
{
    match first_row(rows) {
        Ok(task) => match task.id {
            Some(found) => if found == id {
                Ok(task)
            } else {
                Err(StorageError::NotFound)
            },
            None => Err(StorageError::NotFound),
        },
        Err(e) => Err(e),
    }
}

/// What the library reports of an answer of SQLite: a success as it is, a
/// failure as a database failure that holds what SQLite reported.
pub open spec fn reported<T>(answer: Result<T, rusqlite::Error>) -> Result<T, StorageError> {
    match answer {
        Ok(t) => Ok(t),
        Err(e) => Err(StorageError::Database(e)),
    }
}

/// Takes in an answer of SQLite.
pub fn from_sqlite<T>(answer: Result<T, rusqlite::Error>) -> (r: Result<T, StorageError>)
    ensures
        r == reported(answer),
{
    match answer {
        Ok(t) => Ok(t),
        Err(e) => Err(StorageError::Database(e)),
    }
}

} // verus!

//! The repository: one SQLite table holding at most one record per path.
use vstd::prelude::*;

use crate::clock::{local_now, local_now_text, Timestamp};
use crate::codec::{compress_vec, concat_all, views};
use crate::entry::{
    entries_from_rows, entry_of_row, first_at_path, first_entry_at, has_path, Entry, EntryBuilder,
    StoredRow,
};
use crate::sql::{
    create_table_sql, create_table_text, delete_all_sql, delete_all_text, delete_where_sql,
    delete_where_text, insert_sql, insert_text, select_desc_sql, select_desc_text, select_where_sql,
    select_where_text,
};
use rusqlite::Connection;

verus! {

#[verifier::external_type_specification]
#[verifier::external_body]
pub struct ExConnection(rusqlite::Connection);

#[verifier::external_type_specification]
#[verifier::external_body]
pub struct ExSqlError(rusqlite::Error);

/// Why a repository operation did not succeed.
#[derive(Debug)]
pub enum DbError {
    /// No record is stored at the path: the path is not tracked.
    NotFound,
    /// The store rejected a statement.
    StorageFailure(rusqlite::Error),
    /// Removing the record that an insert was to replace failed; nothing was
    /// inserted.
    ReplaceConflict(rusqlite::Error),
}

/// The names of the text columns between the key and the time stamp, in
/// table order.
pub open spec fn text_column_names() -> Seq<Seq<char>> {
    seq!["name"@, "path"@, "project_name"@, "language"@, "preserve"@]
}

/// The names of the columns an insert writes: all but the key.
pub open spec fn insert_column_names() -> Seq<Seq<char>> {
    text_column_names().push("created_at"@)
}

/// The names of every column, in the order that rows are read.
pub open spec fn all_column_names() -> Seq<Seq<char>> {
    seq!["id"@] + insert_column_names()
}

/// The values an insert of `eb` writes, in the order of `insert_column_names`.
pub open spec fn insert_values(eb: EntryBuilder, stamp: Seq<char>) -> Seq<Seq<char>> {
    seq![eb.name@, eb.path@, eb.project_name@, eb.language@, concat_all(views(eb.preserve@)), stamp]
}

fn text_columns() -> (r: Vec<String>)
    ensures
        views(r@) == text_column_names(),
{
    let mut cols: Vec<String> = Vec::new();
    cols.push("name".to_string());
    cols.push("path".to_string());
    cols.push("project_name".to_string());
    cols.push("language".to_string());
    cols.push("preserve".to_string());
    assert(views(cols@) =~= text_column_names());
    cols
}

fn insert_columns() -> (r: Vec<String>)
    ensures
        views(r@) == insert_column_names(),
{
    let mut cols = text_columns();
    let ghost before = cols@;
    cols.push("created_at".to_string());
    assert(views(cols@) =~= views(before).push("created_at"@));
    cols
}

fn all_columns() -> (r: Vec<String>)
    ensures
        views(r@) == all_column_names(),
{
    let mut cols: Vec<String> = Vec::new();
    cols.push("id".to_string());
    let mut rest = insert_columns();
    let ghost first = cols@;
    let ghost tail = rest@;
    cols.append(&mut rest);
    assert(cols@ =~= first + tail);
    assert(views(cols@) =~= views(first) + views(tail));
    assert(views(first) =~= seq!["id"@]);
    cols
}

/// The statement that creates the table unless it exists.
pub fn schema_statement() -> (r: String)
    ensures
        r@ == create_table_text("store"@, "id"@, text_column_names(), "created_at"@),
{
    create_table_sql("store", "id", &text_columns(), "created_at")
}

/// The statement that reads every row, newest key first.
pub fn list_statement() -> (r: String)
    ensures
        r@ == select_desc_text("store"@, all_column_names(), "id"@),
{
    select_desc_sql("store", &all_columns(), "id")
}

/// The statement that reads the row at `path`, if any.
pub fn lookup_statement(path: &str) -> (r: String)
    ensures
        r@ == select_where_text("store"@, all_column_names(), "path"@, path@, 1),
{
    select_where_sql("store", &all_columns(), "path", path, 1)
}

/// The statement that removes the rows at `path`.
pub fn delete_statement(path: &str) -> (r: String)
    ensures
        r@ == delete_where_text("store"@, "path"@, path@),
{
    delete_where_sql("store", "path", path)
}

/// The statement that removes every row.
pub fn clear_statement() -> (r: String)
    ensures
        r@ == delete_all_text("store"@),
{
    delete_all_sql("store")
}

/// The statement that inserts `eb`, stamped with `stamp`, its preserve list
/// encoded.
pub fn insert_statement(eb: &EntryBuilder, stamp: &str) -> (r: String)
    ensures
        r@ == insert_text("store"@, insert_column_names(), insert_values(*eb, stamp@)),
{
    let mut values: Vec<String> = Vec::new();
    values.push(eb.name.clone());
    values.push(eb.path.clone());
    values.push(eb.project_name.clone());
    values.push(eb.language.clone());
    values.push(compress_vec(&eb.preserve));
    values.push(stamp.to_string());
    assert(views(values@) =~= insert_values(*eb, stamp@));
    let cols = insert_columns();
    assert(cols@.len() == views(cols@).len());
    insert_sql("store", &cols, &values)
}

/// Relies on `rusqlite::Connection::open`: opens, or creates, the database
/// file at `path`. What comes back depends on the file system.
#[verifier::external_body]
pub fn connect_to_db(path: &str) -> Result<Connection, rusqlite::Error> {
    Connection::open(path)
}

/// Relies on `rusqlite::Connection::execute` with no parameters: the number
/// of rows changed, or the store's error. What comes back depends on the
/// database.
#[verifier::external_body]
fn execute(conn: &Connection, sql: &str) -> Result<usize, rusqlite::Error> {
    conn.execute(sql, [])
}

/// Relies on `rusqlite::Connection::prepare` and `Statement::query_map`:
/// every row of the query, its seven columns read in order, or the store's
/// error. What comes back depends on the database.
#[verifier::external_body]
fn query_rows(conn: &Connection, sql: &str) -> Result<Vec<StoredRow>, rusqlite::Error> {
    let mut stmt = conn.prepare(sql)?;
    let rows = stmt.query_map([], |row| Ok(StoredRow {
        id: row.get(0)?,
        name: row.get(1)?,
        path: row.get(2)?,
        project_name: row.get(3)?,
        language: row.get(4)?,
        preserve: row.get(5)?,
        created_at: row.get(6)?,
    }))?;
    let out = rows.collect();
    out
}

/// The result of a statement that changes rows: the count, or the store's
/// error as a `StorageFailure`.
pub fn count_outcome(res: Result<usize, rusqlite::Error>) -> (r: Result<usize, DbError>)
    ensures
        res matches Ok(n) ==> r == Ok::<usize, DbError>(n),
        res matches Err(e) ==> r == Err::<usize, DbError>(DbError::StorageFailure(e)),
{
    match res {
        Ok(n) => Ok(n),
        Err(e) => Err(DbError::StorageFailure(e)),
    }
}

/// Whether an insert that replaces a record may go on after removing it:
/// `None` when the removal succeeded, else the `ReplaceConflict` that stops
/// the insert before anything is written.
pub fn after_removal(removal: Result<usize, rusqlite::Error>) -> (r: Option<DbError>)
    ensures
        removal is Ok <==> r is None,
        removal matches Err(e) ==> r == Some(DbError::ReplaceConflict(e)),
{
    match removal {
        Ok(_) => None,
        Err(e) => Some(DbError::ReplaceConflict(e)),
    }
}

/// The records of the rows a listing query read, in the same order, with
/// `now` for any time stamp that cannot be read.
pub fn listing_outcome(rows: Result<Vec<StoredRow>, rusqlite::Error>, now: Timestamp) -> (r: Result<
    Vec<Entry>,
    DbError,
>)
    ensures
        rows matches Err(e) ==> r == Err::<Vec<Entry>, DbError>(DbError::StorageFailure(e)),
        rows matches Ok(v) ==> (r matches Ok(w) ==> w@.len() == v@.len() && forall|i: int|
            0 <= i < v@.len() ==> entry_of_row(#[trigger] w@[i], v@[i], now)),
        rows is Ok ==> r is Ok,
        now.wf() ==> (r matches Ok(w) ==> forall|i: int|
            0 <= i < w@.len() ==> (#[trigger] w@[i]).created_at.wf()),
{
    match rows {
        Ok(v) => Ok(entries_from_rows(v, now)),
        Err(e) => Err(DbError::StorageFailure(e)),
    }
}

/// The record at `path` among the rows a lookup query read: `NotFound`
/// exactly when none of them lies there.
pub fn lookup_outcome(rows: Result<Vec<StoredRow>, rusqlite::Error>, path: &str, now: Timestamp) -> (r:
    Result<Entry, DbError>)
    ensures
        rows matches Err(e) ==> r == Err::<Entry, DbError>(DbError::StorageFailure(e)),
        rows matches Ok(v) ==> (r is Ok <==> has_path(v@, path@)),
        rows matches Ok(v) ==> (r matches Err(x) ==> x is NotFound),
        rows matches Ok(v) ==> (r matches Ok(e) ==> first_entry_at(e, v@, path@, now)),
        r matches Ok(e) ==> e.path@ == path@,
        now.wf() ==> (r matches Ok(e) ==> e.created_at.wf()),
{
    match rows {
        Ok(v) => match first_at_path(&v, path, now) {
            Some(e) => Ok(e),
            None => Err(DbError::NotFound),
        },
        Err(e) => Err(DbError::StorageFailure(e)),
    }
}

/// Creates the table unless it exists; on an existing table it changes nothing.
pub fn prep_db(conn: &Connection) -> (r: Result<usize, DbError>)
    ensures
        r matches Err(e) ==> e is StorageFailure,
{
    let sql = schema_statement();
    count_outcome(execute(conn, sql.as_str()))
}

/// Every record, newest key first; an empty store gives an empty list.
pub fn get_all(conn: &Connection) -> (r: Result<Vec<Entry>, DbError>)
    ensures
        r matches Err(e) ==> e is StorageFailure,
        r matches Ok(v) ==> forall|i: int| 0 <= i < v@.len() ==> (#[trigger] v@[i]).created_at.wf(),
{
    let sql = list_statement();
    listing_outcome(query_rows(conn, sql.as_str()), local_now())
}

/// The record stored at `path`, or `NotFound` when the path is not tracked.
pub fn does_exist(conn: &Connection, path: &str) -> (r: Result<Entry, DbError>)
    ensures
        r matches Ok(e) ==> e.path@ == path@ && e.created_at.wf(),
        r matches Err(e) ==> e is NotFound || e is StorageFailure,
{
    let sql = lookup_statement(path);
    lookup_outcome(query_rows(conn, sql.as_str()), path, local_now())
}

/// Removes the record at `path`, if any, and gives the number of rows removed.
pub fn delete_entry(conn: &Connection, path: &str) -> (r: Result<usize, DbError>)
    ensures
        r matches Err(e) ==> e is StorageFailure,
{
    let sql = delete_statement(path);
    count_outcome(execute(conn, sql.as_str()))
}

/// Removes every record in one statement.
pub fn delete_all(conn: &Connection) -> (r: Result<usize, DbError>)
    ensures
        r matches Err(e) ==> e is StorageFailure,
{
    let sql = clear_statement();
    count_outcome(execute(conn, sql.as_str()))
}

/// Stores `eb` as the one record at its path, replacing any record there,
/// and gives back the record as read from the store.
///
/// When removing the old record fails, nothing is inserted and the failure
/// comes back as `ReplaceConflict`. A failed insert shows as the read-back
/// not finding the path.
pub fn insert_into_db(conn: &Connection, eb: EntryBuilder) -> (r: Result<Entry, DbError>)
    ensures
        r matches Ok(e) ==> e.path@ == eb.path@ && e.created_at.wf(),
{
    let stamp = local_now_text();
    let sql = insert_statement(&eb, stamp.as_str());
    if let Ok(_) = does_exist(conn, eb.path.as_str()) {
        let removal = delete_statement(eb.path.as_str());
        if let Some(e) = after_removal(execute(conn, removal.as_str())) {
            return Err(e);
        }
    }
    let _ = execute(conn, sql.as_str());
    does_exist(conn, eb.path.as_str())
}

} // verus!

use vstd::prelude::*;

use crate::model::RawRow;
use crate::TodoError;

verus! {

#[verifier::external_type_specification]
#[verifier::external_body]
pub struct ExConnection(rusqlite::Connection);

#[verifier::external_type_specification]
#[verifier::external_body]
pub struct ExSqlError(rusqlite::Error);

/// Relies on std::path::Path::exists: whether something exists at the
/// path on disk at the moment of the call.
#[verifier::external_body]
pub(crate) fn path_exists(p: &str) -> (b: bool) {
    std::path::Path::new(p).exists()
}

/// Relies on rusqlite::Connection::open_with_flags with the CREATE and
/// READ_WRITE flags: opens the database file at the path, creating it
/// first when absent.
#[verifier::external_body]
fn db_open_create(p: &str) -> (r: Result<rusqlite::Connection, rusqlite::Error>) {
    rusqlite::Connection::open_with_flags(
        p,
        rusqlite::OpenFlags::SQLITE_OPEN_CREATE | rusqlite::OpenFlags::SQLITE_OPEN_READ_WRITE,
    )
}

/// Relies on rusqlite::Connection::open_with_flags with the READ_WRITE
/// flag alone: opens an existing database file at the path.
#[verifier::external_body]
fn db_open_existing(p: &str) -> (r: Result<rusqlite::Connection, rusqlite::Error>) {
    rusqlite::Connection::open_with_flags(p, rusqlite::OpenFlags::SQLITE_OPEN_READ_WRITE)
}

/// Create the todos table. Relies on rusqlite::Connection::execute
/// running the statement; every field of the todo record has its column
/// here, with the uuid enforced unique.
#[verifier::external_body]
pub fn init(conn: &rusqlite::Connection) -> (r: Result<(), rusqlite::Error>) {
    conn.execute(
        "CREATE TABLE todos (id INTEGER PRIMARY KEY, uuid TEXT NOT NULL UNIQUE, created_at TEXT NOT NULL, updated_at TEXT NOT NULL, done INTEGER NOT NULL, title TEXT NOT NULL, start_date TEXT, start_time TEXT, description TEXT, url TEXT)",
        (),
    )?;
    Ok(())
}

/// Relies on rusqlite::Connection::execute: inserts the row's values, in
/// the column order of the schema; the id is left to autoincrement.
#[verifier::external_body]
pub(crate) fn db_insert_row(conn: &rusqlite::Connection, row: &RawRow) -> (r: Result<
    usize,
    rusqlite::Error,
>) {
    conn.execute(
        "INSERT INTO todos (uuid, created_at, updated_at, done, title, start_date, start_time, description, url) VALUES (?1, ?2, ?3, ?4, ?5, ?6, ?7, ?8, ?9)",
        (
            &row.uuid, &row.created_at, &row.updated_at, row.done, &row.title,
            row.start_date.as_deref(), row.start_time.as_deref(),
            row.description.as_deref(), row.url.as_deref(),
        ),
    )
}

/// Relies on rusqlite's prepare and query_map: every stored row, each
/// column handed back as the plain value it was stored as.
#[verifier::external_body]
pub(crate) fn db_select_all(conn: &rusqlite::Connection) -> (r: Result<
    Vec<RawRow>,
    rusqlite::Error,
>) {
    let mut stmt = conn.prepare(
        "SELECT id, uuid, created_at, updated_at, done, title, start_date, start_time, description, url FROM todos",
    )?;
    let rows = stmt.query_map([], |row| {
        Ok(RawRow {
            id: row.get(0)?, uuid: row.get(1)?, created_at: row.get(2)?,
            updated_at: row.get(3)?, done: row.get(4)?, title: row.get(5)?,
            start_date: row.get(6)?, start_time: row.get(7)?,
            description: row.get(8)?, url: row.get(9)?,
        })
    })?;
    rows.collect()
}

/// Relies on rusqlite::Connection::execute: sets `done` and `updated_at`
/// on the rows whose uuid column equals `uuid`, returning how many
/// changed.
#[verifier::external_body]
pub(crate) fn db_update_done(
    conn: &rusqlite::Connection,
    uuid: &str,
    done: i64,
    updated_at: &str,
) -> (r: Result<usize, rusqlite::Error>) {
    conn.execute(
        "UPDATE todos SET done = ?1, updated_at = ?2 WHERE uuid = ?3",
        (done, updated_at, uuid),
    )
}

/// Relies on rusqlite::Connection::execute: writes the row's editable
/// columns back over the rows whose uuid column equals the row's uuid,
/// returning how many changed.
#[verifier::external_body]
pub(crate) fn db_update_row(conn: &rusqlite::Connection, row: &RawRow) -> (r: Result<
    usize,
    rusqlite::Error,
>) {
    conn.execute(
        "UPDATE todos SET updated_at = ?1, title = ?2, start_date = ?3, start_time = ?4, description = ?5, url = ?6 WHERE uuid = ?7",
        (
            &row.updated_at, &row.title, row.start_date.as_deref(),
            row.start_time.as_deref(), row.description.as_deref(),
            row.url.as_deref(), &row.uuid,
        ),
    )
}

/// Open the database file at `p` for read and write. When no file exists
/// there yet, this is the first run: create it and its schema. Any
/// filesystem or database failure surfaces as `Storage` and nothing else.
pub fn open_db(p: &str) -> (r: Result<rusqlite::Connection, TodoError>)
    ensures
        r is Err ==> r == Err::<rusqlite::Connection, TodoError>(TodoError::Storage),
{
    if !path_exists(p) {
        let conn = match db_open_create(p) {
            Ok(c) => c,
            Err(_) => {
                return Err(TodoError::Storage);
            },
        };
        match init(&conn) {
            Ok(_) => Ok(conn),
            Err(_) => Err(TodoError::Storage),
        }
    } else {
        match db_open_existing(p) {
            Ok(c) => Ok(c),
            Err(_) => Err(TodoError::Storage),
        }
    }
}

} // verus!

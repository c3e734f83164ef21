//! The persistence gateway: a SQLite connection driven through sqlx.
//!
//! The store is an external collaborator.  Its replies depend on its own
//! state, so the trusted wrappers below promise nothing about the values
//! that come back, with one exception: a row fetched with `WHERE id = ?`
//! carries the bound identifier, a comparison SQLite makes on the number
//! itself, free of any collating sequence.  Text lookups promise no such
//! thing — on a foreign schema the column may compare text under another
//! collation — so the entity operations check the fetched key themselves,
//! in verified code.  Every operation of the entity modules is specified
//! for every reply the store may give.
//!
//! Every wrapper drives the connection with `Runtime::block_on`, which
//! panics when invoked from inside an asynchronous execution context: the
//! store operations must be called from synchronous code only.

use crate::errors::PersistenceError;
use sqlx::Row;
use vstd::prelude::*;
use vstd::string::*;

verus! {

#[verifier::external_type_specification]
#[verifier::external_body]
pub struct ExSqliteConnection(sqlx::SqliteConnection);

#[verifier::external_type_specification]
#[verifier::external_body]
pub struct ExSqlxError(sqlx::Error);

#[verifier::external_type_specification]
#[verifier::external_body]
pub struct ExRuntime(tokio::runtime::Runtime);

/// A handle on the relational store: a SQLite connection together with the
/// runtime that drives its asynchronous driver.
pub struct Store {
    runtime: tokio::runtime::Runtime,
    connection: sqlx::SqliteConnection,
}

/// Relies on `tokio::runtime::Builder::build` and
/// `sqlx::Connection::connect`: opens a SQLite connection at the given URL.
#[verifier::external_body]
pub(crate) fn open_store(url: &str) -> (r: Result<Store, sqlx::Error>) {
    let runtime = match tokio::runtime::Builder::new_current_thread().enable_all().build() {
        Ok(runtime) => runtime,
        Err(e) => {
            return Err(sqlx::Error::Io(e));
        },
    };
    let connection = runtime.block_on(
        <sqlx::SqliteConnection as sqlx::Connection>::connect(url),
    )?;
    Ok(Store { runtime, connection })
}

/// Relies on `sqlx::raw_sql` and its `execute`: runs the statements of the
/// given SQL text on the connection.
#[verifier::external_body]
pub(crate) fn execute_batch(store: &mut Store, sql: &str) -> (r: Result<(), sqlx::Error>) {
    let Store { runtime, connection } = store;
    runtime.block_on(sqlx::raw_sql(sqlx::AssertSqlSafe(sql)).execute(&mut *connection))?;
    Ok(())
}

/// Relies on `sqlx::query`, `bind` and `execute`: inserts a location-type row
/// and returns the connection's `last_insert_rowid`.
#[verifier::external_body]
pub(crate) fn insert_location_type(store: &mut Store, name: &String) -> (r: Result<
    i64,
    sqlx::Error,
>) {
    let Store { runtime, connection } = store;
    let done = runtime.block_on(
        sqlx::query("INSERT INTO location_types (name) VALUES (?)")
            .bind(name.as_str())
            .execute(&mut *connection),
    )?;
    Ok(done.last_insert_rowid())
}

/// Relies on `sqlx::query`, `bind` and `execute`: inserts a location row
/// without a barcode and returns the connection's `last_insert_rowid`.
#[verifier::external_body]
pub(crate) fn insert_location(store: &mut Store, name: &String, location_type_id: u32) -> (r:
    Result<i64, sqlx::Error>) {
    let Store { runtime, connection } = store;
    let done = runtime.block_on(
        sqlx::query("INSERT INTO locations (name, location_type_id) VALUES (?, ?)")
            .bind(name.as_str())
            .bind(location_type_id)
            .execute(&mut *connection),
    )?;
    Ok(done.last_insert_rowid())
}

/// Relies on `sqlx::query`, `bind` and `execute`: writes the barcode column
/// of the location row with the given identifier.
#[verifier::external_body]
pub(crate) fn update_location_barcode(store: &mut Store, barcode: &String, id: u32) -> (r: Result<
    (),
    sqlx::Error,
>) {
    let Store { runtime, connection } = store;
    runtime.block_on(
        sqlx::query("UPDATE locations SET barcode = ? WHERE id = ?")
            .bind(barcode.as_str())
            .bind(id)
            .execute(&mut *connection),
    )?;
    Ok(())
}

/// Relies on `sqlx::query`, `bind`, `fetch_optional` and `Row::try_get`:
/// fetches at most one location row by barcode, as plain column values.
/// Nothing is promised of the fetched values: the column's collating
/// sequence decides what `WHERE barcode = ?` matches.
#[verifier::external_body]
pub(crate) fn select_location_by_barcode(store: &mut Store, barcode: &String) -> (r: Result<
    Option<(u32, String, Option<String>, u32)>,
    sqlx::Error,
>) {
    let Store { runtime, connection } = store;
    let row = runtime.block_on(
        sqlx::query("SELECT id, name, barcode, location_type_id FROM locations WHERE barcode = ?")
            .bind(barcode.as_str())
            .fetch_optional(&mut *connection),
    )?;
    match row {
        None => Ok(None),
        Some(row) => Ok(Some((row.try_get(0)?, row.try_get(1)?, row.try_get(2)?, row.try_get(3)?))),
    }
}

/// Relies on `sqlx::query`, `bind`, `fetch_one` and `Row::try_get`: fetches
/// the location row with the given identifier, as plain column values; a
/// zero-row result is the driver's `RowNotFound` failure.  The statement's
/// `WHERE id = ?` pins the fetched row's identifier to the bound key: the
/// comparison is numeric, free of any collating sequence, and a value of
/// another type either never compares equal or fails `try_get`'s type
/// check.
#[verifier::external_body]
pub(crate) fn select_location_by_id(store: &mut Store, id: u32) -> (r: Result<
    (u32, String, Option<String>, u32),
    sqlx::Error,
>)
    ensures
        r matches Ok(row) ==> row.0 == id,
{
    let Store { runtime, connection } = store;
    let row = runtime.block_on(
        sqlx::query("SELECT id, name, barcode, location_type_id FROM locations WHERE id = ?")
            .bind(id)
            .fetch_one(&mut *connection),
    )?;
    Ok((row.try_get(0)?, row.try_get(1)?, row.try_get(2)?, row.try_get(3)?))
}

/// Relies on `sqlx::query`, `bind` and `execute`: inserts a labware row and
/// returns the connection's `last_insert_rowid`.
#[verifier::external_body]
pub(crate) fn insert_labware(store: &mut Store, barcode: &String, location_id: u32) -> (r: Result<
    i64,
    sqlx::Error,
>) {
    let Store { runtime, connection } = store;
    let done = runtime.block_on(
        sqlx::query("INSERT INTO labwares (barcode, location_id) VALUES (?, ?)")
            .bind(barcode.as_str())
            .bind(location_id)
            .execute(&mut *connection),
    )?;
    Ok(done.last_insert_rowid())
}

/// Relies on `sqlx::query`, `bind` and `execute`: writes the location column
/// of the labware row with the given identifier.
#[verifier::external_body]
pub(crate) fn update_labware_location(store: &mut Store, id: u32, location_id: u32) -> (r: Result<
    (),
    sqlx::Error,
>) {
    let Store { runtime, connection } = store;
    runtime.block_on(
        sqlx::query("UPDATE labwares SET location_id = ? WHERE id = ?")
            .bind(location_id)
            .bind(id)
            .execute(&mut *connection),
    )?;
    Ok(())
}

/// Relies on `sqlx::query`, `bind`, `fetch_optional` and `Row::try_get`:
/// fetches at most one labware row by barcode, as plain column values.
/// Nothing is promised of the fetched values: the column's collating
/// sequence decides what `WHERE barcode = ?` matches.
#[verifier::external_body]
pub(crate) fn select_labware_by_barcode(store: &mut Store, barcode: &String) -> (r: Result<
    Option<(u32, String, u32)>,
    sqlx::Error,
>) {
    let Store { runtime, connection } = store;
    let row = runtime.block_on(
        sqlx::query("SELECT id, barcode, location_id FROM labwares WHERE barcode = ?")
            .bind(barcode.as_str())
            .fetch_optional(&mut *connection),
    )?;
    match row {
        None => Ok(None),
        Some(row) => Ok(Some((row.try_get(0)?, row.try_get(1)?, row.try_get(2)?))),
    }
}

/// Relies on the `Display` implementation of `sqlx::Error`, through
/// `ToString::to_string`: the store's own description of a failure.
#[verifier::external_body]
pub(crate) fn error_message(e: &sqlx::Error) -> (r: String) {
    e.to_string()
}

/// Wraps a store failure's description as the library's persistence error.
pub(crate) fn persistence_error(e: &sqlx::Error) -> PersistenceError {
    PersistenceError { message: error_message(e) }
}

/// Narrows a store-assigned row identifier to the entity identifier type,
/// truncating as the schema's 32-bit identifiers do.
pub(crate) fn rowid_to_id(rowid: i64) -> (r: u32)
    ensures
        r == rowid as u32,
{
    #[verifier::truncate] (rowid as u32)
}

/// Opens a connection at the given URL and installs the schema: the
/// `location_types`, `locations` and `labwares` tables.
pub fn init_db(url: &str) -> (r: Result<Store, PersistenceError>) {
    let mut store = match open_store(url) {
        Ok(s) => s,
        Err(e) => {
            return Err(persistence_error(&e));
        },
    };
    let outcome = execute_batch(
        &mut store,
        "CREATE TABLE IF NOT EXISTS location_types (id INTEGER PRIMARY KEY AUTOINCREMENT, name TEXT NOT NULL);\nCREATE TABLE IF NOT EXISTS locations (id INTEGER PRIMARY KEY AUTOINCREMENT, name TEXT NOT NULL, barcode TEXT, location_type_id INTEGER);\nCREATE TABLE IF NOT EXISTS labwares (id INTEGER PRIMARY KEY AUTOINCREMENT, barcode TEXT NOT NULL, location_id INTEGER);",
    );
    match outcome {
        Ok(_) => Ok(store),
        Err(e) => Err(persistence_error(&e)),
    }
}

/// The SQLite URL for a database environment: `sqlite://<path>/<env>.db`, or
/// `sqlite://<env>.db` when no folder is given.
pub fn db_url(path: Option<&str>, environment: &str) -> (r: String)
    ensures
        path matches Some(p) ==> r@ == "sqlite://"@ + p@ + "/"@ + environment@ + ".db"@,
        path is None ==> r@ == "sqlite://"@ + environment@ + ".db"@,
{
    let mut url = String::from_str("sqlite://");
    match path {
        Some(p) => {
            url.append(p);
            url.append("/");
        },
        None => {},
    }
    url.append(environment);
    url.append(".db");
    url
}

} // verus!

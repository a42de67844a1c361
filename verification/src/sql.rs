use vstd::prelude::*;

use crate::cell::CellRow;
use crate::ProvenanceRecord;

verus! {

/// Makes Verus aware of `rusqlite::Connection`, the handle owning one open
/// connection to the embedded SQLite store backing a DMS file. The value is
/// opaque to verification; every read goes through the wrappers below.
#[verifier::external_type_specification]
#[verifier::external_body]
pub struct ExConnection(rusqlite::Connection);

/// Makes Verus aware of `rusqlite::Error`, the error type of the backing
/// storage engine. Opaque; it is only carried into `Error::Db` as the cause.
#[verifier::external_type_specification]
#[verifier::external_body]
pub struct ExRusqliteError(rusqlite::Error);

/// Relies on rusqlite::Connection::open_with_flags with the read-write,
/// create, URI and no-mutex flags: opens the store at `path` for read-write,
/// single-threaded access, creating an empty store when the file is absent,
/// and fails when the path cannot be opened as a SQLite container.
#[verifier::external_body]
pub(crate) fn open_connection_create(path: &str) -> (r: Result<
    rusqlite::Connection,
    rusqlite::Error,
>) {
    rusqlite::Connection::open_with_flags(
        path,
        rusqlite::OpenFlags::SQLITE_OPEN_READ_WRITE | rusqlite::OpenFlags::SQLITE_OPEN_CREATE
            | rusqlite::OpenFlags::SQLITE_OPEN_URI | rusqlite::OpenFlags::SQLITE_OPEN_NO_MUTEX,
    )
}

/// Relies on rusqlite::Connection::open_with_flags with the read-write, URI
/// and no-mutex flags (no create flag): opens an existing store at `path`
/// and fails when the file is absent or is not a SQLite container.
#[verifier::external_body]
pub(crate) fn open_connection_existing(path: &str) -> (r: Result<
    rusqlite::Connection,
    rusqlite::Error,
>) {
    rusqlite::Connection::open_with_flags(
        path,
        rusqlite::OpenFlags::SQLITE_OPEN_READ_WRITE | rusqlite::OpenFlags::SQLITE_OPEN_URI
            | rusqlite::OpenFlags::SQLITE_OPEN_NO_MUTEX,
    )
}

/// Relies on rusqlite::Connection::query_row over the dms_version table:
/// returns the major and minor columns of the first row the store yields,
/// the engine's no-rows error when the table is empty, and its query error
/// when the query fails (for instance when the table is absent).
#[verifier::external_body]
pub(crate) fn query_version_row(db: &rusqlite::Connection) -> (r: Result<
    (i32, i32),
    rusqlite::Error,
>) {
    db.query_row(
        "SELECT major, minor FROM dms_version",
        [],
        |row| Ok((row.get("major")?, row.get("minor")?)),
    )
}

/// Relies on rusqlite::Statement::query_map over the global_cell table: one
/// entry per row, in the store's native return order, with the id column as
/// an integer and the x, y, z columns as 64-bit reals carried out as their
/// raw bit patterns; a coordinate whose stored value is not a real yields
/// the engine's invalid-column-type error.
#[verifier::external_body]
pub(crate) fn query_cell_rows(db: &rusqlite::Connection) -> (r: Result<
    Vec<CellRow>,
    rusqlite::Error,
>) {
    let bits = |row: &rusqlite::Row, i: usize| -> Result<u64, rusqlite::Error> {
        match row.get_ref(i)? {
            rusqlite::types::ValueRef::Real(v) => Ok(v.to_bits()),
            other => Err(
                rusqlite::Error::InvalidColumnType(i, String::from("real"), other.data_type()),
            ),
        }
    };
    let mut stmt = db.prepare("SELECT id, x, y, z FROM global_cell")?;
    let rows = stmt.query_map(
        [],
        |row| Ok(CellRow { id: row.get(0)?, x: bits(row, 1)?, y: bits(row, 2)?, z: bits(row, 3)? }),
    )?;
    rows.collect()
}

/// Relies on rusqlite::Statement::query_map over the provenance table: one
/// record per row, in the store's native return order, with every column
/// carried over verbatim.
#[verifier::external_body]
pub(crate) fn query_provenance_rows(db: &rusqlite::Connection) -> (r: Result<
    Vec<ProvenanceRecord>,
    rusqlite::Error,
>) {
    let mut stmt = db.prepare(
        "SELECT id, version, timestamp, user, workdir, cmdline, executable FROM provenance",
    )?;
    let rows = stmt.query_map([], |row| Ok(ProvenanceRecord {
        id: row.get(0)?,
        version: row.get(1)?,
        timestamp: row.get(2)?,
        user: row.get(3)?,
        workdir: row.get(4)?,
        cmdline: row.get(5)?,
        executable: row.get(6)?,
    }))?;
    rows.collect()
}

} // verus!

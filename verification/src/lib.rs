//! Reader for DMS molecular-structure files: an embedded relational store
//! holding a schema version, a 3x3 global-cell (lattice) matrix, and an
//! append-style provenance log. The readers validate the table shapes and
//! fail fast on malformed or partially written files; nothing here writes
//! or repairs a file.

use vstd::prelude::*;

pub mod cell;
mod sql;

pub use crate::cell::CellRow;
pub use crate::cell::GlobalCell;
pub use crate::cell::LatticeVector;
pub use crate::cell::cell_from_rows;
pub use crate::cell::cell_of_rows;
pub use crate::cell::cell_rows_well_formed;
pub use crate::cell::vector_of_row;

verus! {

/// A failure while reading a DMS file.
#[derive(Debug)]
pub enum DmsError {
    /// The backing storage engine failed: open failure, malformed container,
    /// query failure, or no rows on a single-row projection. The engine's
    /// own error is kept as the cause.
    Db(rusqlite::Error),
    /// The global_cell table does not hold exactly the expected three
    /// sequentially identified rows.
    GlobalCellMalformed,
}

impl DmsError {
    /// A short description of the failure, as rendered at the consumer
    /// boundary.
    pub fn message(&self) -> (r: &'static str)
        ensures
            self is Db ==> r@ == "backing database error"@,
            self is GlobalCellMalformed ==> r@ == "global_cell table malformed"@,
    {
        match self {
            DmsError::Db(_) => "backing database error",
            DmsError::GlobalCellMalformed => "global_cell table malformed",
        }
    }
}

/// Schema version of a DMS file: the on-disk format revision, immutable
/// once read.
#[derive(Debug, Clone, Copy, PartialEq, Eq, Structural)]
pub struct DMSVer {
    pub major: i32,
    pub minor: i32,
}

impl DMSVer {
    pub fn new(major: i32, minor: i32) -> (v: DMSVer)
        ensures
            v.major == major,
            v.minor == minor,
    {
        DMSVer { major, minor }
    }
}

/// One historical tool invocation that produced or modified the file, as one
/// row of the provenance table; the rows form an append-only audit log.
#[derive(Debug, Clone)]
pub struct ProvenanceRecord {
    pub id: i32,
    pub version: String,
    pub timestamp: String,
    pub user: String,
    pub workdir: String,
    pub cmdline: String,
    pub executable: String,
}

/// An open DMS file: exclusively owns the single connection to the embedded
/// relational store backing the file for as long as the handle lives; the
/// connection is released when the handle is dropped, on every exit path.
pub struct DMSFile {
    db: rusqlite::Connection,
}

impl DMSFile {
    /// Opens the DMS file at `path` for read-write, single-threaded access.
    /// With `create_if_missing` set, a missing file is created as an empty,
    /// schema-less store (the readers then fail on their absent tables);
    /// without it, a missing file is an error. One handle must not be used
    /// from more than one thread without external serialization.
    pub fn open_with(path: &str, create_if_missing: bool) -> (r: Result<DMSFile, DmsError>)
        ensures
            r matches Err(e) ==> e is Db,
    {
        let conn = if create_if_missing {
            sql::open_connection_create(path)
        } else {
            sql::open_connection_existing(path)
        };
        match conn {
            Ok(db) => Ok(DMSFile { db }),
            Err(e) => Err(DmsError::Db(e)),
        }
    }

    /// Opens the DMS file at `path`, creating an empty store when the file
    /// is missing.
    pub fn open(path: &str) -> (r: Result<DMSFile, DmsError>)
        ensures
            r matches Err(e) ==> e is Db,
    {
        DMSFile::open_with(path, true)
    }

    /// Reads the schema version from the dms_version table: the first row
    /// the store yields (the table is expected to hold one logical row).
    /// Fails with `DmsError::Db` when the table is absent or empty (the
    /// store's no-rows signal) or on any engine failure; it never invents a
    /// default version.
    pub fn get_ver(&self) -> (r: Result<DMSVer, DmsError>)
        ensures
            r matches Err(e) ==> e is Db,
    {
        match sql::query_version_row(&self.db) {
            Ok((major, minor)) => Ok(DMSVer::new(major, minor)),
            Err(e) => Err(DmsError::Db(e)),
        }
    }

    /// Reads and validates the 3x3 global-cell matrix: queries the rows of
    /// the global_cell table and accepts them exactly when the first three
    /// carry the identifiers 1, 2, 3 in that order (`cell_from_rows` states
    /// the validation exactly, whatever rows the store yields). Fails with
    /// `DmsError::Db` when the query itself fails and with
    /// `DmsError::GlobalCellMalformed` on any deviation among the rows; no
    /// partial matrix is ever returned.
    pub fn global_cell(&self) -> (r: Result<GlobalCell, DmsError>)
        ensures
            r matches Err(e) ==> e is Db || e is GlobalCellMalformed,
    {
        match sql::query_cell_rows(&self.db) {
            Ok(rows) => cell_from_rows(&rows),
            Err(e) => Err(DmsError::Db(e)),
        }
    }

    /// Reads the provenance log: every row of the provenance table,
    /// verbatim, in the store's native return order; any number of rows,
    /// including none, is valid here. Fails only with `DmsError::Db`, on query
    /// failure.
    pub fn provenance(&self) -> (r: Result<Vec<ProvenanceRecord>, DmsError>)
        ensures
            r matches Err(e) ==> e is Db,
    {
        match sql::query_provenance_rows(&self.db) {
            Ok(records) => Ok(records),
            Err(e) => Err(DmsError::Db(e)),
        }
    }
}

} // verus!

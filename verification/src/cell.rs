use vstd::prelude::*;

use crate::DmsError;

verus! {

/// One raw row of the global_cell table: the 1-based row identifier and the
/// three components of one lattice vector, each a 64-bit real carried as its
/// raw bit pattern (the reader validates identifiers only and moves the
/// components through unchanged).
#[derive(Debug, Clone, Copy, PartialEq, Eq, Structural)]
pub struct CellRow {
    pub id: i64,
    pub x: u64,
    pub y: u64,
    pub z: u64,
}

/// One lattice vector of the global cell: x, y and z components as the raw
/// bit patterns of 64-bit reals.
#[derive(Debug, Clone, Copy, PartialEq, Eq, Structural)]
pub struct LatticeVector {
    pub x: u64,
    pub y: u64,
    pub z: u64,
}

/// The 3x3 global-cell matrix of lattice vectors defining the periodic
/// simulation box: `a` holds lattice vector 1, `b` vector 2, `c` vector 3.
#[derive(Debug, Clone, Copy, PartialEq, Eq, Structural)]
pub struct GlobalCell {
    pub a: LatticeVector,
    pub b: LatticeVector,
    pub c: LatticeVector,
}

/// The global_cell table is well formed exactly when it yields at least
/// three rows and the first three carry the identifiers 1, 2, 3 in that
/// order; rows beyond the third are never inspected.
pub open spec fn cell_rows_well_formed(rows: Seq<CellRow>) -> bool {
    &&& rows.len() >= 3
    &&& rows[0].id == 1
    &&& rows[1].id == 2
    &&& rows[2].id == 3
}

/// The lattice vector held by one row, components verbatim.
pub open spec fn vector_of_row(row: CellRow) -> LatticeVector {
    LatticeVector { x: row.x, y: row.y, z: row.z }
}

/// The matrix assembled from the first three rows, components verbatim.
pub open spec fn cell_of_rows(rows: Seq<CellRow>) -> GlobalCell {
    GlobalCell {
        a: vector_of_row(rows[0]),
        b: vector_of_row(rows[1]),
        c: vector_of_row(rows[2]),
    }
}

/// Validates the rows of the global_cell table and assembles the matrix.
/// Succeeds exactly on a well-formed table, with every component moved over
/// verbatim; on any deviation (too few rows, or an out-of-sequence
/// identifier among the first three) it reports the table malformed and
/// returns no partial matrix. The check is order sensitive: it walks the
/// rows with an index counter and fails fast on the first mismatch.
pub fn cell_from_rows(rows: &Vec<CellRow>) -> (r: Result<GlobalCell, DmsError>)
    ensures
        r is Ok <==> cell_rows_well_formed(rows@),
        r matches Ok(c) ==> c == cell_of_rows(rows@),
        r matches Err(e) ==> e is GlobalCellMalformed,
{
    let mut i: usize = 0;
    while i < 3
        invariant
            i <= 3,
            i <= rows@.len(),
            forall|j: int| 0 <= j < i ==> rows@[j].id == j + 1,
        decreases 3 - i,
    {
        if i >= rows.len() {
            return Err(DmsError::GlobalCellMalformed);
        }
        if rows[i].id != (i as i64) + 1 {
            return Err(DmsError::GlobalCellMalformed);
        }
        i += 1;
    }
    Ok(GlobalCell {
        a: LatticeVector { x: rows[0].x, y: rows[0].y, z: rows[0].z },
        b: LatticeVector { x: rows[1].x, y: rows[1].y, z: rows[1].z },
        c: LatticeVector { x: rows[2].x, y: rows[2].y, z: rows[2].z },
    })
}

} // verus!


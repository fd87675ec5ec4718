use vstd::prelude::*;

verus! {

/// Number of lettered grid columns, `A` to `Z`.
pub const COLUMN_LETTERS: u32 = 26;

/// A grid row.
#[derive(Debug, Clone, Copy, PartialEq, Eq, Structural)]
pub struct Row(pub i32);

/// A grid column, named by a letter; `-` outside the lettered columns.
#[derive(Debug, Clone, Copy, PartialEq, Eq, Structural)]
pub struct Column(pub char);

/// Grid coordinates, either of which may be unknown.
#[derive(Debug, Clone, Copy, PartialEq, Eq, Structural)]
pub struct GridCoordinate {
    pub row: Option<Row>,
    pub column: Option<Column>,
}

/// The column `offset` whole columns west of the origin: the letters `A`
/// to `Z`, and `-` beyond them.
pub open spec fn column_at(offset: int) -> char {
    if 0 <= offset < COLUMN_LETTERS {
        (65 + offset) as char
    } else {
        '-'
    }
}

impl Column {
    /// The column `offset` whole columns west of the origin.
    pub fn from_offset(offset: u32) -> (c: Column)
        ensures
            c.0 == column_at(offset as int),
            offset < COLUMN_LETTERS ==> 'A' <= c.0 <= 'Z',
    {
        if offset < COLUMN_LETTERS {
            let b: u8 = 65u8 + (offset as u8);
            Column(b as char)
        } else {
            Column('-')
        }
    }
}

} // verus!

use vstd::prelude::*;

verus! {

/// A physical terminal coordinate: `row` counts screen rows from the top,
/// `col` counts rendered columns from the left.
#[derive(Clone, Copy, PartialEq, Eq, Structural, Debug)]
pub struct Position {
    pub row: usize,
    pub col: usize,
}

impl Default for Position {
    fn default() -> (p: Position)
        ensures
            p.row == 0,
            p.col == 0,
    {
        Position { row: 0, col: 0 }
    }
}

impl Position {
    /// Component-wise difference, clamped at zero.
    pub fn saturating_sub(&self, other: Self) -> (r: Self)
        ensures
            r.row == if self.row >= other.row { self.row - other.row } else { 0 },
            r.col == if self.col >= other.col { self.col - other.col } else { 0 },
    {
        Self {
            row: self.row.saturating_sub(other.row),
            col: self.col.saturating_sub(other.col),
        }
    }

    pub fn new(row: usize, col: usize) -> (p: Self)
        ensures
            p.row == row,
            p.col == col,
    {
        Self { row, col }
    }
}

} // verus!

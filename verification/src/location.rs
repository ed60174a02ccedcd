//! A screen-space point in x/y form, convertible to a row/column position.

use crate::position::Position;
use vstd::prelude::*;

verus! {

/// A point with `x` counting columns and `y` counting rows.
#[derive(Clone, Copy, PartialEq, Eq, Structural, Debug)]
pub struct Location {
    pub x: usize,
    pub y: usize,
}

impl Default for Location {
    fn default() -> (loc: Location)
        ensures
            loc.x == 0,
            loc.y == 0,
    {
        Location { x: 0, y: 0 }
    }
}

impl From<Location> for Position {
    fn from(location: Location) -> Position {
        Position { col: location.x, row: location.y }
    }
}

impl vstd::std_specs::convert::FromSpecImpl<Location> for Position {
    open spec fn obeys_from_spec() -> bool {
        true
    }

    open spec fn from_spec(location: Location) -> Position {
        Position { col: location.x, row: location.y }
    }
}

impl Location {
    /// Component-wise difference, clamped at zero.
    pub fn subtract(&self, other: &Self) -> (r: Self)
        ensures
            r.x == if self.x >= other.x {
                self.x - other.x
            } else {
                0
            },
            r.y == if self.y >= other.y {
                self.y - other.y
            } else {
                0
            },
    {
        Self { x: self.x.saturating_sub(other.x), y: self.y.saturating_sub(other.y) }
    }
}

} // verus!

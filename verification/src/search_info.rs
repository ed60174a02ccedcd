//! State remembered while an interactive search is in progress.

use crate::line::Line;
use crate::position::Position;
use crate::view::Location;
use vstd::prelude::*;

verus! {

/// Where the cursor and the scroll offset stood when the search began, and
/// the query typed so far; dismissing the search restores the position.
pub struct SearchInfo {
    pub prev_location: Location,
    pub prev_scroll_offset: Position,
    pub query: Line,
}

} // verus!

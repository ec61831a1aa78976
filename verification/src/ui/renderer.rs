//! Geometry of the main screen.

use vstd::prelude::*;
use crate::ui::layouts::{Direction, Rect, inside, middle, popup_columns, split};

verus! {

/// An area `percent_x`% as wide and `percent_y`% as high as `r`: the middle
/// column of the middle row, both split by percentages between equal
/// margins (see [`crate::ui::layouts::popup_percent_rows_spec`]). It lies
/// within `r`; its exact place and size are ratatui's solver's choice.
pub fn centered_rect(percent_x: u16, percent_y: u16, r: Rect) -> (c: Rect)
    requires
        percent_x <= 100,
        percent_y <= 100,
    ensures
        inside(c, r),
{
    let rows = split(Direction::Vertical, &popup_columns(percent_y), r);
    let row = middle(&rows);
    let cols = split(Direction::Horizontal, &popup_columns(percent_x), row);
    middle(&cols)
}

} // verus!

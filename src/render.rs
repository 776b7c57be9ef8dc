use crate::grid::{border_plan, is_border_plan, CellBorder};
use crate::header::{clock_text, format_elapsed};
use vstd::prelude::*;

verus! {

/// What one frame shows, apart from where it is placed: the header's clock and the border
/// of every cell of the grid.
pub struct RenderModel {
    pub header_text: String,
    pub cells: Vec<Vec<CellBorder>>,
}

/// The frame for `elapsed_millis` of elapsed time over a grid of `cols` by `rows` cells.
pub fn render_model(elapsed_millis: u128, cols: usize, rows: usize) -> (m: RenderModel)
    ensures
        m.header_text@ == clock_text((elapsed_millis / 1000) as nat),
        is_border_plan(m.cells@, cols as nat, rows as nat),
{
    RenderModel { header_text: format_elapsed(elapsed_millis), cells: border_plan(cols, rows) }
}

} // verus!

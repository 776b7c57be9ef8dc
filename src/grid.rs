use vstd::prelude::*;

verus! {

/// The glyph at a point where grid lines meet.
#[derive(Clone, Copy, Debug, PartialEq, Eq, Structural)]
pub enum Junction {
    /// An outer corner of the grid: the cell's own corner glyph.
    Corner,
    /// On the top edge, a line running down.
    TeeDown,
    /// On the bottom edge, a line running up.
    TeeUp,
    /// On the left edge, a line running right.
    TeeRight,
    /// On the right edge, a line running left.
    TeeLeft,
    /// Inside the grid, four lines meeting.
    Cross,
}

/// Which edges one cell draws and the junction at each of its corners.
#[derive(Clone, Copy, Debug, PartialEq, Eq, Structural)]
pub struct CellBorder {
    pub top: bool,
    pub bottom: bool,
    pub left: bool,
    pub right: bool,
    pub top_left: Junction,
    pub top_right: Junction,
    pub bottom_left: Junction,
    pub bottom_right: Junction,
}

/// The junction at grid point `(x, y)` of a grid of `cols` by `rows` cells, where
/// `0 <= x <= cols` numbers the vertical lines and `0 <= y <= rows` the horizontal ones.
pub open spec fn junction_spec(x: nat, y: nat, cols: nat, rows: nat) -> Junction {
    let outer_x = x == 0 || x == cols;
    let outer_y = y == 0 || y == rows;
    if outer_x && outer_y {
        Junction::Corner
    } else if y == 0 {
        Junction::TeeDown
    } else if y == rows {
        Junction::TeeUp
    } else if x == 0 {
        Junction::TeeRight
    } else if x == cols {
        Junction::TeeLeft
    } else {
        Junction::Cross
    }
}

/// The border of cell `(col, row)`.
///
/// Every cell draws its bottom edge and only the first row its top edge, so each
/// horizontal line is drawn by the cells above it. The vertical line between the first two
/// columns is the second column's left edge; every other vertical line is the right edge of
/// the column to its left, and the grid's left side is the first column's left edge.
pub open spec fn cell_border_spec(col: nat, row: nat, cols: nat, rows: nat) -> CellBorder {
    CellBorder {
        top: row == 0,
        bottom: true,
        left: col <= 1,
        right: col >= 1 || cols == 1,
        top_left: junction_spec(col, row, cols, rows),
        top_right: junction_spec(col + 1, row, cols, rows),
        bottom_left: junction_spec(col, row + 1, cols, rows),
        bottom_right: junction_spec(col + 1, row + 1, cols, rows),
    }
}

/// `plan` holds, for each column of a grid of `cols` by `rows` cells, the borders of the
/// column's cells from top to bottom.
pub open spec fn is_border_plan(plan: Seq<Vec<CellBorder>>, cols: nat, rows: nat) -> bool {
    &&& plan.len() == cols
    &&& forall|c: int| 0 <= c < cols ==> (#[trigger] plan[c])@.len() == rows
    &&& forall|c: int, r: int|
        0 <= c < cols && 0 <= r < rows ==> (#[trigger] plan[c]@[r]) == cell_border_spec(
            c as nat,
            r as nat,
            cols,
            rows,
        )
}

/// The junction at grid point `(x, y)`.
pub fn junction(x: usize, y: usize, cols: usize, rows: usize) -> (r: Junction)
    requires
        x <= cols,
        y <= rows,
    ensures
        r == junction_spec(x as nat, y as nat, cols as nat, rows as nat),
{
    let outer_x = x == 0 || x == cols;
    let outer_y = y == 0 || y == rows;
    if outer_x && outer_y {
        Junction::Corner
    } else if y == 0 {
        Junction::TeeDown
    } else if y == rows {
        Junction::TeeUp
    } else if x == 0 {
        Junction::TeeRight
    } else if x == cols {
        Junction::TeeLeft
    } else {
        Junction::Cross
    }
}

/// The border of cell `(col, row)` of a grid of `cols` by `rows` cells.
pub fn cell_border(col: usize, row: usize, cols: usize, rows: usize) -> (r: CellBorder)
    requires
        col < cols,
        row < rows,
    ensures
        r == cell_border_spec(col as nat, row as nat, cols as nat, rows as nat),
{
    CellBorder {
        top: row == 0,
        bottom: true,
        left: col <= 1,
        right: col >= 1 || cols == 1,
        top_left: junction(col, row, cols, rows),
        top_right: junction(col + 1, row, cols, rows),
        bottom_left: junction(col, row + 1, cols, rows),
        bottom_right: junction(col + 1, row + 1, cols, rows),
    }
}

/// The plan of a whole grid: one column of cell borders for each column of the grid,
/// so that `plan[col][row]` is the border of cell `(col, row)`.
pub fn border_plan(cols: usize, rows: usize) -> (plan: Vec<Vec<CellBorder>>)
    ensures
        is_border_plan(plan@, cols as nat, rows as nat),
{
    let mut plan: Vec<Vec<CellBorder>> = Vec::new();
    let mut c: usize = 0;
    while c < cols
        invariant
            c <= cols,
            plan@.len() == c,
            forall|i: int| 0 <= i < c ==> (#[trigger] plan@[i])@.len() == rows,
            forall|i: int, r: int|
                0 <= i < c && 0 <= r < rows ==> (#[trigger] plan@[i]@[r]) == cell_border_spec(
                    i as nat,
                    r as nat,
                    cols as nat,
                    rows as nat,
                ),
        decreases cols - c,
    {
        let mut column: Vec<CellBorder> = Vec::new();
        let mut r: usize = 0;
        while r < rows
            invariant
                c < cols,
                r <= rows,
                column@.len() == r,
                forall|j: int|
                    0 <= j < r ==> (#[trigger] column@[j]) == cell_border_spec(
                        c as nat,
                        j as nat,
                        cols as nat,
                        rows as nat,
                    ),
            decreases rows - r,
        {
            column.push(cell_border(c, r, cols, rows));
            r = r + 1;
        }
        plan.push(column);
        c = c + 1;
    }
    plan
}

/// Every line inside a grid of at least one cell is drawn by exactly one of the two cells
/// it separates, every side of the grid is drawn, and two neighbouring cells agree on the
/// junction at each corner they share.
pub proof fn lemma_grid_lines_drawn_once(cols: nat, rows: nat)
    requires
        cols >= 1,
        rows >= 1,
    ensures
        forall|c: nat, r: nat|
            c + 1 < cols && r < rows ==> (#[trigger] cell_border_spec(c, r, cols, rows)).right
                != cell_border_spec(c + 1, r, cols, rows).left,
        forall|c: nat, r: nat|
            c < cols && r + 1 < rows ==> (#[trigger] cell_border_spec(c, r, cols, rows)).bottom
                != cell_border_spec(c, r + 1, cols, rows).top,
        forall|r: nat| r < rows ==> (#[trigger] cell_border_spec(0, r, cols, rows)).left,
        forall|r: nat| r < rows ==> (#[trigger] cell_border_spec((cols - 1) as nat, r, cols, rows)).right,
        forall|c: nat| c < cols ==> (#[trigger] cell_border_spec(c, 0, cols, rows)).top,
        forall|c: nat| c < cols ==> (#[trigger] cell_border_spec(c, (rows - 1) as nat, cols, rows)).bottom,
        forall|c: nat, r: nat|
            c + 1 < cols && r < rows ==> {
                let a = #[trigger] cell_border_spec(c, r, cols, rows);
                let b = cell_border_spec(c + 1, r, cols, rows);
                a.top_right == b.top_left && a.bottom_right == b.bottom_left
            },
        forall|c: nat, r: nat|
            c < cols && r + 1 < rows ==> {
                let a = #[trigger] cell_border_spec(c, r, cols, rows);
                let b = cell_border_spec(c, r + 1, cols, rows);
                a.bottom_left == b.top_left && a.bottom_right == b.top_right
            },
{
}

} // verus!

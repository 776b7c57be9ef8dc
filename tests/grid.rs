use rusuku::grid::{border_plan, cell_border, junction, CellBorder, Junction};

fn check_lines_once(cols: usize, rows: usize) {
    let plan = border_plan(cols, rows);
    assert_eq!(plan.len(), cols);
    for c in 0..cols {
        assert_eq!(plan[c].len(), rows);
        for r in 0..rows {
            assert_eq!(plan[c][r], cell_border(c, r, cols, rows));
        }
    }
    for r in 0..rows {
        assert!(plan[0][r].left);
        assert!(plan[cols - 1][r].right);
        for c in 0..cols - 1 {
            let a = plan[c][r];
            let b = plan[c + 1][r];
            assert!(a.right != b.left, "vertical line {} in row {} of {}x{}", c + 1, r, cols, rows);
            assert_eq!(a.top_right, b.top_left);
            assert_eq!(a.bottom_right, b.bottom_left);
        }
    }
    for c in 0..cols {
        assert!(plan[c][0].top);
        assert!(plan[c][rows - 1].bottom);
        for r in 0..rows - 1 {
            let a = plan[c][r];
            let b = plan[c][r + 1];
            assert!(a.bottom != b.top, "horizontal line {} in column {} of {}x{}", r + 1, c, cols, rows);
            assert_eq!(a.bottom_left, b.top_left);
            assert_eq!(a.bottom_right, b.top_right);
        }
    }
}

#[test]
fn every_inner_line_drawn_once() {
    for cols in 1..6 {
        for rows in 1..6 {
            check_lines_once(cols, rows);
        }
    }
}

#[test]
fn junctions_of_three_by_three() {
    assert_eq!(junction(2, 2, 3, 3), Junction::Cross);
    assert_eq!(junction(1, 1, 3, 3), Junction::Cross);
    for (x, y) in [(0, 0), (3, 0), (0, 3), (3, 3)] {
        assert_eq!(junction(x, y, 3, 3), Junction::Corner);
    }
    assert_eq!(junction(1, 0, 3, 3), Junction::TeeDown);
    assert_eq!(junction(2, 3, 3, 3), Junction::TeeUp);
    assert_eq!(junction(0, 2, 3, 3), Junction::TeeRight);
    assert_eq!(junction(3, 1, 3, 3), Junction::TeeLeft);
    assert_eq!(junction(1, 2, 3, 3), Junction::Cross);
}

#[test]
fn three_by_three_plan() {
    let plan = border_plan(3, 3);
    // the centre cell reaches the four inner crossings
    let centre = plan[1][1];
    assert_eq!(centre.bottom_left, Junction::Cross);
    assert_eq!(centre.bottom_right, Junction::Cross);
    assert_eq!(centre.top_left, Junction::Cross);
    assert_eq!(centre.top_right, Junction::Cross);
    assert_eq!(
        plan[1][0],
        CellBorder {
            top: true,
            bottom: true,
            left: true,
            right: true,
            top_left: Junction::TeeDown,
            top_right: Junction::TeeDown,
            bottom_left: Junction::Cross,
            bottom_right: Junction::Cross,
        }
    );
    let first = plan[0][0];
    assert!(first.left && first.top && first.bottom && !first.right);
    assert_eq!(first.top_left, Junction::Corner);
    assert_eq!(first.bottom_left, Junction::TeeRight);
    let last = plan[2][0];
    assert!(!last.left && last.top && last.bottom && last.right);
    assert_eq!(last.top_right, Junction::Corner);
    assert_eq!(last.bottom_right, Junction::TeeLeft);
    let middle_left = plan[0][1];
    assert!(middle_left.left && !middle_left.top && middle_left.bottom && !middle_left.right);
    let bottom_centre = plan[1][2];
    assert!(bottom_centre.left && !bottom_centre.top && bottom_centre.bottom && bottom_centre.right);
    assert_eq!(bottom_centre.bottom_left, Junction::TeeUp);
    assert_eq!(bottom_centre.bottom_right, Junction::TeeUp);
    assert_eq!(plan[0][2].bottom_left, Junction::Corner);
    assert_eq!(plan[2][2].bottom_right, Junction::Corner);
}

#[test]
fn single_cell_is_a_box() {
    let cell = cell_border(0, 0, 1, 1);
    assert!(cell.top && cell.bottom && cell.left && cell.right);
    assert_eq!(cell.top_left, Junction::Corner);
    assert_eq!(cell.top_right, Junction::Corner);
    assert_eq!(cell.bottom_left, Junction::Corner);
    assert_eq!(cell.bottom_right, Junction::Corner);
}

#[test]
fn empty_grid_has_no_cells() {
    assert!(border_plan(0, 4).is_empty());
    let plan = border_plan(2, 0);
    assert_eq!(plan.len(), 2);
    assert!(plan[0].is_empty() && plan[1].is_empty());
}

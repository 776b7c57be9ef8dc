use rusuku::header::format_elapsed;

#[test]
fn header_of_zero() {
    assert_eq!(format_elapsed(0), "00:00");
}

#[test]
fn header_drops_partial_seconds() {
    assert_eq!(format_elapsed(999), "00:00");
    assert_eq!(format_elapsed(1_000), "00:01");
    assert_eq!(format_elapsed(59_999), "00:59");
}

#[test]
fn header_pads_to_two_digits() {
    assert_eq!(format_elapsed(125_000), "02:05");
    assert_eq!(format_elapsed(600_000), "10:00");
    assert_eq!(format_elapsed(3_599_000), "59:59");
}

#[test]
fn header_minutes_do_not_roll_over() {
    assert_eq!(format_elapsed(3_600_000), "60:00");
    assert_eq!(format_elapsed(6_000_000), "100:00");
    assert_eq!(format_elapsed(60_000_000 + 7_000), "1000:07");
}

#[test]
fn frame_model_joins_clock_and_grid() {
    let model = rusuku::render::render_model(125_400, 3, 3);
    assert_eq!(model.header_text, "02:05");
    assert_eq!(model.cells, rusuku::grid::border_plan(3, 3));
    assert_eq!(model.cells.len(), 3);
    assert_eq!(model.cells[1][1].bottom_right, rusuku::grid::Junction::Cross);
}

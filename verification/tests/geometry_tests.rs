use craftgif::geometry::{grid_position, GRID_SIZE, ICON_SIZE, MIN_CANVAS_HEIGHT, MIN_CANVAS_WIDTH, RATIO};

#[test]
fn constants_derive_from_base_slot_size() {
    assert_eq!(GRID_SIZE, 16);
    assert_eq!(RATIO, 5);
    assert_eq!(ICON_SIZE, GRID_SIZE * RATIO);
}

#[test]
fn position_is_pure() {
    for cell in 0..10u32 {
        assert_eq!(grid_position(cell), grid_position(cell));
    }
}

#[test]
fn input_positions_match_grid_formula() {
    assert_eq!(grid_position(0), (20, 20));
    assert_eq!(grid_position(1), (110, 20));
    assert_eq!(grid_position(2), (200, 20));
    assert_eq!(grid_position(3), (20, 110));
    assert_eq!(grid_position(4), (110, 110));
    assert_eq!(grid_position(5), (200, 110));
    assert_eq!(grid_position(6), (20, 200));
    assert_eq!(grid_position(7), (110, 200));
    assert_eq!(grid_position(8), (200, 200));
}

#[test]
fn output_position_uses_its_own_anchor() {
    assert_eq!(grid_position(9), ((93 + 13) * 5 - 40, (17 + 13) * 5 - 40));
    assert_eq!(grid_position(9), (490, 110));
}

#[test]
fn footprints_stay_within_minimum_canvas() {
    for cell in 0..10u32 {
        let (x, y) = grid_position(cell);
        assert!(x + ICON_SIZE <= MIN_CANVAS_WIDTH);
        assert!(y + ICON_SIZE <= MIN_CANVAS_HEIGHT);
        if cell < 9 {
            assert!(x + ICON_SIZE <= 56 * RATIO);
            assert!(y + ICON_SIZE <= 56 * RATIO);
        }
    }
}

#[test]
fn output_rect_overlaps_no_input_rect() {
    let (ox, oy) = grid_position(9);
    for cell in 0..9u32 {
        let (x, y) = grid_position(cell);
        let x_apart = x + ICON_SIZE <= ox || ox + ICON_SIZE <= x;
        let y_apart = y + ICON_SIZE <= oy || oy + ICON_SIZE <= y;
        assert!(x_apart || y_apart, "cell {cell} overlaps the output slot");
    }
}

//! Geometry of the crafting layout: maps each of the ten grid cells
//! (nine input slots plus the output slot) to the pixel rectangle that an
//! icon occupies on the upscaled canvas.

use vstd::prelude::*;

verus! {

/// Width and height, in pixels, of one input slot in the un-scaled base image.
pub const GRID_SIZE: u32 = 16;

/// Factor by which the base image is upscaled before compositing.
pub const RATIO: u32 = 5;

/// Side length, on the upscaled canvas, of the square footprint every icon
/// is resized to before placement.
pub const ICON_SIZE: u32 = GRID_SIZE * RATIO;

/// Smallest canvas width (in upscaled pixels) on which all ten slots fit.
pub const MIN_CANVAS_WIDTH: u32 = 114 * RATIO;

/// Smallest canvas height (in upscaled pixels) on which all ten slots fit.
pub const MIN_CANVAS_HEIGHT: u32 = 56 * RATIO;

/// Center of a cell's visual slot on the upscaled canvas.
///
/// Input slots sit on a regular 3x3 grid with a fixed margin and padding;
/// the output slot has its own fixed anchor in the un-scaled base image.
/// Everything is scaled by `RATIO`.
pub open spec fn slot_center(cell: int) -> (int, int) {
    if cell == 9 {
        ((93 + 13) * (RATIO as int), (17 + 13) * (RATIO as int))
    } else {
        let left = 4 + (GRID_SIZE as int) / 2;
        let top = 4 + (GRID_SIZE as int) / 2;
        let pad = (GRID_SIZE as int) + 2;
        ((left + pad * (cell % 3)) * (RATIO as int), (top + pad * (cell / 3)) * (RATIO as int))
    }
}

/// Top-left pixel coordinate at which a cell's icon is placed: the slot
/// center minus half the icon footprint.
pub open spec fn position_spec(cell: int) -> (int, int) {
    (slot_center(cell).0 - (ICON_SIZE as int) / 2, slot_center(cell).1 - (ICON_SIZE as int) / 2)
}

/// True when pixel `(x, y)` lies inside the footprint rectangle of `cell`.
pub open spec fn in_rect(cell: int, x: int, y: int) -> bool {
    position_spec(cell).0 <= x < position_spec(cell).0 + ICON_SIZE
        && position_spec(cell).1 <= y < position_spec(cell).1 + ICON_SIZE
}

/// Resolves a grid cell to the top-left pixel coordinate of its icon
/// footprint on the upscaled canvas.
pub fn grid_position(cell: u32) -> (r: (u32, u32))
    requires
        cell < 10,
    ensures
        r.0 == position_spec(cell as int).0,
        r.1 == position_spec(cell as int).1,
{
    let icon_size: u32 = GRID_SIZE * RATIO;

    let cx: u32;
    let cy: u32;
    if cell == 9 {
        cx = (93 + 13) * RATIO;
        cy = (17 + 13) * RATIO;
    } else {
        let left: u32 = 4 + GRID_SIZE / 2;
        let top: u32 = 4 + GRID_SIZE / 2;
        let pad: u32 = GRID_SIZE + 2;

        let x: u32 = cell % 3;
        let y: u32 = cell / 3;

        cx = (left + pad * x) * RATIO;
        cy = (top + pad * y) * RATIO;
    }
    (cx - icon_size / 2, cy - icon_size / 2)
}

/// The geometry resolver is a pure function: any two results that meet its
/// contract for the same cell are the same coordinate.
pub proof fn lemma_position_pure(a: (u32, u32), b: (u32, u32), cell: u32)
    requires
        a.0 == position_spec(cell as int).0,
        a.1 == position_spec(cell as int).1,
        b.0 == position_spec(cell as int).0,
        b.1 == position_spec(cell as int).1,
    ensures
        a == b,
{
}

/// Every input slot's footprint lies within the 3x3 grid region of the
/// canvas, so it fits on any canvas at least `MIN_CANVAS_HEIGHT` square.
pub proof fn lemma_input_slots_in_bounds(cell: int)
    requires
        0 <= cell < 9,
    ensures
        0 <= position_spec(cell).0,
        0 <= position_spec(cell).1,
        position_spec(cell).0 + ICON_SIZE <= MIN_CANVAS_HEIGHT,
        position_spec(cell).1 + ICON_SIZE <= MIN_CANVAS_HEIGHT,
{
}

/// Every slot, the output slot included, fits on any canvas of at least
/// `MIN_CANVAS_WIDTH` by `MIN_CANVAS_HEIGHT` pixels.
pub proof fn lemma_slots_in_bounds(cell: int)
    requires
        0 <= cell < 10,
    ensures
        0 <= position_spec(cell).0,
        0 <= position_spec(cell).1,
        position_spec(cell).0 + ICON_SIZE <= MIN_CANVAS_WIDTH,
        position_spec(cell).1 + ICON_SIZE <= MIN_CANVAS_HEIGHT,
{
}

/// The output slot's rectangle shares no pixel with any input slot's
/// rectangle.
pub proof fn lemma_output_slot_disjoint(cell: int, x: int, y: int)
    requires
        0 <= cell < 9,
    ensures
        !(in_rect(cell, x, y) && in_rect(9, x, y)),
{
}

/// Distinct input slots have disjoint rectangles.
pub proof fn lemma_input_slots_disjoint(a: int, b: int, x: int, y: int)
    requires
        0 <= a < 9,
        0 <= b < 9,
        a != b,
    ensures
        !(in_rect(a, x, y) && in_rect(b, x, y)),
{
}

/// Distinct cells, the output slot included, have disjoint rectangles.
pub proof fn lemma_cells_disjoint(a: int, b: int, x: int, y: int)
    requires
        0 <= a < 10,
        0 <= b < 10,
        a != b,
    ensures
        !(in_rect(a, x, y) && in_rect(b, x, y)),
{
    if a == 9 {
        lemma_output_slot_disjoint(b, x, y);
    } else if b == 9 {
        lemma_output_slot_disjoint(a, x, y);
    } else {
        lemma_input_slots_disjoint(a, b, x, y);
    }
}

} // verus!

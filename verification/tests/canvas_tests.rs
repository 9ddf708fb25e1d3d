use craftgif::canvas::{blend_channel_exec, Canvas, Icon};

fn solid_canvas(width: u32, height: u32, rgb: (u8, u8, u8)) -> Canvas {
    let mut data = Vec::new();
    for _ in 0..width * height {
        data.push(rgb.0);
        data.push(rgb.1);
        data.push(rgb.2);
    }
    Canvas::from_raw(width, height, data).unwrap()
}

fn solid_icon(size: u32, rgba: (u8, u8, u8, u8)) -> Icon {
    let mut data = Vec::new();
    for _ in 0..size * size {
        data.push(rgba.0);
        data.push(rgba.1);
        data.push(rgba.2);
        data.push(rgba.3);
    }
    Icon::from_raw(size, data).unwrap()
}

#[test]
fn blend_matches_over_formula() {
    // (200 * 128 + 100 * 127) / 255 = 38300 / 255 = 150 (truncated)
    assert_eq!(blend_channel_exec(100, 200, 128), 150);
    assert_eq!(blend_channel_exec(0, 255, 255), 255);
    assert_eq!(blend_channel_exec(255, 0, 255), 0);
    assert_eq!(blend_channel_exec(7, 200, 0), 7);
}

#[test]
fn from_raw_rejects_wrong_length() {
    assert!(Canvas::from_raw(2, 2, vec![0; 11]).is_none());
    assert!(Canvas::from_raw(2, 2, vec![0; 12]).is_some());
    assert!(Icon::from_raw(2, vec![0; 15]).is_none());
    assert!(Icon::from_raw(2, vec![0; 16]).is_some());
}

#[test]
fn place_blends_footprint_and_leaves_the_rest() {
    let mut canvas = solid_canvas(4, 4, (100, 100, 100));
    let icon = solid_icon(2, (200, 0, 50, 128));
    canvas.place_icon(&icon, 1, 1);
    // blended channels: (200*128+100*127)/255 = 150, (0*128+100*127)/255 = 49,
    // (50*128+100*127)/255 = 74
    for y in 0..4u32 {
        for x in 0..4u32 {
            let inside = (1..3).contains(&x) && (1..3).contains(&y);
            let expected = if inside { (150, 49, 74) } else { (100, 100, 100) };
            assert_eq!(canvas.get_px(x, y), expected, "pixel ({x}, {y})");
        }
    }
}

#[test]
fn opaque_placement_is_idempotent() {
    let mut once = solid_canvas(4, 4, (10, 20, 30));
    let icon = solid_icon(2, (250, 150, 50, 255));
    once.place_icon(&icon, 0, 2);
    let mut twice = once.duplicate();
    twice.place_icon(&icon, 0, 2);
    assert_eq!(once.data, twice.data);
    assert_eq!(once.get_px(0, 2), (250, 150, 50));
}

#[test]
fn transparent_placement_changes_nothing() {
    let mut canvas = solid_canvas(4, 4, (10, 20, 30));
    let before = canvas.data.clone();
    let icon = solid_icon(3, (250, 150, 50, 0));
    canvas.place_icon(&icon, 1, 0);
    assert_eq!(canvas.data, before);
}

#[test]
fn duplicate_is_independent() {
    let base = solid_canvas(2, 2, (1, 2, 3));
    let mut copy = base.duplicate();
    let icon = solid_icon(1, (9, 9, 9, 255));
    copy.place_icon(&icon, 0, 0);
    assert_eq!(base.get_px(0, 0), (1, 2, 3));
    assert_eq!(copy.get_px(0, 0), (9, 9, 9));
}

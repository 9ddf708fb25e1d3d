use craftgif::config::{texture_path, Config, Grid, KeyMap, RecipeError};
use craftgif::select::{KeyItem, KeyItemMethod, OneOrMany};

fn grid(s: &str) -> Grid {
    Grid::parse(s).unwrap()
}

fn key(entries: Vec<(char, KeyItem)>) -> KeyMap {
    KeyMap { entries }
}

fn list(method: KeyItemMethod, items: &[&str]) -> KeyItem {
    KeyItem::List { method, items: items.iter().map(|s| s.to_string()).collect() }
}

#[test]
fn grid_parse_skips_whitespace_and_pads() {
    let g = Grid::parse("AAA\nA_A\nAAA").unwrap();
    assert_eq!(g.cells, vec!['A', 'A', 'A', 'A', '_', 'A', 'A', 'A', 'A']);
    let g = Grid::parse("  AB ").unwrap();
    assert_eq!(g.cells, vec!['A', 'B', '_', '_', '_', '_', '_', '_', '_']);
    let g = Grid::parse("").unwrap();
    assert_eq!(g.cells, vec!['_'; 9]);
}

#[test]
fn grid_parse_rejects_more_than_nine() {
    assert!(Grid::parse("ABCDEFGHIJ").is_none());
    assert!(Grid::parse("ABC DEF GHI J").is_none());
    assert!(Grid::parse("ABCDEFGHI").is_some());
}

#[test]
fn texture_path_appends_extension() {
    assert_eq!(texture_path("diamond"), "textures/diamond.png");
    assert_eq!(texture_path("block/stone"), "textures/block/stone.png");
}

#[test]
fn texture_path_replaces_explicit_extension() {
    assert_eq!(texture_path("gem.jpg"), "textures/gem.png");
    assert_eq!(texture_path("a.b.c"), "textures/a.b.png");
    assert_eq!(texture_path(".hidden"), "textures/.hidden.png");
    assert_eq!(texture_path("dir.x/name"), "textures/dir.x/name.png");
}

#[test]
fn one_or_many_get_and_len() {
    let one: OneOrMany<String> = OneOrMany::One("a".to_string());
    assert_eq!(one.len(), 1);
    assert_eq!(one.get(0), Some(&"a".to_string()));
    assert_eq!(one.get(1), None);
    let many: OneOrMany<String> = OneOrMany::Many(vec!["a".to_string(), "b".to_string()]);
    assert_eq!(many.len(), 2);
    assert_eq!(many.get(1), Some(&"b".to_string()));
    assert_eq!(many.get(2), None);
}

#[test]
fn get_item_fixed_and_methods() {
    let fixed = KeyItem::Fixed("x".to_string());
    assert_eq!(fixed.get_item(7, 3, 5), Some("x"));

    let frame = list(KeyItemMethod::Frame, &["a", "b", "c"]);
    assert_eq!(frame.get_item(4, 9, 2), Some("b")); // 4 % 3 == 1

    let cycle = list(KeyItemMethod::Cycle, &["a", "b", "c"]);
    assert_eq!(cycle.get_item(2, 4, 1), Some("a")); // (2*4+1) % 3 == 0

    let slow = list(KeyItemMethod::CycleSlow, &["a", "b", "c"]);
    assert_eq!(slow.get_item(2, 4, 3), Some("c")); // (2+3) % 3 == 2

    let random = list(KeyItemMethod::Random, &["a", "b"]);
    let got = random.get_item(0, 1, 0).unwrap();
    assert!(got == "a" || got == "b");
}

#[test]
fn get_item_empty_list_has_nothing() {
    for method in [
        KeyItemMethod::Frame,
        KeyItemMethod::Random,
        KeyItemMethod::Cycle,
        KeyItemMethod::CycleSlow,
    ] {
        let item = KeyItem::List { method, items: Vec::new() };
        assert_eq!(item.get_item(0, 1, 0), None);
    }
}

#[test]
fn recipe_cycles_variants_per_slot() {
    // Eight occurrences of label A around a blank center; label A cycles
    // over two variants, so slot i of frame f shows variant (f*8 + i) % 2.
    let cfg = Config {
        grid: grid("AAA\nA_A\nAAA"),
        result: OneOrMany::One("res".to_string()),
        key: key(vec![('A', list(KeyItemMethod::Cycle, &["v0", "v1"]))]),
        frames: 3,
        frame_duration: 10,
    };
    for frame in 0..3usize {
        let (slots, result) = cfg.recipe(frame).unwrap();
        assert_eq!(result, "textures/res.png");
        assert_eq!(slots.len(), 9);
        assert!(slots[4].is_none());
        for i in 0..9usize {
            if i == 4 {
                continue;
            }
            let expected = format!("textures/v{}.png", (frame * 8 + i) % 2);
            assert_eq!(slots[i].as_deref(), Some(expected.as_str()), "frame {frame} slot {i}");
        }
    }
}

#[test]
fn recipe_result_rotates_by_frame() {
    let cfg = Config {
        grid: grid("_________"),
        result: OneOrMany::Many(vec!["r0".to_string(), "r1".to_string()]),
        key: key(vec![]),
        frames: 4,
        frame_duration: 1,
    };
    assert_eq!(cfg.recipe(0).unwrap().1, "textures/r0.png");
    assert_eq!(cfg.recipe(1).unwrap().1, "textures/r1.png");
    assert_eq!(cfg.recipe(2).unwrap().1, "textures/r0.png");
}

#[test]
fn recipe_fails_naming_unknown_label() {
    let cfg = Config {
        grid: grid("AAB______"),
        result: OneOrMany::One("res".to_string()),
        key: key(vec![('A', KeyItem::Fixed("a".to_string()))]),
        frames: 1,
        frame_duration: 1,
    };
    assert_eq!(cfg.recipe(0), Err(RecipeError::UnknownItem('B')));
}

#[test]
fn recipe_fails_on_label_without_textures() {
    let cfg = Config {
        grid: grid("A________"),
        result: OneOrMany::One("res".to_string()),
        key: key(vec![('A', list(KeyItemMethod::Frame, &[]))]),
        frames: 1,
        frame_duration: 1,
    };
    assert_eq!(cfg.recipe(0), Err(RecipeError::NoTextures('A')));
}

#[test]
fn recipe_fails_without_results() {
    let cfg = Config {
        grid: grid("_________"),
        result: OneOrMany::Many(vec![]),
        key: key(vec![]),
        frames: 1,
        frame_duration: 1,
    };
    assert_eq!(cfg.recipe(0), Err(RecipeError::NoResults));
}

#[test]
fn recipe_first_error_wins_in_slot_order() {
    // Slot 0 carries the unknown label, slot 1 the empty one: the unknown
    // label is reported.
    let cfg = Config {
        grid: grid("BA_______"),
        result: OneOrMany::One("res".to_string()),
        key: key(vec![('A', list(KeyItemMethod::Frame, &[]))]),
        frames: 1,
        frame_duration: 1,
    };
    assert_eq!(cfg.recipe(0), Err(RecipeError::UnknownItem('B')));
}

use rust_wars::geometry::Vec2i;
use rust_wars::level::{
    flipped_cell, tile_translation, Bounds, Coordinate, Tile, TileSet, TileSetLoader,
};
use rust_wars::shared::UNIT;

#[test]
fn empty_tile_set_has_requested_dimensions() {
    let ts = TileSet::new_empty(4, 7);
    assert_eq!(ts.rows, 4);
    assert_eq!(ts.cols, 7);
    assert_eq!(ts.tiles.len(), 4);
    for row in &ts.tiles {
        assert_eq!(row.len(), 7);
        for t in row {
            assert_eq!(*t, Tile::EMPTY);
        }
    }
}

#[test]
fn set_tile_changes_only_the_addressed_cell() {
    let mut ts = TileSet::new_empty(3, 3);
    ts.set_tile(1, 2, Tile::GROUND);
    assert_eq!(ts.get_tile(1, 2), Some(Tile::GROUND));
    assert_eq!(ts.get_tile(0, 0), Some(Tile::EMPTY));
    assert_eq!(ts.get_tile(2, 2), Some(Tile::EMPTY));
}

#[test]
fn set_tile_out_of_range_changes_nothing() {
    let mut ts = TileSet::new_empty(2, 2);
    ts.set_tile(5, 0, Tile::GROUND);
    ts.set_tile(0, 9, Tile::FLOOR);
    for r in 0..2 {
        for c in 0..2 {
            assert_eq!(ts.get_tile(r, c), Some(Tile::EMPTY));
        }
    }
}

#[test]
fn get_tile_out_of_range_is_none() {
    let ts = TileSet::new_empty(2, 2);
    assert_eq!(ts.get_tile(2, 0), None);
    assert_eq!(ts.get_tile(0, 2), None);
    assert!(ts.is_valid_tile(1, 1));
    assert!(!ts.is_valid_tile(2, 0));
}

#[test]
fn loaded_tile_set_matches_built_in_layout() {
    let ts = TileSetLoader::load_tile_set("placeholder".to_string()).unwrap();
    assert_eq!(ts.rows, 6);
    assert_eq!(ts.cols, 10);
    // open air
    assert_eq!(ts.get_tile(0, 0), Some(Tile::EMPTY));
    assert_eq!(ts.get_tile(1, 9), Some(Tile::EMPTY));
    // floating platforms
    assert_eq!(ts.get_tile(2, 7), Some(Tile::FLOOR));
    assert_eq!(ts.get_tile(2, 6), Some(Tile::EMPTY));
    assert_eq!(ts.get_tile(3, 4), Some(Tile::FLOOR));
    assert_eq!(ts.get_tile(3, 5), Some(Tile::EMPTY));
    assert_eq!(ts.get_tile(3, 6), Some(Tile::FLOOR));
    assert_eq!(ts.get_tile(3, 7), Some(Tile::FLOOR));
    // full floor row and ground row
    for c in 0..10 {
        assert_eq!(ts.get_tile(4, c), Some(Tile::FLOOR));
        assert_eq!(ts.get_tile(5, c), Some(Tile::GROUND));
    }
}

#[test]
fn only_ground_is_solid() {
    assert!(Tile::GROUND.is_solid());
    assert!(!Tile::FLOOR.is_solid());
    assert!(!Tile::EMPTY.is_solid());
}

#[test]
fn bounds_check_includes_edges() {
    let b = Bounds {
        position: Vec2i { x: -10 * UNIT, y: -10 * UNIT },
        size: Vec2i { x: 20 * UNIT, y: 20 * UNIT },
    };
    assert!(b.is_in_bounds(0, 0));
    assert!(b.is_in_bounds(-10 * UNIT, 10 * UNIT));
    assert!(b.is_in_bounds(10 * UNIT, -10 * UNIT));
    assert!(!b.is_in_bounds(10 * UNIT + 1, 0));
    assert!(!b.is_in_bounds(0, -10 * UNIT - 1));
}

#[test]
fn tile_translation_steps_by_tile_size() {
    let b = Bounds {
        position: Vec2i { x: -460 * UNIT, y: -460 * UNIT },
        size: Vec2i { x: 920 * UNIT, y: 920 * UNIT },
    };
    let t = tile_translation(0, 0, &b, 92 * UNIT);
    assert_eq!(t.x, -460 * UNIT);
    assert_eq!(t.y, -460 * UNIT);
    let t = tile_translation(2, 3, &b, 92 * UNIT);
    assert_eq!(t.x, -460 * UNIT + 3 * 92 * UNIT);
    assert_eq!(t.y, -460 * UNIT + 2 * 92 * UNIT);
}

#[test]
fn flipped_cell_mirrors_the_index() {
    assert_eq!(flipped_cell(6, 0), 5);
    assert_eq!(flipped_cell(6, 5), 0);
    assert_eq!(flipped_cell(10, 3), 6);
}

#[test]
fn coordinate_builds() {
    let _c = Coordinate::new(3, 4);
}

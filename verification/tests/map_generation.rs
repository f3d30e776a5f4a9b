//! Generation and rendering: determinism, output shape, and variety.

use topography::generate::TopographicMap;
use topography::region::TopographicRegion;

/// Two independent runs with the same parameters render byte-identically.
#[test]
fn scenario_seed_42_is_reproducible() {
    let first = TopographicMap::new(42, 96, 64, 12);
    let second = TopographicMap::new(42, 96, 64, 12);
    assert_eq!(first.render(), second.render());
}

/// Cells compare equal between two runs, not just their rendering.
#[test]
fn scenario_seed_42_cells_are_reproducible() {
    let first = TopographicMap::new(42, 96, 64, 12);
    let second = TopographicMap::new(42, 96, 64, 12);
    assert_eq!(first.data.len(), 96 * 64);
    for (a, b) in first.data.iter().zip(second.data.iter()) {
        assert_eq!(a, b);
    }
}

/// The rendered text has exactly `height` rows of exactly `width` glyphs.
#[test]
fn rendering_has_height_rows_of_width_cells() {
    let map = TopographicMap::new(42, 96, 64, 12);
    let out = map.render();
    let rows: Vec<&str> = out.split_terminator('\n').collect();
    assert_eq!(rows.len(), 64);
    for row in rows {
        assert_eq!(row.chars().count(), 96);
    }
    assert!(out.ends_with('\n'));
}

/// The same holds on a small, uneven grid.
#[test]
fn rendering_shape_small_grid() {
    let map = TopographicMap::new(7, 5, 3, 40);
    let out = map.render();
    let rows: Vec<&str> = out.split_terminator('\n').collect();
    assert_eq!(rows.len(), 3);
    for row in rows {
        assert_eq!(row.chars().count(), 5);
    }
}

/// The noise source really varies over the grid: the scenario map holds
/// both land and more than one water band.
#[test]
fn scenario_map_is_not_uniform() {
    let map = TopographicMap::new(42, 96, 64, 12);
    let out = map.render();
    let distinct: std::collections::BTreeSet<char> =
        out.chars().filter(|c| *c != '\n').collect();
    assert!(distinct.len() >= 2, "expected varied terrain, got {:?}", distinct);
}

/// The placement stream really varies: the scenario map holds water both
/// with and without vegetation.
#[test]
fn scenario_map_has_mixed_vegetation() {
    let map = TopographicMap::new(42, 96, 64, 12);
    let mut bare_water = 0usize;
    let mut vegetated = 0usize;
    for region in map.data.iter() {
        if let TopographicRegion::Water(w) = region {
            if w.vegetation.is_some() {
                vegetated += 1;
            } else {
                bare_water += 1;
            }
        }
    }
    assert!(bare_water > 0);
    assert!(vegetated > 0);
}

/// Different seeds give different maps (with these dimensions the chance of
/// a collision is negligible, and the outcome is fixed once observed).
#[test]
fn different_seeds_differ() {
    let a = TopographicMap::new(42, 96, 64, 12);
    let b = TopographicMap::new(43, 96, 64, 12);
    assert_ne!(a.render(), b.render());
}

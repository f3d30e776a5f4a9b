//! The adjacency rule at the grid boundaries, glyph priorities, and a small
//! hand-traced grid.

use topography::depth::{Depth, NoiseDepth};
use topography::generate::{compute_adjacent, get_adjacent, AdjacencyDirection, TopographicMap};
use topography::region::{
    BottomComposition, Structure, TopographicLandRegion, TopographicRegion,
    TopographicWaterRegion, Vegetation,
};

fn water(vegetation: Option<Vegetation>, depth: i64) -> TopographicRegion {
    TopographicRegion::Water(TopographicWaterRegion::new(
        BottomComposition::Hard,
        vegetation,
        None,
        Depth(depth),
    ))
}

fn land() -> TopographicRegion {
    TopographicRegion::Land(TopographicLandRegion {})
}

/// The first cell has no neighbours: never adjacent.
#[test]
fn origin_cell_is_never_adjacent() {
    let cells: Vec<TopographicRegion> = Vec::new();
    assert!(!compute_adjacent(&cells, 4, 0, 0, &Vegetation::Grass));
    assert!(get_adjacent(&cells, 4, 0, 0, AdjacencyDirection::Up).is_none());
    assert!(get_adjacent(&cells, 4, 0, 0, AdjacencyDirection::Left).is_none());
}

/// In the first row only the left neighbour is consulted.
#[test]
fn first_row_consults_left_only() {
    let cells = vec![water(Some(Vegetation::Grass), 1_000_000)];
    assert!(compute_adjacent(&cells, 4, 1, 0, &Vegetation::Grass));
    assert!(!compute_adjacent(&cells, 4, 1, 0, &Vegetation::Reeds));
    assert!(get_adjacent(&cells, 4, 1, 0, AdjacencyDirection::Up).is_none());

    let cells = vec![water(None, 1_000_000)];
    assert!(!compute_adjacent(&cells, 4, 1, 0, &Vegetation::Grass));
}

/// In the first column only the up neighbour is consulted.
#[test]
fn first_column_consults_up_only() {
    let mut cells = vec![water(Some(Vegetation::Mats), 1_000_000)];
    cells.push(water(Some(Vegetation::Reeds), 1_000_000));
    // Cell (0, 1) of a 2-wide grid: up is cell 0, there is no left.
    assert!(compute_adjacent(&cells, 2, 0, 1, &Vegetation::Mats));
    assert!(!compute_adjacent(&cells, 2, 0, 1, &Vegetation::Reeds));
    assert!(get_adjacent(&cells, 2, 0, 1, AdjacencyDirection::Left).is_none());
}

/// A land up-neighbour falls back to the left neighbour; a water
/// up-neighbour of the wrong kind does not.
#[test]
fn up_land_falls_back_to_left() {
    // 2-wide grid, generating cell (1, 1): cells are (0,0), (1,0), (0,1).
    let cells = vec![
        water(None, 1_000_000),
        land(),
        water(Some(Vegetation::Grass), 1_000_000),
    ];
    assert!(compute_adjacent(&cells, 2, 1, 1, &Vegetation::Grass));

    let cells = vec![
        water(None, 1_000_000),
        water(None, 1_000_000),
        water(Some(Vegetation::Grass), 1_000_000),
    ];
    // The up neighbour is water without the kind: no fallback to the left.
    assert!(!compute_adjacent(&cells, 2, 1, 1, &Vegetation::Grass));
}

/// A water cell carrying a kind matches that kind alone.
#[test]
fn has_vegetation_type_compares_kinds() {
    let w = TopographicWaterRegion::new(
        BottomComposition::Hard,
        Some(Vegetation::Grass),
        None,
        Depth(1_000_000),
    );
    assert!(w.has_vegetation_type(&Vegetation::Grass));
    assert!(!w.has_vegetation_type(&Vegetation::Reeds));
    let bare = TopographicWaterRegion::new(BottomComposition::Hard, None, None, Depth(1_000_000));
    assert!(!bare.has_vegetation_type(&Vegetation::Grass));
}

/// Rendering priority: vegetation over structure over the band glyph; land
/// is fixed.
#[test]
fn glyph_priorities() {
    assert_eq!(land().glyph(), "#");
    assert_eq!(water(Some(Vegetation::Grass), 14_000_000).glyph(), "„");
    assert_eq!(water(Some(Vegetation::Reeds), 1_000_000).glyph(), "¥");
    assert_eq!(water(Some(Vegetation::Mats), 1_000_000).glyph(), "¬");
    let structured = TopographicRegion::Water(TopographicWaterRegion::new(
        BottomComposition::Hard,
        None,
        Some(Structure::Boulder),
        Depth(1_000_000),
    ));
    assert_eq!(structured.glyph(), "®");
    let veg_over_structure = TopographicRegion::Water(TopographicWaterRegion::new(
        BottomComposition::Hard,
        Some(Vegetation::Reeds),
        Some(Structure::Timber),
        Depth(1_000_000),
    ));
    assert_eq!(veg_over_structure.glyph(), "¥");
    assert_eq!(water(None, 1_000_000).glyph(), "░");
    assert_eq!(water(None, 6_000_000).glyph(), "▒");
    assert_eq!(water(None, 9_000_000).glyph(), "▓");
    assert_eq!(water(None, 14_000_000).glyph(), "█");
}

/// A 2x2 grid with hand-picked cells renders exactly as the band table and
/// glyph priorities prescribe: as if the noise samples had been -600000
/// (land), -400000 (depth 1000000, SuperShallow), 0 (depth 5000000, still
/// SuperShallow), and 1000000 (depth 15000000, Deep with reeds placed).
#[test]
fn hand_traced_grid_renders_predictably() {
    // Trace the classification by hand through the public pieces.
    assert!(NoiseDepth(-600_000).is_land());
    assert_eq!(Depth::from_noise(NoiseDepth(-400_000)), Depth(1_000_000));
    assert_eq!(Depth::from_noise(NoiseDepth(0)), Depth(5_000_000));
    assert_eq!(Depth::from_noise(NoiseDepth(1_000_000)), Depth(15_000_000));

    let map = TopographicMap {
        seed: 0,
        width: 2,
        height: 2,
        scale_hundredths: 12,
        data: vec![
            land(),
            water(None, 1_000_000),
            water(None, 5_000_000),
            water(Some(Vegetation::Reeds), 15_000_000),
        ],
    };
    assert_eq!(map.render(), "#░\n░¥\n");
}

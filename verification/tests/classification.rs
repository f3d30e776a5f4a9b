//! Depth classification: the land threshold, the noise-to-depth remap, the
//! band table and its rates, and the placement decision.

use topography::depth::{Depth, DepthRangeName, NoiseDepth};
use topography::placement::{kind_of_index, roll_places};
use topography::region::Vegetation;

/// Samples strictly below the land threshold are land; the threshold itself
/// is water.
#[test]
fn land_threshold_is_exclusive() {
    assert!(NoiseDepth(-500_001).is_land());
    assert!(!NoiseDepth(-500_000).is_land());
    assert!(NoiseDepth(-1_000_000).is_land());
    assert!(!NoiseDepth(1_000_000).is_land());
}

/// The remap is linear from the water sub-range onto the full depth range;
/// land maps to the sentinel one unit below it.
#[test]
fn noise_remaps_linearly_onto_depth_range() {
    assert_eq!(Depth::from_noise(NoiseDepth(-500_000)), Depth(0));
    assert_eq!(Depth::from_noise(NoiseDepth(0)), Depth(5_000_000));
    assert_eq!(Depth::from_noise(NoiseDepth(250_000)), Depth(7_500_000));
    assert_eq!(Depth::from_noise(NoiseDepth(1_000_000)), Depth(15_000_000));
    assert_eq!(Depth::from_noise(NoiseDepth(-600_000)), Depth(-1_000_000));
}

/// Every depth in the valid range resolves to a band, the scan takes the
/// first matching band, and the bands tile the range.
#[test]
fn band_lookup_covers_the_range_first_match() {
    assert!(matches!(Depth(0).depth_range().name, DepthRangeName::SuperShallow));
    // A shared boundary belongs to the earlier band of the scan.
    assert!(matches!(Depth(5_000_000).depth_range().name, DepthRangeName::SuperShallow));
    assert!(matches!(Depth(5_000_001).depth_range().name, DepthRangeName::Shallow));
    assert!(matches!(Depth(7_000_000).depth_range().name, DepthRangeName::Shallow));
    assert!(matches!(Depth(8_000_000).depth_range().name, DepthRangeName::MidDepth));
    assert!(matches!(Depth(10_000_000).depth_range().name, DepthRangeName::MidDepth));
    assert!(matches!(Depth(10_000_001).depth_range().name, DepthRangeName::Deep));
    assert!(matches!(Depth(15_000_000).depth_range().name, DepthRangeName::Deep));
}

/// The resolved band's inclusive range really contains the depth.
#[test]
fn band_ranges_contain_their_depths() {
    for depth in [0i64, 1, 4_999_999, 5_000_000, 6_500_000, 9_999_999, 12_345_678, 15_000_000] {
        let band = Depth(depth).depth_range();
        assert!(band.min <= depth && depth <= band.max, "depth {depth} outside its band");
    }
}

/// The table's exact rates, in hundredths, per band and kind.
#[test]
fn vegetation_rates_match_the_table() {
    let super_shallow = Depth(1_000_000).depth_range();
    assert_eq!(super_shallow.get_vegetation_rate(&Vegetation::Grass, false), 10);
    assert_eq!(super_shallow.get_vegetation_rate(&Vegetation::Grass, true), 45);
    assert_eq!(super_shallow.get_vegetation_rate(&Vegetation::Reeds, false), 20);
    assert_eq!(super_shallow.get_vegetation_rate(&Vegetation::Reeds, true), 75);
    assert_eq!(super_shallow.get_vegetation_rate(&Vegetation::Mats, false), 10);
    assert_eq!(super_shallow.get_vegetation_rate(&Vegetation::Mats, true), 75);

    let shallow = Depth(6_000_000).depth_range();
    assert_eq!(shallow.get_vegetation_rate(&Vegetation::Grass, false), 20);
    assert_eq!(shallow.get_vegetation_rate(&Vegetation::Grass, true), 65);
    assert_eq!(shallow.get_vegetation_rate(&Vegetation::Reeds, true), 40);
    assert_eq!(shallow.get_vegetation_rate(&Vegetation::Mats, true), 75);

    let mid = Depth(9_000_000).depth_range();
    assert_eq!(mid.get_vegetation_rate(&Vegetation::Grass, false), 12);
    assert_eq!(mid.get_vegetation_rate(&Vegetation::Reeds, false), 0);
    assert_eq!(mid.get_vegetation_rate(&Vegetation::Reeds, true), 0);

    let deep = Depth(14_000_000).depth_range();
    assert_eq!(deep.get_vegetation_rate(&Vegetation::Grass, false), 5);
    assert_eq!(deep.get_vegetation_rate(&Vegetation::Grass, true), 20);
    assert_eq!(deep.get_vegetation_rate(&Vegetation::Reeds, false), 0);
}

/// Every rate of every band is within the unit interval (at most 100
/// hundredths).
#[test]
fn all_rates_are_within_the_unit_interval() {
    for depth in [1i64, 6_000_000, 9_000_000, 14_000_000] {
        let band = Depth(depth).depth_range();
        for kind in [Vegetation::Grass, Vegetation::Reeds, Vegetation::Mats] {
            assert!(band.get_vegetation_rate(&kind, false) <= 100);
            assert!(band.get_vegetation_rate(&kind, true) <= 100);
        }
    }
}

/// The placement decision: the roll places the kind exactly when it does
/// not exceed the rate; a nonzero roll never fits a zero rate.
#[test]
fn roll_decides_placement() {
    assert!(roll_places(0, 0));
    assert!(!roll_places(1, 0));
    assert!(roll_places(45, 45));
    assert!(!roll_places(46, 45));
    assert!(roll_places(100, 100));
}

/// The kind selectors map to the three kinds in draw order.
#[test]
fn kind_selectors_map_in_order() {
    assert!(matches!(kind_of_index(0), Vegetation::Grass));
    assert!(matches!(kind_of_index(1), Vegetation::Reeds));
    assert!(matches!(kind_of_index(2), Vegetation::Mats));
}

//! Depth classification: the land/water threshold, the noise-to-depth remap,
//! and the ordered table of depth bands with their vegetation placement rates.
//!
//! Everything is fixed-point: noise samples and depths are integers in
//! millionths of a unit, placement rates are integers in hundredths (so a
//! rate of 45 stands for 0.45).

use vstd::prelude::*;

use crate::region::Vegetation;

verus! {

/// The smallest noise sample, in millionths of a noise unit.
pub const NOISE_MIN_MICRO: i64 = -1_000_000;
/// The largest noise sample, in millionths of a noise unit.
pub const NOISE_MAX_MICRO: i64 = 1_000_000;
/// Samples strictly below this threshold are classified as land.
pub const NOISE_LAND_MIN_MICRO: i64 = -500_000;

/// The shallowest valid depth, in millionths of a depth unit.
pub const DEPTH_MIN_MICRO: i64 = 0;
/// The deepest valid depth, in millionths of a depth unit.
pub const DEPTH_MAX_MICRO: i64 = 15_000_000;

/// A raw noise sample, in millionths of a noise unit.
#[derive(Clone, Copy, Debug, PartialEq, Eq, Structural)]
pub struct NoiseDepth(pub i64);

/// A depth value, in millionths of a depth unit. Land cells map to a
/// sentinel one unit below `DEPTH_MIN_MICRO`.
#[derive(Clone, Copy, Debug, PartialEq, Eq, Structural)]
pub struct Depth(pub i64);

/// Declared for a depth that matches no band; generation's internal
/// validation keeps this from ever escaping, so nothing constructs it today.
#[derive(Clone, Copy, Debug, PartialEq, Eq, Structural)]
pub struct DepthError;

impl DepthError {
    /// The diagnostic text for an invalid depth.
    pub fn message(&self) -> (s: &'static str)
        ensures
            s@ == "Invalid depth"@,
    {
        "Invalid depth"
    }
}

/// The names of the four depth bands, shallowest first.
#[derive(Clone, Copy, Debug, PartialEq, Eq, Structural)]
pub enum DepthRangeName {
    SuperShallow,
    Shallow,
    MidDepth,
    Deep,
}

/// The placement rates of one vegetation kind within a band: the base rate
/// and the boosted rate used when a same-kind neighbour is adjacent. Both
/// are in hundredths.
#[derive(Clone, Copy, Debug, PartialEq, Eq, Structural)]
pub struct VegetationRate {
    pub vegetation: Vegetation,
    pub rate: u8,
    pub adjacency_rate: u8,
}

/// One depth band: an inclusive depth range and the per-kind placement
/// rates that apply inside it.
#[derive(Clone, Copy, Debug)]
pub struct DepthRange {
    pub min: i64,
    pub max: i64,
    pub vegetation_rates: [VegetationRate; 3],
    pub name: DepthRangeName,
}

/// The depth a noise sample remaps to: land samples map to the sentinel one
/// unit below the valid range, water samples are remapped linearly from the
/// remaining noise sub-range onto the full depth range.
pub open spec fn spec_depth_of_noise(m: int) -> int {
    if m < NOISE_LAND_MIN_MICRO {
        DEPTH_MIN_MICRO - 1_000_000
    } else {
        (m - NOISE_LAND_MIN_MICRO) * 10
    }
}

/// Lower bound of band `i`, in millionths of a depth unit.
pub open spec fn spec_band_min(i: int) -> int {
    if i == 0 {
        0
    } else if i == 1 {
        5_000_000
    } else if i == 2 {
        7_000_000
    } else {
        10_000_000
    }
}

/// Upper bound of band `i`, in millionths of a depth unit.
pub open spec fn spec_band_max(i: int) -> int {
    if i == 0 {
        5_000_000
    } else if i == 1 {
        7_000_000
    } else if i == 2 {
        10_000_000
    } else {
        15_000_000
    }
}

/// Name of band `i`.
pub open spec fn spec_band_name(i: int) -> DepthRangeName {
    if i == 0 {
        DepthRangeName::SuperShallow
    } else if i == 1 {
        DepthRangeName::Shallow
    } else if i == 2 {
        DepthRangeName::MidDepth
    } else {
        DepthRangeName::Deep
    }
}

/// The band a depth resolves to: the first band of the ordered table whose
/// inclusive range contains it.
pub open spec fn spec_band_index(d: int) -> int {
    if d <= 5_000_000 {
        0
    } else if d <= 7_000_000 {
        1
    } else if d <= 10_000_000 {
        2
    } else {
        3
    }
}

/// Base placement rate of kind `k` in band `i`, in hundredths.
pub open spec fn spec_base_rate(i: int, k: Vegetation) -> u8 {
    match k {
        Vegetation::Grass => if i == 0 { 10 } else if i == 1 { 20 } else if i == 2 { 12 } else { 5 },
        Vegetation::Reeds => if i == 0 { 20 } else if i == 1 { 20 } else { 0 },
        Vegetation::Mats => if i == 0 { 10 } else if i == 1 { 20 } else if i == 2 { 12 } else { 5 },
    }
}

/// Adjacency-boosted placement rate of kind `k` in band `i`, in hundredths.
pub open spec fn spec_adjacency_rate(i: int, k: Vegetation) -> u8 {
    match k {
        Vegetation::Grass => if i == 0 { 45 } else if i == 1 { 65 } else if i == 2 { 45 } else { 20 },
        Vegetation::Reeds => if i == 0 { 75 } else if i == 1 { 40 } else { 0 },
        Vegetation::Mats => if i == 0 { 75 } else if i == 1 { 75 } else if i == 2 { 45 } else { 20 },
    }
}

/// The rate that applies to kind `k` at depth `d`: the adjacency rate when a
/// same-kind neighbour was found, the base rate otherwise.
pub open spec fn spec_rate_for(d: int, k: Vegetation, adjacent: bool) -> u8 {
    if adjacent {
        spec_adjacency_rate(spec_band_index(d), k)
    } else {
        spec_base_rate(spec_band_index(d), k)
    }
}

/// The rate the first entry of `s` bearing kind `k` gives: its adjacency
/// rate when `adjacent`, its base rate otherwise.
pub open spec fn first_rate(s: Seq<VegetationRate>, k: Vegetation, adjacent: bool) -> u8
    decreases s.len(),
{
    if s.len() == 0 {
        0
    } else if s[0].vegetation == k {
        if adjacent {
            s[0].adjacency_rate
        } else {
            s[0].rate
        }
    } else {
        first_rate(s.drop_first(), k, adjacent)
    }
}

impl NoiseDepth {
    /// A sample is land exactly when it lies below the land threshold.
    pub fn is_land(&self) -> (b: bool)
        ensures
            b == (self.0 < NOISE_LAND_MIN_MICRO),
    {
        self.0 < NOISE_LAND_MIN_MICRO
    }
}

impl Depth {
    /// Remaps a noise sample to a depth: land samples get the sentinel below
    /// the valid range, water samples are remapped linearly onto
    /// `[DEPTH_MIN_MICRO, DEPTH_MAX_MICRO]`.
    pub fn from_noise(noise_value: NoiseDepth) -> (d: Depth)
        requires
            NOISE_MIN_MICRO <= noise_value.0 <= NOISE_MAX_MICRO,
        ensures
            d.0 == spec_depth_of_noise(noise_value.0 as int),
            noise_value.0 >= NOISE_LAND_MIN_MICRO ==> DEPTH_MIN_MICRO <= d.0 <= DEPTH_MAX_MICRO,
    {
        if noise_value.is_land() {
            Depth(DEPTH_MIN_MICRO - 1_000_000)
        } else {
            Depth((noise_value.0 - NOISE_LAND_MIN_MICRO) * 10)
        }
    }

    /// Resolves this depth to its band: a linear scan over the ordered table
    /// returning the first band whose inclusive range contains it.
    pub fn depth_range(&self) -> (r: DepthRange)
        requires
            DEPTH_MIN_MICRO <= self.0 <= DEPTH_MAX_MICRO,
        ensures
            r.min == spec_band_min(spec_band_index(self.0 as int)),
            r.max == spec_band_max(spec_band_index(self.0 as int)),
            r.name == spec_band_name(spec_band_index(self.0 as int)),
            r.vegetation_rates@ == spec_band_entries(spec_band_index(self.0 as int)),
    {
        if self.0 <= 5_000_000 {
            depth_range_at(0)
        } else if self.0 <= 7_000_000 {
            depth_range_at(1)
        } else if self.0 <= 10_000_000 {
            depth_range_at(2)
        } else {
            depth_range_at(3)
        }
    }
}

/// The canonical rate entries of band `i`, in table order.
pub open spec fn spec_band_entries(i: int) -> Seq<VegetationRate> {
    seq![
        (VegetationRate {
            vegetation: Vegetation::Grass,
            rate: spec_base_rate(i, Vegetation::Grass),
            adjacency_rate: spec_adjacency_rate(i, Vegetation::Grass),
        }),
        (VegetationRate {
            vegetation: Vegetation::Reeds,
            rate: spec_base_rate(i, Vegetation::Reeds),
            adjacency_rate: spec_adjacency_rate(i, Vegetation::Reeds),
        }),
        (VegetationRate {
            vegetation: Vegetation::Mats,
            rate: spec_base_rate(i, Vegetation::Mats),
            adjacency_rate: spec_adjacency_rate(i, Vegetation::Mats),
        }),
    ]
}

impl DepthRange {
    /// The rate that applies to kind `veg` in this band: the first entry
    /// bearing the kind decides, with `adjacent` selecting its boosted rate.
    pub fn get_vegetation_rate(&self, veg: &Vegetation, adjacent: bool) -> (r: u8)
        requires
            exists|j: int|
                0 <= j < self.vegetation_rates@.len() && self.vegetation_rates@[j].vegetation
                    == *veg,
        ensures
            r == first_rate(self.vegetation_rates@, *veg, adjacent),
    {
        let e0 = self.vegetation_rates[0];
        if e0.vegetation == *veg {
            if adjacent {
                e0.adjacency_rate
            } else {
                e0.rate
            }
        } else {
            let e1 = self.vegetation_rates[1];
            proof {
                assert(first_rate(self.vegetation_rates@, *veg, adjacent) == first_rate(
                    self.vegetation_rates@.drop_first(),
                    *veg,
                    adjacent,
                ));
                assert(self.vegetation_rates@.drop_first()[0] == self.vegetation_rates@[1]);
            }
            if e1.vegetation == *veg {
                if adjacent {
                    e1.adjacency_rate
                } else {
                    e1.rate
                }
            } else {
                let e2 = self.vegetation_rates[2];
                proof {
                    let tail = self.vegetation_rates@.drop_first();
                    assert(first_rate(tail, *veg, adjacent) == first_rate(
                        tail.drop_first(),
                        *veg,
                        adjacent,
                    ));
                    assert(tail.drop_first()[0] == self.vegetation_rates@[2]);
                    assert(self.vegetation_rates@[2].vegetation == *veg);
                }
                if adjacent {
                    e2.adjacency_rate
                } else {
                    e2.rate
                }
            }
        }
    }
}

/// Builds the `i`-th row of the band table.
pub fn depth_range_at(i: usize) -> (r: DepthRange)
    requires
        i < 4,
    ensures
        r.min == spec_band_min(i as int),
        r.max == spec_band_max(i as int),
        r.name == spec_band_name(i as int),
        r.vegetation_rates@ == spec_band_entries(i as int),
{
    let r = match i {
        0 => DepthRange {
            min: 0,
            max: 5_000_000,
            vegetation_rates: [
                VegetationRate { vegetation: Vegetation::Grass, rate: 10, adjacency_rate: 45 },
                VegetationRate { vegetation: Vegetation::Reeds, rate: 20, adjacency_rate: 75 },
                VegetationRate { vegetation: Vegetation::Mats, rate: 10, adjacency_rate: 75 },
            ],
            name: DepthRangeName::SuperShallow,
        },
        1 => DepthRange {
            min: 5_000_000,
            max: 7_000_000,
            vegetation_rates: [
                VegetationRate { vegetation: Vegetation::Grass, rate: 20, adjacency_rate: 65 },
                VegetationRate { vegetation: Vegetation::Reeds, rate: 20, adjacency_rate: 40 },
                VegetationRate { vegetation: Vegetation::Mats, rate: 20, adjacency_rate: 75 },
            ],
            name: DepthRangeName::Shallow,
        },
        2 => DepthRange {
            min: 7_000_000,
            max: 10_000_000,
            vegetation_rates: [
                VegetationRate { vegetation: Vegetation::Grass, rate: 12, adjacency_rate: 45 },
                VegetationRate { vegetation: Vegetation::Reeds, rate: 0, adjacency_rate: 0 },
                VegetationRate { vegetation: Vegetation::Mats, rate: 12, adjacency_rate: 45 },
            ],
            name: DepthRangeName::MidDepth,
        },
        _ => DepthRange {
            min: 10_000_000,
            max: 15_000_000,
            vegetation_rates: [
                VegetationRate { vegetation: Vegetation::Grass, rate: 5, adjacency_rate: 20 },
                VegetationRate { vegetation: Vegetation::Reeds, rate: 0, adjacency_rate: 0 },
                VegetationRate { vegetation: Vegetation::Mats, rate: 5, adjacency_rate: 20 },
            ],
            name: DepthRangeName::Deep,
        },
    };
    proof {
        assert(r.vegetation_rates@ =~= spec_band_entries(i as int));
    }
    r
}

/// Every depth in the valid range is resolved to exactly one band: the
/// resolved band contains it, every earlier band of the scan lies strictly
/// above it, and any index with those two properties is the resolved one.
pub proof fn lemma_band_coverage(d: int)
    requires
        DEPTH_MIN_MICRO <= d <= DEPTH_MAX_MICRO,
    ensures
        0 <= spec_band_index(d) < 4,
        spec_band_min(spec_band_index(d)) <= d <= spec_band_max(spec_band_index(d)),
        forall|i: int| 0 <= i < spec_band_index(d) ==> d > #[trigger] spec_band_max(i),
        forall|i: int|
            0 <= i < 4 && #[trigger] spec_band_min(i) <= d <= spec_band_max(i) && (forall|j: int|
                0 <= j < i ==> d > #[trigger] spec_band_max(j)) ==> i == spec_band_index(d),
{
}

/// Every band lists an entry for every vegetation kind.
pub proof fn lemma_band_has_kind(b: int, k: Vegetation)
    ensures
        exists|j: int|
            0 <= j < spec_band_entries(b).len() && spec_band_entries(b)[j].vegetation == k,
{
    match k {
        Vegetation::Grass => {
            assert(spec_band_entries(b)[0].vegetation == k);
        },
        Vegetation::Reeds => {
            assert(spec_band_entries(b)[1].vegetation == k);
        },
        Vegetation::Mats => {
            assert(spec_band_entries(b)[2].vegetation == k);
        },
    }
}

/// The first entry of a band's table bearing a kind carries exactly the
/// band's rates for that kind.
pub proof fn lemma_first_rate_of_band(b: int, k: Vegetation, adjacent: bool)
    ensures
        first_rate(spec_band_entries(b), k, adjacent) == if adjacent {
            spec_adjacency_rate(b, k)
        } else {
            spec_base_rate(b, k)
        },
{
    let s = spec_band_entries(b);
    match k {
        Vegetation::Grass => {
            assert(s[0].vegetation == k);
        },
        Vegetation::Reeds => {
            assert(s[0].vegetation != k);
            assert(first_rate(s, k, adjacent) == first_rate(s.drop_first(), k, adjacent));
            assert(s.drop_first()[0] == s[1]);
        },
        Vegetation::Mats => {
            assert(s[0].vegetation != k);
            assert(first_rate(s, k, adjacent) == first_rate(s.drop_first(), k, adjacent));
            let t = s.drop_first();
            assert(t[0] == s[1] && t[0].vegetation != k);
            assert(first_rate(t, k, adjacent) == first_rate(t.drop_first(), k, adjacent));
            assert(t.drop_first()[0] == s[2]);
        },
    }
}

/// Every placement rate of the table is within the unit interval: at most
/// 100 hundredths (and at least 0, being unsigned).
pub proof fn lemma_rates_within_unit(i: int, k: Vegetation)
    ensures
        spec_base_rate(i, k) <= 100,
        spec_adjacency_rate(i, k) <= 100,
{
}

} // verus!

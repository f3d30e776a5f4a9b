//! The region generator: walks the grid in row-major order, classifies each
//! cell from its noise sample, and runs the stochastic vegetation placement
//! for water cells, consulting the causally earlier up/left neighbours.
//!
//! The whole grid is pinned down by [`spec_generate`]: a pure function of
//! the seed, the scale and the dimensions, which is what makes generation
//! reproducible.

use vstd::prelude::*;

use vstd::arithmetic::div_mod::{
    lemma_fundamental_div_mod, lemma_fundamental_div_mod_converse, lemma_mod_multiples_basic,
    lemma_small_mod,
};
use vstd::arithmetic::mul::lemma_mul_inequality;

use crate::depth::{
    spec_band_index, spec_depth_of_noise, spec_rate_for, Depth, NoiseDepth, NOISE_LAND_MIN_MICRO,
};
use crate::noise_field::{noise_micro, NoiseField};
use crate::placement::{
    kind_of_index, placement_draws, roll_places, spec_kind_of, spec_roll_places, PlacementRng,
};
use crate::region::{
    has_kind, is_water, BottomComposition, TopographicLandRegion, TopographicRegion,
    TopographicWaterRegion, Vegetation,
};

verus! {

/// How many cells of `s` are water.
pub open spec fn water_count(s: Seq<TopographicRegion>) -> nat
    decreases s.len(),
{
    if s.len() == 0 {
        0
    } else {
        water_count(s.drop_last()) + if is_water(s.last()) {
            1nat
        } else {
            0nat
        }
    }
}

proof fn lemma_water_count_push(s: Seq<TopographicRegion>, r: TopographicRegion)
    ensures
        water_count(s.push(r)) == water_count(s) + if is_water(r) {
            1nat
        } else {
            0nat
        },
{
    assert(s.push(r).drop_last() =~= s);
    assert(s.push(r).last() == r);
}

proof fn lemma_water_count_le_len(s: Seq<TopographicRegion>)
    ensures
        water_count(s) <= s.len(),
    decreases s.len(),
{
    if s.len() > 0 {
        lemma_water_count_le_len(s.drop_last());
    }
}

/// Whether the candidate kind counts as adjacent at cell `i` of a row-major
/// grid of the given width, among the cells generated before it: the up
/// neighbour decides when it exists and is water; otherwise the left
/// neighbour, when it exists, decides; a cell with neither neighbour is
/// never adjacent.
pub open spec fn spec_adjacent(
    prefix: Seq<TopographicRegion>,
    width: nat,
    i: nat,
    k: Vegetation,
) -> bool {
    if i >= width && is_water(prefix[i - width]) {
        has_kind(prefix[i - width], k)
    } else if i % width != 0 {
        has_kind(prefix[i - 1], k)
    } else {
        false
    }
}

/// The cell generated at linear index `i`, given the cells generated before
/// it: land when the noise sample is below the land threshold, otherwise a
/// hard-bottomed water cell at the remapped depth, with the vegetation the
/// next placement draw and the adjacency rule decide.
pub open spec fn spec_cell(
    prefix: Seq<TopographicRegion>,
    seed: u32,
    scale: u32,
    width: nat,
    i: nat,
) -> TopographicRegion {
    let m = noise_micro(seed, scale, (i % width) as int, (i / width) as int);
    if m < NOISE_LAND_MIN_MICRO as int {
        TopographicRegion::Land(TopographicLandRegion {  })
    } else {
        let d = spec_depth_of_noise(m);
        let draws = placement_draws(seed as u64, water_count(prefix));
        let kind = spec_kind_of(draws.0);
        let adjacent = spec_adjacent(prefix, width, i, kind);
        let rate = spec_rate_for(d, kind, adjacent);
        let veg: Option<Vegetation> = if spec_roll_places(draws.1, rate as int) {
            Some(kind)
        } else {
            None
        };
        TopographicRegion::Water(
            TopographicWaterRegion {
                bottom: BottomComposition::Hard,
                vegetation: veg,
                structure: None,
                depth: Depth(d as i64),
            },
        )
    }
}

/// The first `n` cells of the generated grid.
pub open spec fn spec_prefix(seed: u32, scale: u32, width: nat, n: nat) -> Seq<TopographicRegion>
    decreases n,
{
    if n == 0 {
        Seq::empty()
    } else {
        let p = spec_prefix(seed, scale, width, (n - 1) as nat);
        p.push(spec_cell(p, seed, scale, width, (n - 1) as nat))
    }
}

/// The full generated grid, row-major: a pure function of the seed, the
/// scale and the dimensions.
pub open spec fn spec_generate(seed: u32, scale: u32, width: nat, height: nat) -> Seq<
    TopographicRegion,
> {
    spec_prefix(seed, scale, width, width * height)
}

/// Which causally earlier neighbour to look up.
pub enum AdjacencyDirection {
    Up,
    Left,
}

/// The neighbour of cell `(x, y)` in the given direction among the cells
/// generated so far, or `None` at the grid edge.
pub fn get_adjacent(
    map: &Vec<TopographicRegion>,
    width: usize,
    x: usize,
    y: usize,
    direction: AdjacencyDirection,
) -> (r: Option<TopographicRegion>)
    requires
        0 < width,
        x < width,
        y * width + x <= map@.len(),
    ensures
        match direction {
            AdjacencyDirection::Up => if y == 0 {
                r is None
            } else {
                r == Some(map@[(y - 1) * width + x])
            },
            AdjacencyDirection::Left => if x == 0 {
                r is None
            } else {
                r == Some(map@[y * width + x - 1])
            },
        },
{
    let n = map.len();
    match direction {
        AdjacencyDirection::Up => {
            if y == 0 {
                None
            } else {
                proof {
                    assert((y as int - 1) * (width as int) == (y as int) * (width as int)
                        - width as int) by (nonlinear_arith);
                }
                Some(map[((y - 1) * width) + x])
            }
        },
        AdjacencyDirection::Left => {
            if x == 0 {
                None
            } else {
                Some(map[(y * width) + x - 1])
            }
        },
    }
}

/// Computes the adjacency flag for the cell at `(x, y)`, the next cell to
/// be generated: the up neighbour decides when it is water; otherwise the
/// left neighbour.
pub fn compute_adjacent(
    map: &Vec<TopographicRegion>,
    width: usize,
    x: usize,
    y: usize,
    kind: &Vegetation,
) -> (r: bool)
    requires
        0 < width,
        x < width,
        map@.len() == y * width + x,
    ensures
        r == spec_adjacent(map@, width as nat, (y * width + x) as nat, *kind),
{
    proof {
        if y > 0 {
            lemma_mul_inequality(1, y as int, width as int);
            assert((y as int - 1) * (width as int) + x as int == (y as int) * (width as int)
                + x as int - width as int) by (nonlinear_arith);
        }
        lemma_fundamental_div_mod_converse(
            (y as int) * (width as int) + x as int,
            width as int,
            y as int,
            x as int,
        );
    }
    let up = get_adjacent(map, width, x, y, AdjacencyDirection::Up);
    match up {
        Some(TopographicRegion::Water(w)) => w.has_vegetation_type(kind),
        _ => {
            let left = get_adjacent(map, width, x, y, AdjacencyDirection::Left);
            match left {
                Some(TopographicRegion::Water(w)) => w.has_vegetation_type(kind),
                _ => false,
            }
        },
    }
}

/// Generates the full grid for the given parameters: cells in row-major
/// order, each exactly the cell [`spec_generate`] prescribes.
pub fn generate(seed: u32, width: usize, height: usize, scale_hundredths: u32) -> (data: Vec<
    TopographicRegion,
>)
    requires
        width * height <= usize::MAX,
        width <= u32::MAX as usize,
        height <= u32::MAX as usize,
    ensures
        data@ == spec_generate(seed, scale_hundredths, width as nat, height as nat),
        data@.len() == width * height,
{
    let mut rng = PlacementRng::new(seed as u64);
    let field = NoiseField::new(seed, scale_hundredths);
    let total = width * height;
    let mut data: Vec<TopographicRegion> = Vec::with_capacity(total);
    for i in 0..total
        invariant
            total == width * height,
            width <= u32::MAX as usize,
            height <= u32::MAX as usize,
            data@.len() == i,
            data@ == spec_prefix(seed, scale_hundredths, width as nat, i as nat),
            rng.spec_seed() == seed as u64,
            rng.spec_draws() == water_count(data@),
            field.spec_seed() == seed,
            field.spec_scale() == scale_hundredths,
    {
        proof {
            if width == 0 {
                assert(width * height == 0) by (nonlinear_arith)
                    requires
                        width == 0,
                ;
            }
            lemma_water_count_le_len(data@);
        }
        let x = i % width;
        let y = i / width;
        proof {
            lemma_fundamental_div_mod(i as int, width as int);
            if y > u32::MAX as usize {
                lemma_mul_inequality(height as int + 1, y as int, width as int);
                assert(false) by (nonlinear_arith)
                    requires
                        (height + 1) * width <= y * width,
                        y * width + x == i,
                        i < width * height,
                        width > 0,
                ;
            }
        }
        let micro = field.sample_micro(x, y);
        let nd = NoiseDepth(micro);
        let ghost prefix = data@;
        if nd.is_land() {
            let region = TopographicRegion::Land(TopographicLandRegion {  });
            proof {
                lemma_water_count_push(prefix, region);
                assert(region == spec_cell(prefix, seed, scale_hundredths, width as nat, i as nat));
            }
            data.push(region);
        } else {
            let depth = Depth::from_noise(nd);
            let draw = rng.draw_pair();
            let veg_type = kind_of_index(draw.0);
            let adjacent = compute_adjacent(&data, width, x, y, &veg_type);
            let range = depth.depth_range();
            proof {
                crate::depth::lemma_band_has_kind(spec_band_index(depth.0 as int), veg_type);
            }
            let rate = range.get_vegetation_rate(&veg_type, adjacent);
            let vegetation: Option<Vegetation> = if roll_places(draw.1, rate) {
                Some(veg_type)
            } else {
                None
            };
            let region = TopographicRegion::Water(
                TopographicWaterRegion::new(BottomComposition::Hard, vegetation, None, depth),
            );
            proof {
                crate::depth::lemma_first_rate_of_band(
                    spec_band_index(depth.0 as int),
                    veg_type,
                    adjacent,
                );
                lemma_water_count_push(prefix, region);
                assert(region == spec_cell(prefix, seed, scale_hundredths, width as nat, i as nat));
            }
            data.push(region);
        }
        proof {
            assert(data@ =~= spec_prefix(seed, scale_hundredths, width as nat, (i + 1) as nat));
        }
    }
    data
}

/// A generated topographic map: the construction parameters and the
/// row-major cell grid they deterministically produce, addressed by
/// `y * width + x`.
pub struct TopographicMap {
    pub seed: u32,
    pub width: usize,
    pub height: usize,
    pub scale_hundredths: u32,
    pub data: Vec<TopographicRegion>,
}

impl TopographicMap {
    /// A map is well formed when its grid is exactly what its parameters
    /// generate.
    pub open spec fn wf(self) -> bool {
        &&& self.data@ == spec_generate(
            self.seed,
            self.scale_hundredths,
            self.width as nat,
            self.height as nat,
        )
        &&& self.data@.len() == self.width * self.height
    }

    /// Runs the full generation eagerly and stores the result.
    pub fn new(seed: u32, width: usize, height: usize, scale_hundredths: u32) -> (r:
        TopographicMap)
        requires
            width * height <= usize::MAX,
            width <= u32::MAX as usize,
            height <= u32::MAX as usize,
        ensures
            r.wf(),
            r.seed == seed,
            r.width == width,
            r.height == height,
            r.scale_hundredths == scale_hundredths,
    {
        let data = generate(seed, width, height, scale_hundredths);
        TopographicMap { seed, width, height, scale_hundredths, data }
    }

    /// The cell at `(x, y)`.
    pub fn region_at(&self, x: usize, y: usize) -> (r: TopographicRegion)
        requires
            x < self.width,
            y < self.height,
            self.data@.len() == self.width * self.height,
        ensures
            r == self.data@[y * self.width + x],
    {
        let n = self.data.len();
        proof {
            lemma_mul_inequality(y as int + 1, self.height as int, self.width as int);
            assert((y as int) * (self.width as int) + (x as int) < (self.width as int) * (
            self.height as int)) by (nonlinear_arith)
                requires
                    (y as int + 1) * (self.width as int) <= (self.height as int) * (
                    self.width as int),
                    (x as int) < (self.width as int),
            ;
        }
        self.data[y * self.width + x]
    }
}

/// Determinism: two well-formed maps built from the same seed, dimensions
/// and scale hold exactly the same cells.
pub proof fn lemma_generation_deterministic(a: TopographicMap, b: TopographicMap)
    requires
        a.wf(),
        b.wf(),
        a.seed == b.seed,
        a.width == b.width,
        a.height == b.height,
        a.scale_hundredths == b.scale_hundredths,
    ensures
        a.data@ == b.data@,
{
}

/// A generated water cell carries a vegetation kind only when that kind was
/// the cell's drawn candidate and the placement roll fit the rate the
/// cell's band gives the kind; at a zero rate only the zero roll fits.
pub proof fn lemma_vegetation_respects_rate(
    prefix: Seq<TopographicRegion>,
    seed: u32,
    scale: u32,
    width: nat,
    i: nat,
    k: Vegetation,
)
    requires
        has_kind(spec_cell(prefix, seed, scale, width, i), k),
    ensures
        ({
            let m = noise_micro(seed, scale, (i % width) as int, (i / width) as int);
            let draws = placement_draws(seed as u64, water_count(prefix));
            let adjacent = spec_adjacent(prefix, width, i, k);
            &&& k == spec_kind_of(draws.0)
            &&& spec_roll_places(
                draws.1,
                spec_rate_for(spec_depth_of_noise(m), k, adjacent) as int,
            )
        }),
{
}

/// The first cell of the grid never counts as adjacent: it has no up and no
/// left neighbour.
pub proof fn lemma_adjacent_origin(prefix: Seq<TopographicRegion>, width: nat, k: Vegetation)
    requires
        width > 0,
    ensures
        !spec_adjacent(prefix, width, 0, k),
{
    lemma_small_mod(0, width);
}

/// In the first row, every cell after the first consults only its left
/// neighbour: that cell alone decides the adjacency flag.
pub proof fn lemma_adjacent_first_row(
    prefix: Seq<TopographicRegion>,
    width: nat,
    i: nat,
    k: Vegetation,
)
    requires
        0 < i < width,
    ensures
        spec_adjacent(prefix, width, i, k) == has_kind(prefix[i - 1], k),
{
    lemma_small_mod(i, width);
}

/// In the first column, every cell below the first consults only its up
/// neighbour: that cell alone decides the adjacency flag.
pub proof fn lemma_adjacent_first_column(
    prefix: Seq<TopographicRegion>,
    width: nat,
    y: nat,
    k: Vegetation,
)
    requires
        width > 0,
        y > 0,
    ensures
        spec_adjacent(prefix, width, y * width, k) == has_kind(prefix[y * width - width], k),
{
    lemma_mul_inequality(1, y as int, width as int);
    lemma_mod_multiples_basic(y as int, width as int);
}

} // verus!

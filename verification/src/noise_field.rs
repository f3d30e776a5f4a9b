//! The coherent-noise source behind the terrain shape.
//!
//! The `noise` crate's Perlin generator is deterministic: its permutation
//! table is built from the seed alone, and its 2D sampler is a pure function
//! of that table and the sampled point, clamped into `[-1, 1]`. The sampler
//! is therefore modelled by the uninterpreted function [`noise_micro`] of
//! the seed, the scale and the grid coordinates, with the sample expressed
//! in millionths of a noise unit.

use vstd::prelude::*;

use crate::depth::{NOISE_MAX_MICRO, NOISE_MIN_MICRO};

verus! {

#[verifier::external_type_specification]
#[verifier::external_body]
pub struct ExPermutationTable(noise::permutationtable::PermutationTable);

/// The noise sample at grid cell `(x, y)`, in millionths of a noise unit,
/// for the given seed and scale (the scale is in hundredths: the sampled
/// point is `(x, y)` times `scale_hundredths / 100`).
pub uninterp spec fn noise_micro(seed: u32, scale_hundredths: u32, x: int, y: int) -> int;

/// A seeded 2D coherent-noise field sampled at scaled grid coordinates.
pub struct NoiseField {
    perm_table: noise::permutationtable::PermutationTable,
    seed: u32,
    scale_hundredths: u32,
}

impl NoiseField {
    /// The seed this field was built from.
    pub closed spec fn spec_seed(self) -> u32 {
        self.seed
    }

    /// The scale this field samples at, in hundredths.
    pub closed spec fn spec_scale(self) -> u32 {
        self.scale_hundredths
    }

    /// Builds the field for a seed and a scale.
    ///
    /// Relies on `noise::permutationtable::PermutationTable::new`, which
    /// builds the permutation table deterministically from the seed; it is
    /// the same table `noise::Perlin::new` builds.
    #[verifier::external_body]
    pub fn new(seed: u32, scale_hundredths: u32) -> (r: NoiseField)
        ensures
            r.spec_seed() == seed,
            r.spec_scale() == scale_hundredths,
    {
        NoiseField {
            perm_table: noise::permutationtable::PermutationTable::new(seed),
            seed,
            scale_hundredths,
        }
    }

    /// The sample at grid cell `(x, y)`, converted to fixed point.
    ///
    /// Relies on `noise::core::perlin::perlin_2d` (what `noise::Perlin`'s 2D
    /// `NoiseFn::get` calls on its table): a pure function of the table and
    /// the sampled point, with its result clamped into `[-1, 1]`. The body
    /// only converts between the crate's unit scale and this library's
    /// fixed-point micro scale.
    #[verifier::external_body]
    pub fn sample_micro(&self, x: usize, y: usize) -> (r: i64)
        requires
            x <= u32::MAX as usize,
            y <= u32::MAX as usize,
        ensures
            r == noise_micro(self.spec_seed(), self.spec_scale(), x as int, y as int),
            NOISE_MIN_MICRO <= r <= NOISE_MAX_MICRO,
    {
        // The numeric bindings are built from integers through `Into` and
        // `mul_add`, taking their type from the sampler's own interface; the
        // origin sample only seeds that type and its value is not used.
        let origin = noise::Vector2::new(Into::into(0u32), Into::into(0u32));
        let s0 = noise::core::perlin::perlin_2d(origin, &self.perm_table);
        let hundred = s0.mul_add(Into::into(0u32), Into::into(100u32));
        let xf = s0.mul_add(Into::into(0u32), Into::into(x as u32));
        let yf = s0.mul_add(Into::into(0u32), Into::into(y as u32));
        let scale_units = s0.mul_add(Into::into(0u32), Into::into(self.scale_hundredths));
        let point = noise::Vector2::new(xf * scale_units / hundred, yf * scale_units / hundred);
        let sample = noise::core::perlin::perlin_2d(point, &self.perm_table);
        (sample * (hundred * hundred * hundred)) as i64
    }
}

} // verus!

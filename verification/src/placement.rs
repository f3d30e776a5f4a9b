//! The stochastic stream behind vegetation placement.
//!
//! The generator draws, for each water cell, a pair of values from a ChaCha
//! stream seeded independently of the noise field: a kind selector in
//! `0..3` and a placement roll in `0..=100`. ChaCha is a portable,
//! deterministic stream cipher, so for a fixed seed the whole sequence of
//! pairs is a function of the seed alone; the pair drawn at position `j` of
//! the stream is modelled by the uninterpreted function [`placement_draws`].

use vstd::prelude::*;

use rand::{RngExt, SeedableRng};

use crate::region::Vegetation;

verus! {

#[verifier::external_type_specification]
#[verifier::external_body]
pub struct ExChaCha8Rng(rand_chacha::ChaCha8Rng);

/// The `j`-th pair drawn from the placement stream of the given seed: the
/// kind selector (in `0..3`) first, the placement roll (in `0..=100`)
/// second.
pub uninterp spec fn placement_draws(seed: u64, j: nat) -> (int, int);

/// The placement stream: a seeded deterministic generator together with the
/// number of pairs already drawn from it.
pub struct PlacementRng {
    rng: rand_chacha::ChaCha8Rng,
    seed: u64,
    draws: u64,
}

impl PlacementRng {
    /// The seed this stream was built from.
    pub closed spec fn spec_seed(self) -> u64 {
        self.seed
    }

    /// How many pairs have been drawn from this stream.
    pub closed spec fn spec_draws(self) -> u64 {
        self.draws
    }

    /// Seeds a fresh stream.
    ///
    /// Relies on `SeedableRng::seed_from_u64` for `rand_chacha::ChaCha8Rng`,
    /// which expands the seed deterministically into the cipher key.
    #[verifier::external_body]
    pub fn new(seed: u64) -> (r: PlacementRng)
        ensures
            r.spec_seed() == seed,
            r.spec_draws() == 0,
    {
        PlacementRng { rng: rand_chacha::ChaCha8Rng::seed_from_u64(seed), seed, draws: 0 }
    }

    /// Draws the next pair: a kind selector in `0..3`, then a placement roll
    /// in `0..=100`.
    ///
    /// Relies on `rand`'s `RngExt::random_range` over ChaCha8: each draw is
    /// a deterministic function of the stream state, and this method is the
    /// only reader of the stream, so the pair drawn after `draws` earlier
    /// pairs is a function of the seed and `draws` alone. The ranges are
    /// those handed to `random_range`.
    #[verifier::external_body]
    pub fn draw_pair(&mut self) -> (r: (u8, u8))
        requires
            old(self).spec_draws() < u64::MAX,
        ensures
            final(self).spec_seed() == old(self).spec_seed(),
            final(self).spec_draws() == old(self).spec_draws() + 1,
            r.0 < 3,
            r.1 <= 100,
            r.0 as int == placement_draws(old(self).spec_seed(), old(self).spec_draws() as nat).0,
            r.1 as int == placement_draws(old(self).spec_seed(), old(self).spec_draws() as nat).1,
    {
        let kind: i32 = self.rng.random_range(0..3);
        let roll: i32 = self.rng.random_range(0..=100);
        self.draws += 1;
        (kind as u8, roll as u8)
    }
}

/// The vegetation kind a selector stands for: the three kinds in draw
/// order, with every selector above the range falling to the last.
pub open spec fn spec_kind_of(k: int) -> Vegetation {
    if k == 0 {
        Vegetation::Grass
    } else if k == 1 {
        Vegetation::Reeds
    } else {
        Vegetation::Mats
    }
}

/// Maps a kind selector to its vegetation kind.
pub fn kind_of_index(k: u8) -> (r: Vegetation)
    ensures
        r == spec_kind_of(k as int),
{
    match k {
        0 => Vegetation::Grass,
        1 => Vegetation::Reeds,
        _ => Vegetation::Mats,
    }
}

/// Whether a placement roll places vegetation at the given rate: it does
/// exactly when the roll does not exceed the rate (both in hundredths).
pub open spec fn spec_roll_places(roll: int, rate: int) -> bool {
    roll <= rate
}

/// Decides a placement: the candidate kind is placed exactly when the roll
/// does not exceed the selected rate.
pub fn roll_places(roll: u8, rate: u8) -> (r: bool)
    ensures
        r == spec_roll_places(roll as int, rate as int),
{
    roll <= rate
}

/// A nonzero roll never places vegetation at a zero rate; only the zero
/// roll can.
pub proof fn lemma_zero_rate_needs_zero_roll(roll: int, rate: int)
    requires
        rate == 0,
        roll >= 1,
    ensures
        !spec_roll_places(roll, rate),
{
}

} // verus!

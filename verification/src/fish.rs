//! The fish-population stepper: a tick-driven collaborator of the map,
//! independently seeded and stepped on its own schedule.
//!
//! Each tick ages every living fish, kills those whose death roll comes up
//! or whose age passes the limit, restocks when the population falls below
//! the spawn threshold, and records the population. The death rate is in
//! hundredths; the death rolls come from a seeded generator behind a
//! trusted boundary, so the contracts state what holds of every outcome.

use vstd::prelude::*;

use vstd::pervasive::VecAdditionalExecFns;

use rand::{RngExt, SeedableRng};

verus! {

#[verifier::external_type_specification]
#[verifier::external_body]
pub struct ExStdRng(rand::rngs::StdRng);

/// The source of death rolls: a seeded generator.
pub struct FishRng {
    rng: rand::rngs::StdRng,
}

impl FishRng {
    /// Seeds a fresh roll source.
    ///
    /// Relies on `SeedableRng::seed_from_u64` for `rand::rngs::StdRng`.
    #[verifier::external_body]
    pub fn new(seed: u64) -> FishRng {
        FishRng { rng: rand::rngs::StdRng::seed_from_u64(seed) }
    }

    /// One death roll at the given rate in hundredths.
    ///
    /// Relies on `rand`'s `RngExt::random_ratio`: a rate of zero never
    /// rolls true and a rate of one hundred always does; in between, either
    /// outcome can come back.
    #[verifier::external_body]
    pub fn roll(&mut self, rate_hundredths: u8) -> (r: bool)
        requires
            rate_hundredths <= 100,
        ensures
            rate_hundredths == 0 ==> !r,
            rate_hundredths == 100 ==> r,
    {
        self.rng.random_ratio(rate_hundredths as u32, 100)
    }
}

/// One fish: its identifier, its age in ticks, and whether it still lives.
#[derive(Clone, Copy, Debug, PartialEq, Eq, Structural)]
pub struct Fish {
    pub id: usize,
    pub age: u32,
    pub alive: bool,
}

impl Fish {
    /// A newborn fish: age zero, alive.
    pub fn new(id: usize) -> (f: Fish)
        ensures
            f == (Fish { id, age: 0, alive: true }),
    {
        Fish { id, age: 0, alive: true }
    }

    /// Ages this fish one tick; it dies when its death roll came up or when
    /// its new age passes ten.
    pub fn step(&mut self, fatal_roll: bool)
        requires
            old(self).age < u32::MAX,
        ensures
            final(self).id == old(self).id,
            final(self).age == old(self).age + 1,
            final(self).alive == (old(self).alive && !(fatal_roll || old(self).age + 1 > 10)),
    {
        self.age = self.age + 1;
        if fatal_roll || self.age > 10 {
            self.alive = false;
        }
    }
}

/// How many fish of `s` are alive.
pub open spec fn count_alive(s: Seq<Fish>) -> nat
    decreases s.len(),
{
    if s.len() == 0 {
        0
    } else {
        count_alive(s.drop_last()) + if s.last().alive {
            1nat
        } else {
            0nat
        }
    }
}

/// The living fish of `s`, in order.
pub open spec fn alive_seq(s: Seq<Fish>) -> Seq<Fish>
    decreases s.len(),
{
    if s.len() == 0 {
        Seq::empty()
    } else if s.last().alive {
        alive_seq(s.drop_last()).push(s.last())
    } else {
        alive_seq(s.drop_last())
    }
}

/// The tick-driven population simulation.
pub struct FishSimulation {
    pub fish: Vec<Fish>,
    pub next_id: usize,
    pub rng: FishRng,
    pub death_rate_hundredths: u8,
    pub spawn_threshold: usize,
    pub spawn_count: usize,
    pub history: Vec<usize>,
}

impl FishSimulation {
    /// Builds a simulation with the given starting population, death rate in
    /// hundredths, restocking rule and seed. The history starts with the
    /// initial population.
    pub fn new_with_seed(
        initial_count: usize,
        death_rate_hundredths: u8,
        spawn_threshold: usize,
        spawn_count: usize,
        seed: u64,
    ) -> (r: FishSimulation)
        requires
            death_rate_hundredths <= 100,
        ensures
            r.fish@.len() == initial_count,
            forall|i: int|
                0 <= i < initial_count ==> r.fish@[i] == (Fish {
                    id: i as usize,
                    age: 0,
                    alive: true,
                }),
            r.next_id == initial_count,
            r.death_rate_hundredths == death_rate_hundredths,
            r.spawn_threshold == spawn_threshold,
            r.spawn_count == spawn_count,
            r.history@ == seq![initial_count],
    {
        let mut fish: Vec<Fish> = Vec::with_capacity(initial_count);
        for i in 0..initial_count
            invariant
                fish@.len() == i,
                forall|j: int|
                    0 <= j < i ==> fish@[j] == (Fish { id: j as usize, age: 0, alive: true }),
        {
            fish.push(Fish::new(i));
        }
        let mut history: Vec<usize> = Vec::new();
        history.push(initial_count);
        proof {
            assert(history@ =~= seq![initial_count]);
        }
        FishSimulation {
            fish,
            next_id: initial_count,
            rng: FishRng::new(seed),
            death_rate_hundredths,
            spawn_threshold,
            spawn_count,
            history,
        }
    }

    /// How many fish are alive right now.
    pub fn population_count(&self) -> (c: usize)
        ensures
            c as nat == count_alive(self.fish@),
    {
        let n = self.fish.len();
        let mut c: usize = 0;
        for i in 0..n
            invariant
                n == self.fish@.len(),
                c as nat == count_alive(self.fish@.take(i as int)),
                c <= i,
        {
            if self.fish[i].alive {
                c = c + 1;
            }
            proof {
                assert(self.fish@.take(i + 1).drop_last() =~= self.fish@.take(i as int));
                assert(self.fish@.take(i + 1).last() == self.fish@[i as int]);
            }
        }
        proof {
            assert(self.fish@.take(n as int) =~= self.fish@);
        }
        c
    }

    /// The living fish, in order.
    pub fn alive_fish(&self) -> (r: Vec<Fish>)
        ensures
            r@ == alive_seq(self.fish@),
    {
        let n = self.fish.len();
        let mut r: Vec<Fish> = Vec::new();
        for i in 0..n
            invariant
                n == self.fish@.len(),
                r@ == alive_seq(self.fish@.take(i as int)),
        {
            let f = self.fish[i];
            proof {
                assert(self.fish@.take(i + 1).drop_last() =~= self.fish@.take(i as int));
                assert(self.fish@.take(i + 1).last() == self.fish@[i as int]);
            }
            if f.alive {
                r.push(f);
            }
        }
        proof {
            assert(self.fish@.take(n as int) =~= self.fish@);
        }
        r
    }

    /// The recorded population, one entry per tick plus the starting entry.
    pub fn history(&self) -> (r: &Vec<usize>)
        ensures
            r@ == self.history@,
    {
        &self.history
    }

    /// Restocks `count` newborn fish with consecutive fresh identifiers.
    pub fn spawn_fish(&mut self, count: usize)
        requires
            old(self).next_id + count <= usize::MAX,
            old(self).fish@.len() + count <= usize::MAX,
        ensures
            final(self).fish@.len() == old(self).fish@.len() + count,
            forall|i: int|
                0 <= i < old(self).fish@.len() ==> final(self).fish@[i] == old(self).fish@[i],
            forall|i: int|
                old(self).fish@.len() <= i < final(self).fish@.len() ==> final(self).fish@[i] == (
                Fish { id: (old(self).next_id + i - old(self).fish@.len()) as usize, age: 0, alive: true }),
            final(self).next_id == old(self).next_id + count,
            final(self).death_rate_hundredths == old(self).death_rate_hundredths,
            final(self).spawn_threshold == old(self).spawn_threshold,
            final(self).spawn_count == old(self).spawn_count,
            final(self).history@ == old(self).history@,
    {
        let n = self.fish.len();
        for k in 0..count
            invariant
                n == old(self).fish@.len(),
                old(self).next_id + count <= usize::MAX,
                n + count <= usize::MAX,
                self.fish@.len() == n + k,
                self.next_id == old(self).next_id + k,
                forall|i: int| 0 <= i < n ==> self.fish@[i] == old(self).fish@[i],
                forall|i: int|
                    n <= i < n + k ==> self.fish@[i] == (Fish {
                        id: (old(self).next_id + i - n) as usize,
                        age: 0,
                        alive: true,
                    }),
                self.death_rate_hundredths == old(self).death_rate_hundredths,
                self.spawn_threshold == old(self).spawn_threshold,
                self.spawn_count == old(self).spawn_count,
                self.history@ == old(self).history@,
        {
            self.fish.push(Fish::new(self.next_id));
            self.next_id = self.next_id + 1;
        }
    }

    /// One tick: every living fish ages and may die (a fatal roll at the
    /// death rate, or passing age ten, kills it; the dead are untouched);
    /// then, when the survivors fall below the spawn threshold, the
    /// population is restocked by `spawn_count`; finally the new population
    /// is recorded.
    pub fn step(&mut self)
        requires
            old(self).death_rate_hundredths <= 100,
            old(self).next_id + old(self).spawn_count <= usize::MAX,
            old(self).fish@.len() + old(self).spawn_count <= usize::MAX,
            forall|i: int| 0 <= i < old(self).fish@.len() ==> old(self).fish@[i].age < u32::MAX,
        ensures
            ({
                let n = old(self).fish@.len() as int;
                let spawned: int = if count_alive(final(self).fish@.take(n)) < old(
                    self,
                ).spawn_threshold {
                    old(self).spawn_count as int
                } else {
                    0
                };
                &&& final(self).fish@.len() == n + spawned
                &&& final(self).next_id == old(self).next_id + spawned
                &&& forall|i: int|
                    0 <= i < n ==> (#[trigger] final(self).fish@[i]).id == old(self).fish@[i].id
                &&& forall|i: int|
                    0 <= i < n ==> (#[trigger] final(self).fish@[i]).age == old(self).fish@[i].age
                        + (if old(self).fish@[i].alive {
                        1int
                    } else {
                        0int
                    })
                &&& forall|i: int|
                    0 <= i < n ==> ((#[trigger] final(self).fish@[i]).alive ==> old(
                    self,
                    ).fish@[i].alive)
                &&& forall|i: int|
                    0 <= i < n && old(self).fish@[i].alive && old(self).fish@[i].age + 1 > 10
                        ==> !(#[trigger] final(self).fish@[i]).alive
                &&& forall|i: int|
                    0 <= i < n && !old(self).fish@[i].alive ==> (#[trigger] final(self).fish@[i])
                        == old(self).fish@[i]
                &&& forall|i: int|
                    n <= i < n + spawned ==> (#[trigger] final(self).fish@[i]) == (Fish {
                        id: (old(self).next_id + i - n) as usize,
                        age: 0,
                        alive: true,
                    })
                &&& final(self).history@ == old(self).history@.push(
                    count_alive(final(self).fish@) as usize,
                )
                &&& final(self).death_rate_hundredths == old(self).death_rate_hundredths
                &&& final(self).spawn_threshold == old(self).spawn_threshold
                &&& final(self).spawn_count == old(self).spawn_count
            }),
    {
        let n = self.fish.len();
        for idx in 0..n
            invariant
                n == old(self).fish@.len(),
                self.fish@.len() == n,
                old(self).death_rate_hundredths <= 100,
                forall|i: int| 0 <= i < n ==> old(self).fish@[i].age < u32::MAX,
                forall|i: int|
                    idx <= i < n ==> (#[trigger] self.fish@[i]) == old(self).fish@[i],
                forall|i: int|
                    0 <= i < idx ==> (#[trigger] self.fish@[i]).id == old(self).fish@[i].id,
                forall|i: int|
                    0 <= i < idx ==> (#[trigger] self.fish@[i]).age == old(self).fish@[i].age + (
                    if old(self).fish@[i].alive {
                        1int
                    } else {
                        0int
                    }),
                forall|i: int|
                    0 <= i < idx ==> ((#[trigger] self.fish@[i]).alive ==> old(self).fish@[i].alive),
                forall|i: int|
                    0 <= i < idx && old(self).fish@[i].alive && old(self).fish@[i].age + 1 > 10
                        ==> !(#[trigger] self.fish@[i]).alive,
                forall|i: int|
                    0 <= i < idx && !old(self).fish@[i].alive ==> (#[trigger] self.fish@[i]) == old(
                    self,
                    ).fish@[i],
                self.next_id == old(self).next_id,
                self.death_rate_hundredths == old(self).death_rate_hundredths,
                self.spawn_threshold == old(self).spawn_threshold,
                self.spawn_count == old(self).spawn_count,
                self.history@ == old(self).history@,
        {
            let f = self.fish[idx];
            if f.alive {
                let roll = self.rng.roll(self.death_rate_hundredths);
                let mut g = f;
                g.step(roll);
                self.fish.set(idx, g);
            }
        }
        let ghost aged = self.fish@;
        let alive_now = self.population_count();
        if alive_now < self.spawn_threshold {
            self.spawn_fish(self.spawn_count);
        }
        proof {
            assert(self.fish@.take(n as int) =~= aged);
        }
        let population = self.population_count();
        self.history.push(population);
    }
}

} // verus!

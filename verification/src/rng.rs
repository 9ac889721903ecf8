//! Sources of uniform randomness for the heuristics.
//!
//! Every randomized decision in this crate draws plain `u64` values from a
//! [`Rng`]. A source is either seeded, backed by `rand`'s standard generator,
//! or scripted, replaying a fixed list of draws (useful for tests and for
//! making runs exactly reproducible by hand).
//!
//! Each source has a ghost model, [`RngModel`], and every draw is pinned to
//! that model, so that a whole heuristic run is a mathematical function of the
//! initial models of its randomness sources.
use vstd::prelude::*;

verus! {

/// The mathematical state of a randomness source: which draws it will
/// produce, and how many have been consumed.
pub enum RngModel {
    /// Seeded standard generator: `seed` and the number of draws so far.
    Seeded { seed: u64, pos: nat },
    /// Scripted draws: the full script and a cursor into it.
    Scripted { draws: Seq<u64>, pos: nat },
}

/// The `k`-th `u64` drawn from `rand`'s standard generator seeded with
/// `seed` via `seed_from_u64`. For the locked version of the generator a
/// fixed seed yields a fixed stream on every machine, so this is a
/// function of `seed` and `k`; the generator's value stream is not promised
/// across library versions, so this naming is tied to the version the
/// lockfile pins.
pub uninterp spec fn std_draw(seed: u64, k: int) -> u64;

/// A seeded source backed by `rand::rngs::StdRng`.
pub struct SeededRng {
    inner: rand::rngs::StdRng,
    seed: Ghost<u64>,
    pos: Ghost<nat>,
}

#[verifier::external_type_specification]
#[verifier::external_body]
pub struct ExStdRng(rand::rngs::StdRng);

impl SeededRng {
    pub closed spec fn seed(&self) -> u64 {
        self.seed@
    }

    pub closed spec fn pos(&self) -> nat {
        self.pos@
    }

    /// Relies on `rand_core::SeedableRng::seed_from_u64`: a fixed seed
    /// yields a reproducible generator (for the locked library version, see
    /// [`std_draw`]), here taken fresh with zero draws so far.
    #[verifier::external_body]
    pub fn from_seed(seed: u64) -> (r: SeededRng)
        ensures
            r.seed() == seed,
            r.pos() == 0,
    {
        SeededRng {
            inner: <rand::rngs::StdRng as rand::SeedableRng>::seed_from_u64(seed),
            seed: Ghost(seed),
            pos: Ghost(0nat),
        }
    }

    /// Relies on `rand_core::Rng::next_u64` for `StdRng`: the next value of
    /// the generator's reproducible stream. The generator is infallible and
    /// does not panic.
    #[verifier::external_body]
    pub fn next_u64(&mut self) -> (r: u64)
        ensures
            r == std_draw(old(self).seed(), old(self).pos() as int),
            final(self).seed() == old(self).seed(),
            final(self).pos() == old(self).pos() + 1,
        no_unwind
    {
        rand::Rng::next_u64(&mut self.inner)
    }
}

/// A scripted source: replays `draws` in order, then returns 0 forever.
pub struct ScriptedRng {
    draws: Vec<u64>,
    pos: usize,
}

impl ScriptedRng {
    pub closed spec fn draws(&self) -> Seq<u64> {
        self.draws@
    }

    pub closed spec fn pos(&self) -> nat {
        self.pos as nat
    }

    pub fn from_script(draws: Vec<u64>) -> (r: ScriptedRng)
        ensures
            r.draws() == draws@,
            r.pos() == 0,
    {
        ScriptedRng { draws, pos: 0 }
    }

    pub fn next_u64(&mut self) -> (r: u64)
        ensures
            r == scripted_draw(old(self).draws(), old(self).pos()),
            final(self).draws() == old(self).draws(),
            final(self).pos() == scripted_step(old(self).draws(), old(self).pos()),
        no_unwind
    {
        if self.pos < self.draws.len() {
            let r = self.draws[self.pos];
            self.pos = self.pos + 1;
            r
        } else {
            0
        }
    }
}

/// The value a scripted source with script `draws` produces at cursor `pos`.
pub open spec fn scripted_draw(draws: Seq<u64>, pos: nat) -> u64 {
    if pos < draws.len() {
        draws[pos as int]
    } else {
        0
    }
}

/// The cursor of a scripted source after one draw.
pub open spec fn scripted_step(draws: Seq<u64>, pos: nat) -> nat {
    if pos < draws.len() {
        pos + 1
    } else {
        pos
    }
}

/// A source of uniform randomness: seeded or scripted.
pub enum Rng {
    Seeded(SeededRng),
    Scripted(ScriptedRng),
}

/// The next `u64` a source in state `m` will produce.
pub open spec fn rng_peek(m: RngModel) -> u64 {
    match m {
        RngModel::Seeded { seed, pos } => std_draw(seed, pos as int),
        RngModel::Scripted { draws, pos } => scripted_draw(draws, pos),
    }
}

/// The state of a source after one draw from state `m`.
pub open spec fn rng_step(m: RngModel) -> RngModel {
    match m {
        RngModel::Seeded { seed, pos } => RngModel::Seeded { seed, pos: pos + 1 },
        RngModel::Scripted { draws, pos } => RngModel::Scripted {
            draws,
            pos: scripted_step(draws, pos),
        },
    }
}

impl Rng {
    /// The mathematical state of this source.
    pub closed spec fn model(&self) -> RngModel {
        match self {
            Rng::Seeded(s) => RngModel::Seeded { seed: s.seed(), pos: s.pos() },
            Rng::Scripted(s) => RngModel::Scripted { draws: s.draws(), pos: s.pos() },
        }
    }

    /// A source backed by the standard generator with the given seed.
    pub fn from_seed(seed: u64) -> (r: Rng)
        ensures
            r.model() == (RngModel::Seeded { seed, pos: 0nat }),
    {
        Rng::Seeded(SeededRng::from_seed(seed))
    }

    /// A source replaying the given draws, then producing 0 forever.
    pub fn from_script(draws: Vec<u64>) -> (r: Rng)
        ensures
            r.model() == (RngModel::Scripted { draws: draws@, pos: 0nat }),
    {
        Rng::Scripted(ScriptedRng::from_script(draws))
    }

    /// Draw one uniform `u64`.
    pub fn next_u64(&mut self) -> (r: u64)
        ensures
            r == rng_peek(old(self).model()),
            final(self).model() == rng_step(old(self).model()),
        no_unwind
    {
        match self {
            Rng::Seeded(s) => s.next_u64(),
            Rng::Scripted(s) => s.next_u64(),
        }
    }

    /// Draw a value below `n`, as the next draw reduced modulo `n`.
    pub fn below(&mut self, n: u64) -> (r: u64)
        requires
            n > 0,
        ensures
            r == rng_peek(old(self).model()) % n,
            r < n,
            final(self).model() == rng_step(old(self).model()),
        no_unwind
    {
        self.next_u64() % n
    }
}

} // verus!

//! A 64-bit linear congruential generator with reproducible output.
use vstd::prelude::*;

verus! {

/// Multiplier of the generator's state update.
pub const LCG_MULTIPLIER: u64 = 6364136223846793005;

/// Increment of the generator's state update.
pub const LCG_INCREMENT: u64 = 1;

/// The state a generator starts from for a given seed: a zero seed would
/// start from the all-zero state, so it is replaced by one.
pub open spec fn seed_state(seed: u32) -> u64 {
    if seed == 0 {
        1
    } else {
        seed as u64
    }
}

/// One step of the generator: `state * LCG_MULTIPLIER + LCG_INCREMENT`
/// modulo 2^64.
pub open spec fn lcg_next(state: u64) -> u64 {
    ((state as int * LCG_MULTIPLIER as int + LCG_INCREMENT as int) % 0x1_0000_0000_0000_0000) as u64
}

/// What a draw yields from the state it has just produced: bits 33 to 63.
pub open spec fn draw_bits(state: u64) -> u32 {
    (state / 0x2_0000_0000) as u32
}

/// The state after `k` steps from the state that `seed` selects.
pub open spec fn state_after(seed: u32, k: nat) -> u64
    decreases k,
{
    if k == 0 {
        seed_state(seed)
    } else {
        lcg_next(state_after(seed, (k - 1) as nat))
    }
}

/// The `k`-th draw (counting from zero) of a generator made from `seed`.
pub open spec fn nth_draw(seed: u32, k: nat) -> u32 {
    draw_bits(state_after(seed, k + 1))
}

/// A zero seed selects the same state as the seed one, so both give the same
/// draws.
pub proof fn lemma_zero_seed_as_seed_one(k: nat)
    ensures
        state_after(0, k) == state_after(1, k),
        nth_draw(0, k) == nth_draw(1, k),
{
    lemma_zero_seed_state(k);
    lemma_zero_seed_state(k + 1);
}

proof fn lemma_zero_seed_state(k: nat)
    ensures
        state_after(0, k) == state_after(1, k),
    decreases k,
{
    if k > 0 {
        lemma_zero_seed_state((k - 1) as nat);
    }
}

/// The first draw of a generator seeded with zero is not zero: the
/// substituted state does not collapse into a sequence of zeros.
pub proof fn lemma_zero_seed_first_draw()
    ensures
        nth_draw(0, 0) == 740882966,
        nth_draw(0, 0) != 0,
{
    assert(state_after(0, 0) == 1);
    assert(state_after(0, 1) == lcg_next(1));
    assert(lcg_next(1) == 6364136223846793006u64);
    assert(draw_bits(6364136223846793006u64) == 740882966);
}

/// A generator; its whole state is one 64-bit word.
pub struct Lcg {
    pub state: u64,
}

impl Lcg {
    /// A generator seeded with `seed`.
    pub fn new(seed: u32) -> (r: Lcg)
        ensures
            r.state == seed_state(seed),
    {
        let state: u64 = if seed == 0 {
            1
        } else {
            seed as u64
        };
        Lcg { state }
    }

    /// Advances the state once and returns the draw of the new state, a
    /// value below 2^31.
    pub fn next_bits(&mut self) -> (r: u32)
        ensures
            final(self).state == lcg_next(old(self).state),
            r == draw_bits(final(self).state),
            r < 0x8000_0000,
    {
        self.state = self.state.wrapping_mul(LCG_MULTIPLIER).wrapping_add(LCG_INCREMENT);
        let s: u64 = self.state;
        let r: u64 = s >> 33u64;
        assert(r == s / 0x2_0000_0000) by (bit_vector)
            requires
                r == s >> 33u64,
        ;
        assert(r < 0x8000_0000) by (bit_vector)
            requires
                r == s >> 33u64,
        ;
        r as u32
    }
}

} // verus!

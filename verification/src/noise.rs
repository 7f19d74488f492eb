//! The xorshift32 white-noise source.
//!
//! The generator holds one `u32` of state. Each draw applies the xorshift
//! triple (13, 17, 5) to the state and hands back the new state; turning that
//! integer into an audio sample in `[-1, 1]` is floating-point work done by the
//! caller.

use vstd::prelude::*;

verus! {

/// One xorshift32 step: `x ^= x << 13; x ^= x >> 17; x ^= x << 5`,
/// with shifts truncated to 32 bits.
pub open spec fn xorshift_step(x: u32) -> u32 {
    let a = x ^ (x << 13u32);
    let b = a ^ (a >> 17u32);
    b ^ (b << 5u32)
}

/// The state reached from `x` after `n` steps.
pub open spec fn xorshift_iterate(x: u32, n: nat) -> u32
    decreases n,
{
    if n == 0 {
        x
    } else {
        xorshift_step(xorshift_iterate(x, (n - 1) as nat))
    }
}

/// Computes one xorshift32 step.
pub fn xorshift32(x: u32) -> (r: u32)
    ensures
        r == xorshift_step(x),
        ({
            let a = x ^ (x << 13u32);
            let b = a ^ (a >> 17u32);
            r == b ^ (b << 5u32)
        }),
{
    let mut y: u32 = x;
    y = y ^ (y << 13u32);
    y = y ^ (y >> 17u32);
    y = y ^ (y << 5u32);
    y
}

/// Undoes one xorshift32 step, reversing its three stages in turn.
pub open spec fn xorshift_unstep(r: u32) -> u32 {
    let b = r ^ (r << 5u32) ^ (r << 10u32) ^ (r << 15u32) ^ (r << 20u32) ^ (r << 25u32) ^ (r
        << 30u32);
    let a = b ^ (b >> 17u32);
    a ^ (a << 13u32) ^ (a << 26u32)
}

/// The step has an inverse: no two states lead to the same next state.
pub proof fn lemma_step_invertible(x: u32)
    ensures
        xorshift_unstep(xorshift_step(x)) == x,
{
    assert(xorshift_unstep(xorshift_step(x)) == x) by (bit_vector);
}

/// Two states that differ still differ after one step.
pub proof fn lemma_step_injective(a: u32, b: u32)
    ensures
        xorshift_step(a) == xorshift_step(b) ==> a == b,
{
    lemma_step_invertible(a);
    lemma_step_invertible(b);
}

/// Two seeds that differ never lead to the same state after the same number of steps.
pub proof fn lemma_iterate_injective(a: u32, b: u32, n: nat)
    ensures
        xorshift_iterate(a, n) == xorshift_iterate(b, n) ==> a == b,
    decreases n,
{
    if n > 0 {
        lemma_step_injective(xorshift_iterate(a, (n - 1) as nat), xorshift_iterate(b, (n - 1) as nat));
        lemma_iterate_injective(a, b, (n - 1) as nat);
    }
}

/// The all-zero state is fixed: a generator seeded with zero produces only zeros.
pub proof fn lemma_zero_state_fixed(n: nat)
    ensures
        xorshift_iterate(0, n) == 0,
    decreases n,
{
    if n > 0 {
        lemma_zero_state_fixed((n - 1) as nat);
        assert(xorshift_step(0) == 0) by (bit_vector);
    }
}

/// A generator seeded with a nonzero value never reaches the all-zero state.
pub proof fn lemma_nonzero_state_stays_nonzero(x: u32, n: nat)
    requires
        x != 0,
    ensures
        xorshift_iterate(x, n) != 0,
{
    lemma_zero_state_fixed(n);
    lemma_iterate_injective(x, 0, n);
}

/// One more iteration is one more xorshift step from where the iteration stood.
pub proof fn lemma_iterate_succ(x: u32, n: nat)
    ensures
        xorshift_iterate(x, n + 1) == xorshift_step(xorshift_iterate(x, n)),
        xorshift_iterate(x, 0) == x,
        xorshift_iterate(x, 1) == xorshift_step(x),
{
}

/// Advancing by `m` steps and then by `n` steps is advancing by `m + n` steps.
pub proof fn lemma_iterate_add(x: u32, m: nat, n: nat)
    ensures
        xorshift_iterate(xorshift_iterate(x, m), n) == xorshift_iterate(x, m + n),
    decreases n,
{
    if n > 0 {
        lemma_iterate_add(x, m, (n - 1) as nat);
    }
}

/// How many uniform draws are summed into one approximately Gaussian sample.
pub const GAUSSIAN_TERMS: usize = 16;

/// A xorshift32 noise generator; its view is the current state.
pub struct NoiseGenerator {
    state: u32,
}

impl View for NoiseGenerator {
    type V = u32;

    closed spec fn view(&self) -> u32 {
        self.state
    }
}

impl NoiseGenerator {
    /// A generator whose state is `seed`.
    pub fn new(seed: u32) -> (g: Self)
        ensures
            g@ == seed,
    {
        Self { state: seed }
    }

    /// Advances the state by one xorshift step and returns the new state.
    pub fn next_raw(&mut self) -> (r: u32)
        ensures
            r == xorshift_step(old(self)@),
            final(self)@ == r,
    {
        let x = xorshift32(self.state);
        self.state = x;
        x
    }

    /// Draws `count` successive raw values: the `i`-th is the state after
    /// `i + 1` steps, and the generator is left after `count` steps.
    pub fn next_raw_batch(&mut self, count: usize) -> (out: Vec<u32>)
        ensures
            out.len() == count,
            forall|i: int| 0 <= i < count ==> out[i] == xorshift_iterate(old(self)@, (i + 1) as nat),
            final(self)@ == xorshift_iterate(old(self)@, count as nat),
            count > 0 ==> out[0] == xorshift_step(old(self)@),
            forall|i: int| 0 <= i < count - 1 ==> #[trigger] out[i + 1] == xorshift_step(out[i]),
            count > 0 ==> final(self)@ == out[count - 1],
            count == 0 ==> final(self)@ == old(self)@,
    {
        let mut out: Vec<u32> = Vec::with_capacity(count);
        let mut k: usize = 0;
        while k < count
            invariant
                k <= count,
                out.len() == k,
                self@ == xorshift_iterate(old(self)@, k as nat),
                k > 0 ==> out[0] == xorshift_step(old(self)@),
                forall|i: int| 0 <= i < k - 1 ==> #[trigger] out[i + 1] == xorshift_step(out[i]),
                k > 0 ==> self@ == out[k - 1],
                k == 0 ==> self@ == old(self)@,
                forall|i: int| 0 <= i < k ==> out[i] == xorshift_iterate(old(self)@, (i + 1) as nat),
            decreases count - k,
        {
            let x = self.next_raw();
            out.push(x);
            k = k + 1;
        }
        out
    }
}

} // verus!

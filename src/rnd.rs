use vstd::prelude::*;

verus! {

/// Modulus of the generator: the Mersenne prime 2^31 - 1.
pub const P: u32 = 2147483647;

/// Multiplier of the generator, a primitive root modulo `P`.
pub const A: u32 = 16807;

/// One step of the Lehmer generator.
pub open spec fn lehmer_step(s: int) -> int {
    (s * A as int) % P as int
}

/// The state reached from `seed` after `n` steps.
pub open spec fn state_after(seed: int, n: nat) -> int
    decreases n,
{
    if n == 0 {
        seed
    } else {
        lehmer_step(state_after(seed, (n - 1) as nat))
    }
}

/// A state the generator may hold: zero is a fixed point and never occurs.
pub open spec fn valid_state(s: int) -> bool {
    1 <= s < P as int
}

/// Why a seed was refused.
#[derive(Debug, Clone, Copy, PartialEq, Eq, Structural)]
pub enum SeedError {
    /// The seed is zero modulo `P`, or does not lie in `1..P`.
    InvalidSeed,
}

/// Multiplicative congruential (Lehmer / Park-Miller) pseudo-random generator.
pub struct Rnd {
    current: u32,
}

/// `P` divides no product of `A` with a number in `1..P`: from `A * x + P * y == 1`.
proof fn lemma_step_nonzero(s: int)
    requires
        valid_state(s),
    ensures
        valid_state(lehmer_step(s)),
{
    let x: int = -739806647;
    let y: int = 5790;
    let p: int = P as int;
    let a: int = A as int;
    assert(a * x + p * y == 1);
    let m = (s * a) % p;
    let q = (s * a) / p;
    assert(s * a == p * q + m) by (nonlinear_arith)
        requires p > 0, m == (s * a) % p, q == (s * a) / p;
    assert(0 <= m < p) by (nonlinear_arith)
        requires p > 0, m == (s * a) % p;
    if m == 0 {
        assert(s == p * (q * x + s * y)) by (nonlinear_arith)
            requires a * x + p * y == 1, s * a == p * q;
        assert(false) by (nonlinear_arith)
            requires s == p * (q * x + s * y), 1 <= s < p;
    }
}

/// Every state reached from a valid seed is valid: the stream never hits zero,
/// so each value drawn lies in `1..P`.
pub proof fn lemma_stream_in_range(seed: int, n: nat)
    requires
        valid_state(seed),
    ensures
        valid_state(state_after(seed, n)),
    decreases n,
{
    if n > 0 {
        lemma_stream_in_range(seed, (n - 1) as nat);
        lemma_step_nonzero(state_after(seed, (n - 1) as nat));
    }
}

/// Two generators that start from the same state produce the same stream:
/// after any number of draws they hold the same state.
pub proof fn lemma_reproducible(a: Rnd, b: Rnd, n: nat)
    requires
        a.wf(),
        b.wf(),
        a.state() == b.state(),
    ensures
        forall|k: nat| k <= n ==> state_after(a.state(), k) == state_after(b.state(), k),
{
}

impl Rnd {
    /// The current state.
    pub closed spec fn state(&self) -> int {
        self.current as int
    }

    pub closed spec fn wf(&self) -> bool {
        valid_state(self.current as int)
    }

    /// A generator in its canonical start state, 1.
    pub fn new() -> (r: Rnd)
        ensures
            r.wf(),
            r.state() == 1,
    {
        Rnd { current: 1 }
    }

    /// A generator started from `seed`, which must lie in `1..P`.
    pub fn from_seed(seed: u32) -> (r: Result<Rnd, SeedError>)
        ensures
            r is Ok <==> valid_state(seed as int),
            r matches Ok(g) ==> g.wf() && g.state() == seed as int,
            r matches Err(e) ==> e == SeedError::InvalidSeed,
    {
        if 1 <= seed && seed < P {
            Ok(Rnd { current: seed })
        } else {
            Err(SeedError::InvalidSeed)
        }
    }

    /// Advances the state to `state * A mod P` and returns it.
    pub fn next(&mut self) -> (r: u32)
        requires
            old(self).wf(),
        ensures
            final(self).wf(),
            final(self).state() == lehmer_step(old(self).state()),
            r as int == final(self).state(),
            1 <= r < P,
    {
        proof {
            lemma_step_nonzero(self.current as int);
        }
        let s: u64 = (self.current as u64) * (A as u64) % (P as u64);
        self.current = s as u32;
        self.current
    }
}

} // verus!

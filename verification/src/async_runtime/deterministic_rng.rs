//! Random numbers that a seed determines.

use vstd::prelude::*;

verus! {

/// The step between the seeds of spawned tasks.
pub const GOLDEN_RATIO: u64 = 0x9e3779b97f4a7c15;

/// The step between the seeds of one task.
pub const SQRT2: u64 = 0x6a09e667f3bcc908;

/// The SplitMix64 generator: the value after one step of `gamma` from `seed`.
pub open spec fn splitmix64_spec(seed: u64, gamma: u64) -> u64 {
    let a = seed.wrapping_add(gamma);
    let b = (a ^ (a >> 30)).wrapping_mul(0xbf58476d1ce4e5b9);
    let c = (b ^ (b >> 27)).wrapping_mul(0x94d049bb133111eb);
    c ^ (c >> 31)
}

fn splitmix64(seed: u64, gamma: u64) -> (r: u64)
    ensures
        r == splitmix64_spec(seed, gamma),
{
    let a: u64 = seed.wrapping_add(gamma);
    let b: u64 = (a ^ (a >> 30)).wrapping_mul(0xbf58476d1ce4e5b9);
    let c: u64 = (b ^ (b >> 27)).wrapping_mul(0x94d049bb133111eb);
    c ^ (c >> 31)
}

/// The seed of a task that is spawned by a task with the given seed.
pub fn derive_spawn_seed(seed: u64) -> (r: u64)
    ensures
        r == splitmix64_spec(seed, GOLDEN_RATIO),
{
    splitmix64(seed, GOLDEN_RATIO)
}

/// The next seed of a task.
pub fn advance_seed(seed: u64) -> (r: u64)
    ensures
        r == splitmix64_spec(seed, SQRT2),
{
    splitmix64(seed, SQRT2)
}

/// `rand::random` at `u64`: any number.
///
/// Nothing is claimed of the number.
#[verifier::external_body]
fn random_seed() -> (r: u64)
{
    rand::random()
}

/// The seed of a task that has one is taken and advanced; for a task that has none, any number is
/// taken and none is kept.
pub fn take_and_advance_seed(cell: &mut Option<u64>) -> (r: u64)
    ensures
        match *old(cell) {
            Some(seed) => r == seed && *final(cell) == Some(splitmix64_spec(seed, SQRT2)),
            None => *final(cell) is None,
        },
{
    match *cell {
        Some(seed) => {
            *cell = Some(advance_seed(seed));
            seed
        },
        None => random_seed(),
    }
}

/// A small generator of random numbers.
#[verifier::external_type_specification]
#[verifier::external_body]
pub struct ExSmallRng(rand::rngs::SmallRng);

/// Whether a generator is as it was made with a seed.
pub uninterp spec fn is_seeded(rng: rand::rngs::SmallRng, seed: u64) -> bool;

/// `rand::SeedableRng::seed_from_u64` at `rand::rngs::SmallRng`: a generator that is made with the
/// seed.
///
/// Nothing is claimed of the numbers that it gives: which algorithm it runs depends on the machine.
#[verifier::external_body]
fn seeded_rng(seed: u64) -> (r: rand::rngs::SmallRng)
    ensures
        is_seeded(r, seed),
{
    rand::SeedableRng::seed_from_u64(seed)
}

/// Random numbers that the seed of a task determines.
#[derive(Debug, Default, Clone, Copy)]
pub struct DeterministicRng;

impl DeterministicRng {
    /// The seed cell of a task that runs with a seed.
    pub fn scope(seed: u64) -> (r: Option<u64>)
        ensures
            r == Some(seed),
    {
        Some(seed)
    }

    /// A generator for a task, made with the seed of the task, which advances.  For a task that has
    /// none it is made with any number.
    pub fn thread_rng(cell: &mut Option<u64>) -> (r: rand::rngs::SmallRng)
        ensures
            match *old(cell) {
                Some(seed) => {
                    &&& is_seeded(r, seed)
                    &&& *final(cell) == Some(splitmix64_spec(seed, SQRT2))
                },
                None => {
                    &&& exists|seed: u64| is_seeded(r, seed)
                    &&& *final(cell) is None
                },
            },
    {
        let seed = take_and_advance_seed(cell);
        seeded_rng(seed)
    }
}

/// Multiplication by an odd factor merges no two numbers.
proof fn lemma_mul_injective(x: u64, y: u64, c: u64, inverse: u64)
    requires
        (c * inverse) % 0x1_0000_0000_0000_0000 == 1,
        x.wrapping_mul(c) == y.wrapping_mul(c),
    ensures
        x == y,
{
    lemma_mul_back(x, c, inverse);
    lemma_mul_back(y, c, inverse);
}

proof fn lemma_mul_back(x: u64, c: u64, inverse: u64)
    requires
        (c * inverse) % 0x1_0000_0000_0000_0000 == 1,
    ensures
        (x.wrapping_mul(c) * inverse) % 0x1_0000_0000_0000_0000 == x,
{
    let m: int = 0x1_0000_0000_0000_0000;
    let xi = x as int;
    let p = x * c;
    assert(x.wrapping_mul(c) == p % m);
    vstd::arithmetic::div_mod::lemma_mul_mod_noop_left(p, inverse as int, m);
    assert(p * inverse == xi * (c * inverse)) by (nonlinear_arith)
        requires
            p == x * c,
            xi == x as int,
    ;
    vstd::arithmetic::div_mod::lemma_mul_mod_noop_right(xi, c * inverse, m);
    assert((xi * 1) % m == xi);
}

/// No two seeds are followed by the same seed, so two tasks with different seeds never fall into
/// step, and no two tasks spawn tasks with the same seed.
pub proof fn seeds_never_merge(a: u64, b: u64, gamma: u64)
    requires
        splitmix64_spec(a, gamma) == splitmix64_spec(b, gamma),
    ensures
        a == b,
{
    let a1 = a.wrapping_add(gamma);
    let b1 = b.wrapping_add(gamma);
    let a2 = (a1 ^ (a1 >> 30)).wrapping_mul(0xbf58476d1ce4e5b9);
    let b2 = (b1 ^ (b1 >> 30)).wrapping_mul(0xbf58476d1ce4e5b9);
    let a3 = (a2 ^ (a2 >> 27)).wrapping_mul(0x94d049bb133111eb);
    let b3 = (b2 ^ (b2 >> 27)).wrapping_mul(0x94d049bb133111eb);
    assert(a3 ^ (a3 >> 31) == b3 ^ (b3 >> 31) ==> a3 == b3) by (bit_vector);
    lemma_mul_injective(a2 ^ (a2 >> 27), b2 ^ (b2 >> 27), 0x94d049bb133111eb, 0x319642b2d24d8ec3);
    assert(a2 ^ (a2 >> 27) == b2 ^ (b2 >> 27) ==> a2 == b2) by (bit_vector);
    lemma_mul_injective(a1 ^ (a1 >> 30), b1 ^ (b1 >> 30), 0xbf58476d1ce4e5b9, 0x96de1b173f119089);
    assert(a1 ^ (a1 >> 30) == b1 ^ (b1 >> 30) ==> a1 == b1) by (bit_vector);
}

/// Mixing is undone step by step, each shift by itself and each factor by its inverse; what comes
/// back is the seed after a step of `gamma`.
pub proof fn mixing_is_undone(seed: u64, gamma: u64)
    ensures
        ({
            let r = splitmix64_spec(seed, gamma);
            let c = r ^ (r >> 31) ^ (r >> 62);
            let d = c.wrapping_mul(0x319642b2d24d8ec3);
            let b = d ^ (d >> 27) ^ (d >> 54);
            let e = b.wrapping_mul(0x96de1b173f119089);
            let a = e ^ (e >> 30) ^ (e >> 60);
            a == (seed + gamma) % 0x1_0000_0000_0000_0000
        }),
{
    let a = seed.wrapping_add(gamma);
    let e = a ^ (a >> 30);
    let b = e.wrapping_mul(0xbf58476d1ce4e5b9);
    let d = b ^ (b >> 27);
    let c = d.wrapping_mul(0x94d049bb133111eb);
    let r = c ^ (c >> 31);
    assert((c ^ (c >> 31)) ^ ((c ^ (c >> 31)) >> 31) ^ ((c ^ (c >> 31)) >> 62) == c) by (bit_vector);
    lemma_mul_back(d, 0x94d049bb133111eb, 0x319642b2d24d8ec3);
    assert(c.wrapping_mul(0x319642b2d24d8ec3) == d);
    assert((b ^ (b >> 27)) ^ ((b ^ (b >> 27)) >> 27) ^ ((b ^ (b >> 27)) >> 54) == b) by (bit_vector);
    lemma_mul_back(e, 0xbf58476d1ce4e5b9, 0x96de1b173f119089);
    assert(b.wrapping_mul(0x96de1b173f119089) == e);
    assert((a ^ (a >> 30)) ^ ((a ^ (a >> 30)) >> 30) ^ ((a ^ (a >> 30)) >> 60) == a) by (bit_vector);
}

/// The steps between seeds are the golden ratio and the square root of two, as fractions of the
/// numbers that fit into 64 bits.
pub proof fn steps_are_irrational_fractions()
    ensures
        ({
            let m: int = 0x1_0000_0000_0000_0000;
            let g: int = GOLDEN_RATIO as int;
            let s: int = SQRT2 as int;
            &&& g * (g + m) <= m * m < (g + 1) * (g + 1 + m)
            &&& (m + s) * (m + s) <= 2 * m * m < (m + s + 1) * (m + s + 1)
        }),
{
    let m: int = 0x1_0000_0000_0000_0000;
    let g: int = GOLDEN_RATIO as int;
    let s: int = SQRT2 as int;
    assert(g * (g + m) <= m * m < (g + 1) * (g + 1 + m)) by (nonlinear_arith)
        requires
            m == 0x1_0000_0000_0000_0000,
            g == 0x9e3779b97f4a7c15,
    ;
    assert((m + s) * (m + s) <= 2 * m * m < (m + s + 1) * (m + s + 1)) by (nonlinear_arith)
        requires
            m == 0x1_0000_0000_0000_0000,
            s == 0x6a09e667f3bcc908,
    ;
}

} // verus!

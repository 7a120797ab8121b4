//! The seed of the pet's wandering.

use vstd::prelude::*;

verus! {

/// The factor by which a seed grows.
pub const SEED_GAIN: u64 = 6364136223846793005;

/// The number of 64-bit values.
pub open spec fn words() -> int {
    0x1_0000_0000_0000_0000
}

/// The seed after `seed` at the time `now`.
pub open spec fn next_seed(seed: u64, now: u64) -> int {
    (seed * SEED_GAIN + now) % words()
}

/// The seed with which the pet wanders on: the old seed times [`SEED_GAIN`] plus the
/// time, on 64 bits.
pub fn advance_seed(seed: u64, now_ms: u64) -> (r: u64)
    ensures
        r == next_seed(seed, now_ms),
{
    let grown: u64 = seed.wrapping_mul(SEED_GAIN);
    let r: u64 = grown.wrapping_add(now_ms);
    proof {
        let p = seed * SEED_GAIN;
        let m = words();
        assert(p >= 0) by (nonlinear_arith)
            requires
                p == seed * SEED_GAIN,
        ;
        assert(grown == p % m);
        vstd::arithmetic::div_mod::lemma_add_mod_noop(p, now_ms as int, m);
        vstd::arithmetic::div_mod::lemma_small_mod(now_ms as nat, m as nat);
        assert(next_seed(seed, now_ms) == (grown + now_ms) % m);
        if grown + now_ms < m {
            vstd::arithmetic::div_mod::lemma_small_mod((grown + now_ms) as nat, m as nat);
        } else {
            vstd::arithmetic::div_mod::lemma_mod_sub_multiples_vanish(grown + now_ms, m);
            vstd::arithmetic::div_mod::lemma_small_mod((grown + now_ms - m) as nat, m as nat);
        }
    }
    r
}

/// Different seeds lead to different seeds at the same time, and one seed leads to
/// different seeds at different times: the wandering does not repeat itself.
pub proof fn lemma_seeds_differ(a: u64, b: u64, s: u64, t: u64)
    ensures
        a != b ==> next_seed(a, s) != next_seed(b, s),
        s != t ==> next_seed(a, s) != next_seed(a, t),
{
    let m = words();
    let g = SEED_GAIN as int;
    // The inverse of the factor on 64 bits.
    let h = 13877824140714322085int;
    let k = (g * h - 1) / m;
    assert(g * h == 1 + k * m);
    if next_seed(a, s) == next_seed(b, s) {
        let (x, y) = (a * g + s, b * g + s);
        let q = x / m - y / m;
        let d = a - b;
        assert(d * g == q * m) by (nonlinear_arith)
            requires
                x == a * g + s,
                y == b * g + s,
                x % m == y % m,
                m == 0x1_0000_0000_0000_0000,
                q == x / m - y / m,
                d == a - b,
        ;
        let r = q * h - d * k;
        assert(d == r * m) by (nonlinear_arith)
            requires
                d * g == q * m,
                g * h == 1 + k * m,
                r == q * h - d * k,
        ;
        assert(d == 0) by (nonlinear_arith)
            requires
                d == r * m,
                -m < d < m,
                m > 0,
        ;
    }
    if next_seed(a, s) == next_seed(a, t) {
        let (x, y) = (a * g + s, a * g + t);
        let d = s - t;
        let q = x / m - y / m;
        assert(d == q * m) by (nonlinear_arith)
            requires
                d == x - y,
                x % m == y % m,
                m == 0x1_0000_0000_0000_0000,
                q == x / m - y / m,
        ;
        assert(d == 0) by (nonlinear_arith)
            requires
                d == q * m,
                -m < d < m,
                m > 0,
        ;
    }
}

/// Without a seed the time is the seed; a moment later the next seed is one more, and one more
/// in the seed is one factor more in the next one, all on 64 bits.
pub proof fn lemma_seed_grows_by_its_factor(seed: u64, now: u64)
    requires
        seed < u64::MAX,
        now < u64::MAX,
    ensures
        next_seed(0, now) == now,
        next_seed(seed, (now + 1) as u64) == (next_seed(seed, now) + 1) % words(),
        next_seed((seed + 1) as u64, now) == (next_seed(seed, now) + 6364136223846793005)
            % words(),
{
    let m = words();
    let g = SEED_GAIN as int;
    let x = seed * SEED_GAIN + now;
    assert(0 * g == 0) by (nonlinear_arith);
    vstd::arithmetic::div_mod::lemma_small_mod(now as nat, m as nat);
    assert((seed + 1) * g == seed * g + g) by (nonlinear_arith);
    vstd::arithmetic::div_mod::lemma_add_mod_noop(x, 1, m);
    vstd::arithmetic::div_mod::lemma_add_mod_noop(x, g, m);
    vstd::arithmetic::div_mod::lemma_small_mod(1, m as nat);
    vstd::arithmetic::div_mod::lemma_small_mod(g as nat, m as nat);
}

} // verus!

//! The glow term: how much light a pixel's overall intensity adds.
//!
//! With `intensity` the mean of the three colour channels, the term is
//! `50 * (intensity / 255)^1.5`, capped at 60 and cut down to a whole number.
//! Over the channel sum `s = r + g + b` that is `50 * (s / 765)^(3/2)`, and a
//! whole number `k` lies at or below it exactly when
//! `k^2 * 765^3 <= 2500 * s^3`, which needs integers only.

use vstd::prelude::*;

verus! {

/// The largest value that the glow term is allowed to reach.
pub const GLOW_CAP: u8 = 60;

/// The third power of `n`.
pub open spec fn cube(n: int) -> int {
    n * n * n
}

/// `k` is the whole part of `50 * (sum / 765)^(3/2)`.
pub open spec fn is_glow_floor(sum: int, k: int) -> bool {
    &&& 0 <= k
    &&& k * k * cube(765) <= 2500 * cube(sum)
    &&& 2500 * cube(sum) < (k + 1) * (k + 1) * cube(765)
}

/// The glow term of a pixel whose colour channels add up to `sum`.
pub open spec fn glow_level(sum: int) -> int {
    let k = choose|k: int| is_glow_floor(sum, k);
    if k > GLOW_CAP { GLOW_CAP as int } else { k }
}

proof fn lemma_square_grows(a: int, b: int, c: int)
    requires
        0 <= a < b,
        0 < c,
    ensures
        (a + 1) * (a + 1) * c <= b * b * c,
{
    assert((a + 1) * (a + 1) <= b * b) by (nonlinear_arith)
        requires
            0 <= a < b,
    ;
    assert((a + 1) * (a + 1) * c <= b * b * c) by (nonlinear_arith)
        requires
            (a + 1) * (a + 1) <= b * b,
            0 < c,
    ;
}

/// At most one whole number is the floor for a given sum.
pub proof fn lemma_glow_floor_unique(sum: int, j: int, k: int)
    requires
        is_glow_floor(sum, j),
        is_glow_floor(sum, k),
    ensures
        j == k,
{
    assert(cube(765) == 447_697_125) by (nonlinear_arith);
    if j < k {
        lemma_square_grows(j, k, cube(765));
    }
    if k < j {
        lemma_square_grows(k, j, cube(765));
    }
}

/// A whole number that is the floor for `sum` is the glow term, up to the cap.
pub proof fn lemma_glow_level_is(sum: int, k: int)
    requires
        is_glow_floor(sum, k),
    ensures
        glow_level(sum) == if k > GLOW_CAP { GLOW_CAP as int } else { k },
{
    let c = choose|c: int| is_glow_floor(sum, c);
    lemma_glow_floor_unique(sum, c, k);
}

proof fn lemma_cube_bound(s: int)
    requires
        0 <= s <= 765,
    ensures
        0 <= cube(s) <= 447_697_125,
        cube(765) == 447_697_125,
{
    assert(cube(765) == 447_697_125) by (nonlinear_arith);
    assert(0 <= s * s <= 765 * 765) by (nonlinear_arith)
        requires
            0 <= s <= 765,
    ;
    assert(0 <= s * s * s <= 765 * 765 * 765) by (nonlinear_arith)
        requires
            0 <= s <= 765,
            0 <= s * s <= 765 * 765,
    ;
}

/// Computes the glow term of a pixel from its three colour channels.
pub fn glow(r: u8, g: u8, b: u8) -> (k: u8)
    ensures
        k == glow_level(r + g + b),
        is_glow_floor(r + g + b, k as int),
        k <= 50,
{
    let sum: u64 = r as u64 + g as u64 + b as u64;
    proof {
        lemma_cube_bound(sum as int);
        assert(sum * sum * sum == cube(sum as int));
        assert(0 <= sum * sum <= 765 * 765) by (nonlinear_arith)
            requires
                0 <= sum <= 765,
        ;
    }
    let scaled: u64 = 2500 * (sum * sum * sum);
    let mut k: u64 = 0;
    let mut edge: u64 = 447_697_125;
    while k < 50 && edge <= scaled
        invariant
            k <= 50,
            scaled == 2500 * cube(sum as int),
            scaled <= 2500 * 447_697_125,
            cube(765) == 447_697_125,
            k * k * cube(765) <= scaled,
            edge == (k + 1) * (k + 1) * cube(765),
        decreases 50 - k,
    {
        k = k + 1;
        assert((k + 1) * (k + 1) <= 2601) by (nonlinear_arith)
            requires
                k <= 50,
        ;
        edge = (k + 1) * (k + 1) * 447_697_125;
    }
    proof {
        assert(k == 50 ==> edge == 51 * 51 * 447_697_125);
        lemma_glow_level_is(sum as int, k as int);
    }
    k as u8
}

} // verus!

//! The mip levels that a surface can have, and the correction of a declared
//! count that exceeds them.

use vstd::prelude::*;

verus! {

/// The largest of a surface's three dimensions.
pub open spec fn max_dimension(width: u32, height: u32, depth: u32) -> u32 {
    if width >= height && width >= depth {
        width
    } else if height >= depth {
        height
    } else {
        depth
    }
}

/// Two to the power `exponent`.
pub open spec fn pow2(exponent: nat) -> nat
    decreases exponent,
{
    if exponent == 0 {
        1
    } else {
        2 * pow2((exponent - 1) as nat)
    }
}

/// The whole part of the base-two logarithm: the `k` with
/// `pow2(k) <= n < pow2(k + 1)`. Zero for `n` below two.
pub open spec fn floor_log2(n: nat) -> nat
    decreases n,
{
    if n < 2 {
        0
    } else {
        1 + floor_log2(n / 2)
    }
}

/// `floor_log2(n)` is the one exponent whose power of two is at most `n` while
/// the next power exceeds it.
pub proof fn lemma_floor_log2_bounds(n: nat)
    requires
        n >= 1,
    ensures
        pow2(floor_log2(n)) <= n < pow2(floor_log2(n) + 1),
    decreases n,
{
    if n >= 2 {
        lemma_floor_log2_bounds(n / 2);
    }
}

/// Any exponent with the bounds of [`lemma_floor_log2_bounds`] is `floor_log2(n)`.
pub proof fn lemma_floor_log2_unique(n: nat, k: nat)
    requires
        pow2(k) <= n < pow2(k + 1),
    ensures
        floor_log2(n) == k,
    decreases k,
{
    if k > 0 {
        lemma_floor_log2_unique(n / 2, (k - 1) as nat);
    }
}

/// A dimension below two to the thirty-second has a logarithm below thirty-two.
pub proof fn lemma_floor_log2_u32(n: u32)
    ensures
        floor_log2(n as nat) <= 31,
{
    if n >= 1 {
        lemma_floor_log2_bounds(n as nat);
        if floor_log2(n as nat) >= 32 {
            lemma_pow2_monotonic(32, floor_log2(n as nat));
            lemma_pow2_32();
        }
    }
}

proof fn lemma_pow2_monotonic(a: nat, b: nat)
    requires
        a <= b,
    ensures
        pow2(a) <= pow2(b),
    decreases b,
{
    if a < b {
        lemma_pow2_monotonic(a, (b - 1) as nat);
    }
}

proof fn lemma_pow2_32()
    ensures
        pow2(32) == 0x1_0000_0000,
{
    reveal_with_fuel(pow2, 33);
}

/// The whole part of the base-two logarithm of a dimension; zero for a
/// dimension below two.
pub fn ilog2(n: u32) -> (log: u32)
    ensures
        log == floor_log2(n as nat),
        log <= 31,
{
    let mut rest: u32 = n;
    let mut log: u32 = 0;
    proof {
        lemma_floor_log2_u32(n);
    }
    while rest >= 2
        invariant
            log + floor_log2(rest as nat) == floor_log2(n as nat),
            floor_log2(n as nat) <= 31,
        decreases rest,
    {
        rest = rest / 2;
        log = log + 1;
    }
    log
}

/// The mip count that a surface of these dimensions is taken to have when its
/// container declares `declared`: the declared count, but no more than the
/// whole logarithm of the largest dimension.
pub open spec fn spec_corrected_mipmap_count(
    width: u32,
    height: u32,
    depth: u32,
    declared: u32,
) -> u32 {
    let limit = floor_log2(max_dimension(width, height, depth) as nat);
    if declared as nat <= limit {
        declared
    } else {
        limit as u32
    }
}

/// Clamps a declared mip count to what the dimensions allow. Files written by
/// older tools sometimes declare more levels than they hold; their pixel data
/// is still good, so the count is corrected and the file is kept.
pub fn corrected_mipmap_count(width: u32, height: u32, depth: u32, declared: u32) -> (count: u32)
    ensures
        count == spec_corrected_mipmap_count(width, height, depth, declared),
        count <= declared,
        count <= 31,
{
    let mut largest: u32 = width;
    if height > largest {
        largest = height;
    }
    if depth > largest {
        largest = depth;
    }
    let limit = ilog2(largest);
    if declared <= limit {
        declared
    } else {
        limit
    }
}

/// Correcting a corrected count changes nothing.
pub proof fn lemma_corrected_mipmap_count_idempotent(
    width: u32,
    height: u32,
    depth: u32,
    declared: u32,
)
    ensures
        spec_corrected_mipmap_count(
            width,
            height,
            depth,
            spec_corrected_mipmap_count(width, height, depth, declared),
        ) == spec_corrected_mipmap_count(width, height, depth, declared),
{
    lemma_floor_log2_u32(max_dimension(width, height, depth));
}

/// The corrected count is the smaller of the declared count and the whole
/// logarithm of the largest dimension.
pub proof fn lemma_corrected_mipmap_count_is_min(
    width: u32,
    height: u32,
    depth: u32,
    declared: u32,
)
    ensures
        spec_corrected_mipmap_count(width, height, depth, declared) as nat <= declared,
        spec_corrected_mipmap_count(width, height, depth, declared) as nat <= floor_log2(
            max_dimension(width, height, depth) as nat,
        ),
        spec_corrected_mipmap_count(width, height, depth, declared) == declared
            || spec_corrected_mipmap_count(width, height, depth, declared) as nat == floor_log2(
            max_dimension(width, height, depth) as nat,
        ),
{
    lemma_floor_log2_u32(max_dimension(width, height, depth));
}

} // verus!

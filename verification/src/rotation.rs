//! Angles, and how a held shape is turned.
//!
//! An angle is a signed 32-bit count of equal parts of a turn, of which
//! 2^32 make a full turn: the counts from -2^31 up to 2^31 stand for the
//! angles from minus half a turn up to half a turn, and sums wrap round.

use vstd::prelude::*;
use vstd::arithmetic::div_mod::{
    lemma_div_multiples_vanish_fancy, lemma_div_pos_is_pos, lemma_fundamental_div_mod,
    lemma_mod_multiples_basic, lemma_remainder_lower, lemma_remainder_upper,
};

verus! {

/// The parts that make a full turn.
pub const FULL_TURN: i64 = 0x1_0000_0000;

/// The parts that make half a turn.
pub const HALF_TURN: i64 = 0x8000_0000;

/// The angle by which a key or the wheel turns a shape, and the resolution
/// that they snap it to: a sixteenth of a turn.
pub const ROTATION_STEP: u32 = 0x1000_0000;

/// The angle from minus half a turn up to half a turn that differs from
/// `a` by whole turns.
pub open spec fn principal(a: int) -> int {
    let within = a % 0x1_0000_0000;
    if within >= 0x8000_0000 {
        within - 0x1_0000_0000
    } else {
        within
    }
}

/// The multiple of `r` nearest to `a`; halfway between two, the one farther
/// from zero. Meant for `r > 0`.
pub open spec fn nearest_multiple(a: int, r: int) -> int {
    if a >= 0 {
        ((2 * a + r) / (2 * r)) * r
    } else {
        -(((2 * (-a) + r) / (2 * r)) * r)
    }
}

/// The orientation `rotation` turned by `angle`.
pub open spec fn turned(rotation: i32, angle: i32) -> i32 {
    principal(rotation + angle) as i32
}

/// The orientation `rotation` snapped to the nearest multiple of
/// `resolution`; a resolution of nothing snaps nothing.
pub open spec fn snapped(rotation: i32, resolution: u32) -> i32 {
    if resolution == 0 {
        rotation
    } else {
        principal(nearest_multiple(rotation as int, resolution as int)) as i32
    }
}

/// Whether snapping `rotation` lands on a multiple of `resolution` that
/// lies from minus half a turn up to half a turn, and so does not wrap
/// round.
pub open spec fn snaps_within(rotation: i32, resolution: u32) -> bool {
    -0x8000_0000 <= nearest_multiple(rotation as int, resolution as int) < 0x8000_0000
}

/// A product with `r` is a multiple of `r`.
proof fn lemma_product_is_multiple(n: int, k: int, r: int)
    requires
        r > 0,
        n == k * r,
    ensures
        n % r == 0,
{
    lemma_mod_multiples_basic(k, r);
}

/// A multiple of `r` is a product with `r`.
proof fn lemma_multiple_is_product(n: int, r: int)
    requires
        r > 0,
        n % r == 0,
    ensures
        n == (n / r) * r,
{
    lemma_fundamental_div_mod(n, r);
    assert(r * (n / r) == (n / r) * r) by (nonlinear_arith);
}

/// The number of whole resolutions nearest to a size that is not negative:
/// it is not negative either, and that many resolutions are no farther from
/// the size than half a resolution.
proof fn lemma_steps(m: int, r: int)
    requires
        m >= 0,
        r > 0,
    ensures
        0 <= (2 * m + r) / (2 * r),
        0 <= ((2 * m + r) / (2 * r)) * r,
        2 * (((2 * m + r) / (2 * r)) * r) <= 2 * m + r,
        2 * m - r < 2 * (((2 * m + r) / (2 * r)) * r),
{
    let q = (2 * m + r) / (2 * r);
    lemma_div_pos_is_pos(2 * m + r, 2 * r);
    lemma_remainder_lower(2 * m + r, 2 * r);
    lemma_remainder_upper(2 * m + r, 2 * r);
    assert(q * (2 * r) == 2 * (q * r)) by (nonlinear_arith);
    assert(0 <= q * r) by (nonlinear_arith)
        requires
            0 <= q,
            0 < r,
    ;
}

/// The nearest multiple is a multiple, and no farther away than half the
/// resolution.
pub proof fn lemma_nearest_multiple(a: int, r: int)
    requires
        r > 0,
    ensures
        nearest_multiple(a, r) % r == 0,
        2 * (nearest_multiple(a, r) - a) <= r,
        2 * (a - nearest_multiple(a, r)) <= r,
        a >= 0 ==> nearest_multiple(a, r) >= 0,
        a <= 0 ==> nearest_multiple(a, r) <= 0,
{
    let m = if a >= 0 {
        a
    } else {
        -a
    };
    let q = (2 * m + r) / (2 * r);
    lemma_steps(m, r);
    if a >= 0 {
        lemma_product_is_multiple(q * r, q, r);
    } else {
        assert(-(q * r) == (-q) * r) by (nonlinear_arith);
        lemma_product_is_multiple(-(q * r), -q, r);
    }
    if a == 0 {
        lemma_div_multiples_vanish_fancy(0, r, 2 * r);
        assert((2 * r) * 0 + r == 2 * m + r);
        assert(q * r == 0) by (nonlinear_arith)
            requires
                q == 0,
        ;
    }
}

/// A multiple of the resolution is its own nearest multiple.
pub proof fn lemma_multiple_stays(n: int, r: int)
    requires
        r > 0,
        n % r == 0,
    ensures
        nearest_multiple(n, r) == n,
{
    lemma_multiple_is_product(n, r);
    let k = n / r;
    let j = if n >= 0 {
        k
    } else {
        -k
    };
    let m = if n >= 0 {
        n
    } else {
        -n
    };
    assert(m == j * r) by (nonlinear_arith)
        requires
            n == k * r,
            (n >= 0 && m == n && j == k) || (n < 0 && m == -n && j == -k),
    ;
    assert(2 * m + r == (2 * r) * j + r) by (nonlinear_arith)
        requires
            m == j * r,
    ;
    lemma_div_multiples_vanish_fancy(j, r, 2 * r);
    assert((2 * m + r) / (2 * r) == j);
}

/// Snapping is idempotent: an orientation that has been snapped to a
/// resolution is left as it is by snapping it to that resolution again.
/// This holds wherever the snapped orientation does not wrap round, and
/// for every orientation where the resolution divides half a turn. (A
/// resolution that does not can carry an orientation just short of half a
/// turn past it, where it wraps round to an angle that is no multiple.)
pub proof fn law_snapping_is_idempotent(rotation: i32, resolution: u32)
    requires
        resolution == 0 || 0x8000_0000int % (resolution as int) == 0 || snaps_within(rotation, resolution),
    ensures
        snapped(snapped(rotation, resolution), resolution) == snapped(rotation, resolution),
{
    if resolution > 0 {
        let r = resolution as int;
        let n = nearest_multiple(rotation as int, r);
        lemma_nearest_multiple(rotation as int, r);
        let p = principal(n);
        assert(-0x8000_0000 <= p < 0x8000_0000);
        if snaps_within(rotation, resolution) {
            assert(p == n);
        } else {
            // the resolution divides half a turn, so it divides the full
            // turn that the orientation wrapped by
            let t: int = if p == n {
                0
            } else if p == n - 0x1_0000_0000 {
                -1
            } else {
                1
            };
            assert(p == n + t * 0x1_0000_0000);
            lemma_multiple_is_product(n, r);
            lemma_multiple_is_product(0x8000_0000, r);
            let k = n / r;
            let h = 0x8000_0000int / r;
            assert(p == (k + 2 * t * h) * r) by (nonlinear_arith)
                requires
                    p == n + t * 0x1_0000_0000,
                    n == k * r,
                    0x8000_0000 == h * r,
            ;
            lemma_product_is_multiple(p, k + 2 * t * h, r);
        }
        lemma_multiple_stays(p, r);
    }
}

/// Turns an orientation by an angle.
pub fn turn(rotation: i32, angle: i32) -> (r: i32)
    ensures
        r == turned(rotation, angle),
{
    let sum: i64 = rotation as i64 + angle as i64;
    if sum >= HALF_TURN {
        (sum - FULL_TURN) as i32
    } else if sum < -HALF_TURN {
        (sum + FULL_TURN) as i32
    } else {
        sum as i32
    }
}

/// Snaps an orientation to the nearest multiple of `multiple`.
pub fn round_z(rotation: i32, multiple: u32) -> (r: i32)
    ensures
        r == snapped(rotation, multiple),
{
    if multiple == 0 {
        return rotation;
    }
    let resolution: i64 = multiple as i64;
    let size: i64 = if rotation >= 0 {
        rotation as i64
    } else {
        -(rotation as i64)
    };
    proof {
        lemma_steps(size as int, resolution as int);
    }
    let steps: i64 = (2 * size + resolution) / (2 * resolution);
    let near: i64 = steps * resolution;
    let signed: i64 = if rotation >= 0 {
        near
    } else {
        -near
    };
    if signed >= HALF_TURN {
        (signed - FULL_TURN) as i32
    } else if signed < -HALF_TURN {
        (signed + FULL_TURN) as i32
    } else {
        signed as i32
    }
}

} // verus!

//! The vesting calculator: how much of a stream is unlocked at a given time.

use vstd::arithmetic::div_mod::{lemma_div_is_ordered, lemma_div_pos_is_pos, lemma_hoist_over_denominator};
use vstd::arithmetic::mul::{lemma_mul_inequality, lemma_mul_is_distributive_add};
use vstd::prelude::*;

verus! {

/// The amount of `total` unlocked at time `now` for a window `[start, end)`:
/// nothing before the start, everything from the end on, and in between the
/// elapsed fraction of `total`, rounded toward zero.
pub open spec fn vested_spec(total: int, start: int, end: int, now: int) -> int {
    if now < start {
        0
    } else if now >= end {
        total
    } else {
        total * (now - start) / (end - start)
    }
}

/// Within the window the vested amount lies between zero and the total.
pub proof fn lemma_vested_bounds(total: int, start: int, end: int, now: int)
    requires
        0 <= total,
        start < end,
    ensures
        0 <= vested_spec(total, start, end, now) <= total,
{
    if start <= now < end {
        let e = now - start;
        let d = end - start;
        lemma_mul_inequality(e, d, total);
        assert(total * e >= 0) by (nonlinear_arith)
            requires
                total >= 0,
                e >= 0,
        ;
        assert(e * total == total * e && d * total == total * d) by (nonlinear_arith);
        lemma_div_pos_is_pos(total * e, d);
        lemma_div_is_ordered(total * e, total * d, d);
        assert((total * d) / d == total) by (nonlinear_arith)
            requires
                d > 0,
        ;
    }
}

/// `total * elapsed / duration` for `elapsed < duration`, split as
/// `(total / duration) * elapsed + (total % duration) * elapsed / duration`
/// so that no intermediate product leaves its integer type.
fn scaled_share(total: i128, elapsed: u64, duration: u64) -> (r: i128)
    requires
        0 <= total,
        elapsed < duration,
    ensures
        r as int == total * elapsed / (duration as int),
{
    let d: i128 = duration as i128;
    let q: i128 = total / d;
    let rem: i128 = total % d;
    proof {
        let ti = total as int;
        let di = d as int;
        assert(ti == q * di + rem && 0 <= rem < di) by {
            vstd::arithmetic::div_mod::lemma_fundamental_div_mod(ti, di);
        }
        assert(q >= 0) by {
            lemma_div_pos_is_pos(ti, di);
        }
        assert(q * elapsed <= q * di) by {
            lemma_mul_inequality(elapsed as int, di, q as int);
            assert(elapsed * q == q * elapsed && di * q == q * di) by (nonlinear_arith);
        }
        assert(q * elapsed >= 0) by (nonlinear_arith)
            requires
                q >= 0,
        ;
        assert(rem * elapsed < 0x1_0000_0000_0000_0000_0000_0000_0000_0000int) by (nonlinear_arith)
            requires
                0 <= rem < di,
                di <= 0xffff_ffff_ffff_ffff,
                0 <= elapsed < 0x1_0000_0000_0000_0000int,
        ;
        assert(rem * elapsed >= 0) by (nonlinear_arith)
            requires
                rem >= 0,
        ;
    }
    let head: i128 = q * (elapsed as i128);
    let prod: u128 = (rem as u128) * (elapsed as u128);
    let tail: u128 = prod / (duration as u128);
    proof {
        let ti = total as int;
        let di = duration as int;
        let e = elapsed as int;
        let x = rem * e;
        let j = q * e;
        lemma_hoist_over_denominator(x, j, di as nat);
        assert(ti * e == x + j * di) by {
            assert(ti == q * di + rem);
            lemma_mul_is_distributive_add(e, q * di, rem as int);
            assert(ti * e == e * ti && (q * di) * e == e * (q * di) && rem * e == e * rem
                && j * di == (q * di) * e) by (nonlinear_arith)
                requires
                    j == q * e,
            ;
        }
        assert(tail as int == x / di);
        assert(tail <= prod);
        assert(ti * e / di <= ti) by {
            lemma_vested_bounds(ti, 0, di, e);
        }
    }
    head + tail as i128
}

/// The vested amount of a stream of `total` over `[start, end)` at `now`.
pub fn vested_amount(total: i128, start: u64, end: u64, now: u64) -> (r: i128)
    requires
        0 <= total,
        start < end,
    ensures
        r as int == vested_spec(total as int, start as int, end as int, now as int),
        0 <= r <= total,
{
    proof {
        lemma_vested_bounds(total as int, start as int, end as int, now as int);
    }
    if now < start {
        0
    } else if now >= end {
        total
    } else {
        scaled_share(total, now - start, end - start)
    }
}

} // verus!

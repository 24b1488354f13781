//! Time-sliced sample planning.
//!
//! A batch's delta time is split against a fixed slice ceiling, and each
//! slice's frame count is computed with fractional-carry accounting so that
//! no timing drift accumulates over a long render. Time is measured in
//! microseconds; the carried fraction is measured in millionths of a frame.

use vstd::prelude::*;
use vstd::arithmetic::div_mod::{
    lemma_fundamental_div_mod, lemma_fundamental_div_mod_converse,
};

verus! {

/// The slice ceiling: no single rendered slice covers more than this much time.
pub const MAX_SLICE_MICROS: u64 = 100_000;

/// Millionths in a whole: one microsecond per second, one carry unit per frame.
pub const MILLION: u64 = 1_000_000;

/// How many slices splitting a delta of `delta_micros` produces: one slice
/// per full ceiling, plus one for the remainder; an empty delta still
/// produces one (empty) slice.
pub open spec fn slice_count(delta_micros: nat) -> nat {
    if delta_micros == 0 {
        1
    } else {
        ((delta_micros + MAX_SLICE_MICROS - 1) as nat) / (MAX_SLICE_MICROS as nat)
    }
}

/// The total frame count of a slice plan.
pub open spec fn frames_total(plan: Seq<u64>) -> int
    decreases plan.len(),
{
    if plan.len() == 0 {
        0
    } else {
        frames_total(plan.drop_last()) + plan.last()
    }
}

/// The frame count that a delta of `ppm` millionths of a frame rounds to.
pub open spec fn rounded_frames(ppm: int) -> int {
    (ppm + (MILLION as int) / 2) / (MILLION as int)
}

proof fn lemma_frames_total_push(plan: Seq<u64>, v: u64)
    ensures
        frames_total(plan.push(v)) == frames_total(plan) + v,
{
    assert(plan.push(v).drop_last() =~= plan);
}

/// Splits a batch delta into slices no longer than the ceiling and computes
/// each slice's frame count, threading the sub-frame remainder through as a
/// carry. Returns the per-slice frame counts and the final carry.
///
/// The plan holds exactly `slice_count(delta_micros)` slices, every slice
/// stays under the ceiling's frame budget, and the frame counts together
/// with the final carry account exactly for the elapsed time: no frame is
/// lost or invented, whatever the sample rate.
pub fn plan_slices(sample_rate: u32, delta_micros: u64, carry_ppm: u64) -> (r: (Vec<u64>, u64))
    requires
        carry_ppm < MILLION,
        sample_rate * delta_micros + carry_ppm <= u64::MAX,
    ensures
        r.1 < MILLION,
        frames_total(r.0@) * MILLION + r.1 == sample_rate * delta_micros + carry_ppm,
        r.0@.len() == slice_count(delta_micros as nat),
        forall|i: int|
            0 <= i < r.0@.len()
                ==> #[trigger] r.0@[i] * MILLION <= sample_rate * MAX_SLICE_MICROS + MILLION - 1,
{
    let mut plan: Vec<u64> = Vec::new();
    let mut carry: u64 = carry_ppm;
    let mut remaining: u64 = delta_micros;

    while remaining > MAX_SLICE_MICROS
        invariant
            carry < MILLION,
            remaining <= delta_micros,
            delta_micros > 0 ==> remaining > 0,
            delta_micros - remaining == plan@.len() * MAX_SLICE_MICROS,
            frames_total(plan@) * MILLION + carry
                == sample_rate * (delta_micros - remaining) + carry_ppm,
            sample_rate * delta_micros + carry_ppm <= u64::MAX,
            forall|i: int|
                0 <= i < plan@.len()
                    ==> #[trigger] plan@[i] * MILLION
                        <= sample_rate * MAX_SLICE_MICROS + MILLION - 1,
        decreases remaining,
    {
        proof {
            assert(sample_rate * MAX_SLICE_MICROS <= sample_rate * remaining) by (nonlinear_arith)
                requires remaining > MAX_SLICE_MICROS, sample_rate >= 0;
            assert(sample_rate * remaining <= sample_rate * delta_micros) by (nonlinear_arith)
                requires remaining <= delta_micros, sample_rate >= 0;
            assert(sample_rate * (delta_micros - remaining) >= 0) by (nonlinear_arith)
                requires remaining <= delta_micros, sample_rate >= 0;
        }
        let total: u64 = sample_rate as u64 * MAX_SLICE_MICROS + carry;
        let frames: u64 = total / MILLION;
        proof {
            lemma_fundamental_div_mod(total as int, MILLION as int);
            lemma_frames_total_push(plan@, frames);
            assert(sample_rate * (delta_micros - remaining) + sample_rate * MAX_SLICE_MICROS
                == sample_rate * (delta_micros - (remaining - MAX_SLICE_MICROS)))
                by (nonlinear_arith)
                requires remaining > MAX_SLICE_MICROS;
            assert((plan@.len() + 1) * MAX_SLICE_MICROS
                == plan@.len() * MAX_SLICE_MICROS + MAX_SLICE_MICROS) by (nonlinear_arith);
            assert(frames * MILLION <= total);
        }
        plan.push(frames);
        carry = total % MILLION;
        remaining = remaining - MAX_SLICE_MICROS;
    }

    proof {
        assert(sample_rate * remaining <= sample_rate * delta_micros) by (nonlinear_arith)
            requires remaining <= delta_micros, sample_rate >= 0;
        assert(sample_rate * (delta_micros - remaining) >= 0) by (nonlinear_arith)
            requires remaining <= delta_micros, sample_rate >= 0;
        assert(sample_rate * remaining <= sample_rate * MAX_SLICE_MICROS) by (nonlinear_arith)
            requires remaining <= MAX_SLICE_MICROS, sample_rate >= 0;
    }
    let total: u64 = sample_rate as u64 * remaining + carry;
    let frames: u64 = total / MILLION;
    let final_carry: u64 = total % MILLION;
    proof {
        lemma_fundamental_div_mod(total as int, MILLION as int);
        lemma_frames_total_push(plan@, frames);
        assert(sample_rate * (delta_micros - remaining) + sample_rate * remaining
            == sample_rate * delta_micros) by (nonlinear_arith);
        assert(frames * MILLION <= total);
        // The plan's final length is the ceiling of delta over the slice bound.
        let ghost k = plan@.len() as int;
        if delta_micros == 0 {
            assert(k == 0);
        } else if k == 0 {
            assert(delta_micros == remaining);
            lemma_fundamental_div_mod_converse(
                (delta_micros + MAX_SLICE_MICROS - 1) as int,
                MAX_SLICE_MICROS as int,
                1,
                (delta_micros - 1) as int,
            );
        } else {
            assert(remaining > 0);
            assert(delta_micros == k * MAX_SLICE_MICROS + remaining);
            assert((delta_micros + MAX_SLICE_MICROS - 1) as int
                == (k + 1) * MAX_SLICE_MICROS + (remaining - 1)) by (nonlinear_arith)
                requires delta_micros == k * MAX_SLICE_MICROS + remaining;
            lemma_fundamental_div_mod_converse(
                (delta_micros + MAX_SLICE_MICROS - 1) as int,
                MAX_SLICE_MICROS as int,
                k + 1,
                (remaining - 1) as int,
            );
        }
    }
    plan.push(frames);
    (plan, final_carry)
}

/// Law: for a positive delta, the slice plan's frame counts sum to the
/// rounded exact frame total, `rounded_frames(rate * delta)`, within one
/// frame, whatever carry the batch started with.
pub proof fn lemma_slice_plan_total(
    sample_rate: nat,
    delta_micros: nat,
    carry_in: nat,
    plan: Seq<u64>,
    carry_out: nat,
)
    requires
        delta_micros > 0,
        carry_in < MILLION,
        carry_out < MILLION,
        frames_total(plan) * MILLION + carry_out == sample_rate * delta_micros + carry_in,
    ensures
        rounded_frames((sample_rate * delta_micros) as int) - 1 <= frames_total(plan)
            <= rounded_frames((sample_rate * delta_micros) as int) + 1,
{
    let x = (sample_rate * delta_micros) as int;
    let m = MILLION as int;
    let s = frames_total(plan);
    let r = rounded_frames(x);
    lemma_fundamental_div_mod(x + m / 2, m);
    assert(r * m <= x + m / 2);
    assert(r * m > x + m / 2 - m);
    assert(s * m == x + carry_in - carry_out);
    assert(s * m < x + m);
    assert(s * m > x - m);
    assert((s - r) * m == s * m - r * m) by (nonlinear_arith);
    assert((s - r) * m < 2 * m);
    assert((s - r) * m > -2 * m);
    assert(s - r < 2) by (nonlinear_arith)
        requires (s - r) * m < 2 * m, m > 0;
    assert(s - r > -2) by (nonlinear_arith)
        requires (s - r) * m > -2 * m, m > 0;
}

} // verus!

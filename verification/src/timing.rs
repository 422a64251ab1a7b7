//! Frame timing and progress arithmetic.

use vstd::prelude::*;

verus! {

/// Rate, in frames per second, at which the source clip is sampled.
pub const SAMPLING_RATE_FPS: u16 = 15;

/// `n / d` rounded to the nearest integer, halves rounded up.
pub open spec fn rounded_quotient(n: int, d: int) -> int {
    (n + n + d) / (d + d)
}

/// Playback time of one frame, in centiseconds, for a clip sampled at `fps`
/// frames per second: the rounded quotient `100 / fps`, but never below 1.
pub open spec fn frame_delay(fps: int) -> int {
    if rounded_quotient(100, fps) < 1 {
        1
    } else {
        rounded_quotient(100, fps)
    }
}

/// Percentage shown once the frame at `index` (counted from 0) of `total`
/// frames has been written.
pub open spec fn progress_after(index: int, total: int) -> int {
    (index + 1) * 100 / total
}

/// The progress values of a whole run on `total` frames, in the order in which
/// they are shown.
pub open spec fn progress_values(total: nat) -> Seq<int> {
    Seq::new(total, |i: int| progress_after(i, total as int))
}

/// Computes the per-frame delay in centiseconds for the given sampling rate.
pub fn frame_delay_cs(fps: u16) -> (delay: u16)
    requires
        fps > 0,
    ensures
        delay == frame_delay(fps as int),
        1 <= delay <= 100,
{
    let doubled: u32 = fps as u32 + fps as u32;
    let rounded: u32 = (200 + fps as u32) / doubled;
    assert(rounded <= 100) by (nonlinear_arith)
        requires
            rounded == (200 + fps as int) / (fps as int + fps as int),
            fps >= 1,
    ;
    if rounded < 1 {
        1
    } else {
        rounded as u16
    }
}

/// Computes the percentage to show after the frame at `index` of `total` has
/// been written.
pub fn progress_percent(index: usize, total: usize) -> (percent: u8)
    requires
        index < total,
    ensures
        percent == progress_after(index as int, total as int),
        percent <= 100,
{
    let done: u128 = index as u128 + 1;
    let scaled: u128 = done * 100;
    let percent: u128 = scaled / (total as u128);
    assert(percent <= 100) by (nonlinear_arith)
        requires
            percent == (done * 100) / (total as int),
            0 < done <= total,
    ;
    percent as u8
}

/// The delay is the whole number of centiseconds nearest to `100 / fps`
/// whenever that quotient rounds to at least 1.
pub proof fn frame_delay_is_nearest(fps: int)
    requires
        0 < fps <= 200,
    ensures
        2 * (frame_delay(fps) * fps - 100) <= fps,
        2 * (100 - frame_delay(fps) * fps) < fps,
{
    let q = rounded_quotient(100, fps);
    assert(q * (2 * fps) <= 200 + fps < (q + 1) * (2 * fps)) by (nonlinear_arith)
        requires
            q == (200 + fps) / (fps + fps),
            fps > 0,
    ;
    assert(q >= 1) by (nonlinear_arith)
        requires
            200 + fps < (q + 1) * (2 * fps),
            0 < fps <= 200,
    ;
    assert(q * (2 * fps) == 2 * (q * fps)) by (nonlinear_arith);
    assert((q + 1) * (2 * fps) == 2 * (q * fps) + 2 * fps) by (nonlinear_arith);
}

/// Every progress value lies between 0 and 100.
pub proof fn progress_is_bounded(index: int, total: int)
    requires
        0 <= index < total,
    ensures
        0 <= progress_after(index, total) <= 100,
{
    assert(0 <= (index + 1) * 100 / total <= 100) by (nonlinear_arith)
        requires
            0 <= index < total,
    ;
}

/// A later frame never shows a smaller percentage than an earlier one.
pub proof fn progress_is_monotonic(earlier: int, later: int, total: int)
    requires
        0 <= earlier <= later < total,
    ensures
        progress_after(earlier, total) <= progress_after(later, total),
{
    assert((earlier + 1) * 100 / total <= (later + 1) * 100 / total) by (nonlinear_arith)
        requires
            0 <= earlier <= later,
            total > 0,
    ;
}

/// The last frame of a run brings the percentage to exactly 100.
pub proof fn progress_ends_at_hundred(total: int)
    requires
        total > 0,
    ensures
        progress_after(total - 1, total) == 100,
{
    assert(total * 100 / total == 100) by (nonlinear_arith)
        requires
            total > 0,
    ;
}

/// Over a run on `total` frames the progress values are
/// `1 * 100 / total`, `2 * 100 / total`, ..., rounded down; they never
/// decrease, never exceed 100, and the last of them is 100.
pub proof fn progress_values_rise_to_hundred(total: nat)
    requires
        total > 0,
    ensures
        progress_values(total).len() == total,
        forall|i: int|
            0 <= i < total ==> #[trigger] progress_values(total)[i] == (i + 1) * 100 / (
            total as int),
        forall|i: int, j: int|
            0 <= i <= j < total ==> #[trigger] progress_values(total)[i]
                <= #[trigger] progress_values(total)[j],
        forall|i: int| 0 <= i < total ==> 0 <= #[trigger] progress_values(total)[i] <= 100,
        progress_values(total).last() == 100,
{
    assert forall|i: int, j: int| 0 <= i <= j < total implies #[trigger] progress_values(total)[i]
        <= #[trigger] progress_values(total)[j] by {
        progress_is_monotonic(i, j, total as int);
    }
    assert forall|i: int| 0 <= i < total implies 0 <= #[trigger] progress_values(total)[i]
        <= 100 by {
        progress_is_bounded(i, total as int);
    }
    progress_ends_at_hundred(total as int);
}

} // verus!

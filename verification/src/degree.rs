//! From a hand's position on the dial to its angle.
//!
//! A hand stands at `value` out of `scale` steps of the dial: the hour hand at
//! an hour out of 12, the minute and second hands at a value out of 60. The
//! value is given in thousandths of a step, the angle comes back in
//! thousandths of a degree, so that fractions of a step keep their meaning.

use vstd::prelude::*;
use vstd::arithmetic::div_mod::lemma_div_multiples_vanish;

verus! {

/// Thousandths in one whole: indicator values count thousandths of a dial
/// step, angles count thousandths of a degree.
pub const MILLI: u32 = 1000;

/// A full turn of 360 degrees, in thousandths of a degree.
pub const FULL_TURN: u32 = 360_000;

/// A quarter turn of 90 degrees, in thousandths of a degree.
pub const QUARTER_TURN: u32 = 90_000;

/// An indicator value lies on its dial: it is at most the full scale.
pub open spec fn on_dial(value: int, scale: int) -> bool {
    0 <= value <= scale * MILLI
}

/// The angle on the clock face, clockwise from the twelve o'clock position,
/// of a hand that stands at `value` thousandths of a step on a dial of
/// `scale` steps: that fraction of a full turn, rounded down to a thousandth
/// of a degree. A hand at full scale has rolled over and stands at zero.
pub open spec fn clock_indicator_degree(value: int, scale: int) -> int {
    if value == scale * MILLI {
        0
    } else {
        (value * FULL_TURN) / (scale * MILLI)
    }
}

/// The same position as a screen angle: counter-clockwise from the positive
/// x-axis. The clock-face angle is mirrored, because the dial runs clockwise,
/// and then turned by a quarter, because the dial starts at the top.
pub open spec fn normalized_indicator_degree(value: int, scale: int) -> int {
    (FULL_TURN - clock_indicator_degree(value, scale) + QUARTER_TURN) % (FULL_TURN as int)
}

/// Calculates the angle between the twelve o'clock line and the hand,
/// clockwise, in thousandths of a degree.
///
/// `indicator_value` is the position of the hand in thousandths of a step,
/// `indicator_scale` the number of steps on its dial. A value beyond the full
/// scale is not a position on the dial: it is the caller's duty to pass none.
pub fn calc_clock_indicator_degree(indicator_value: u32, indicator_scale: u8) -> (degree: u32)
    requires
        on_dial(indicator_value as int, indicator_scale as int),
    ensures
        degree == clock_indicator_degree(indicator_value as int, indicator_scale as int),
        degree < FULL_TURN,
{
    let span: u32 = indicator_scale as u32 * MILLI;
    if indicator_value == span {
        // A full scale wraps round to the start of the dial.
        0
    } else {
        proof {
            lemma_clock_indicator_degree_range(indicator_value as int, indicator_scale as int);
        }
        let turned: u64 = indicator_value as u64 * FULL_TURN as u64;
        (turned / span as u64) as u32
    }
}

/// Calculates the angle of the hand as sine and cosine expect it: counter-
/// clockwise from the positive x-axis, in thousandths of a degree, so that
/// the start of the dial is at 90 degrees, a quarter of the dial at 0, half
/// of it at 270 and three quarters at 180.
pub fn normalize_clock_indicator_degree(indicator_value: u32, indicator_scale: u8) -> (degree: u32)
    requires
        on_dial(indicator_value as int, indicator_scale as int),
    ensures
        degree == normalized_indicator_degree(indicator_value as int, indicator_scale as int),
        degree < FULL_TURN,
{
    let degree: u32 = calc_clock_indicator_degree(indicator_value, indicator_scale);
    // The dial runs clockwise, angles run counter-clockwise.
    let degree: u32 = FULL_TURN - degree;
    (degree + QUARTER_TURN) % FULL_TURN
}

/// Every position on a dial has an angle of at least zero and less than a
/// full turn, on the clock face and on the screen, and the full scale has
/// the clock-face angle zero.
pub proof fn lemma_clock_indicator_degree_range(value: int, scale: int)
    requires
        on_dial(value, scale),
    ensures
        0 <= clock_indicator_degree(value, scale) < FULL_TURN,
        0 <= normalized_indicator_degree(value, scale) < FULL_TURN,
        clock_indicator_degree(scale * MILLI, scale) == 0,
{
    let span = scale * MILLI;
    if value != span {
        assert(0 <= (value * FULL_TURN) / span < FULL_TURN) by (nonlinear_arith)
            requires
                0 <= value < span,
        ;
    }
}

/// A hand at the start of its dial points straight up, whatever the scale:
/// its screen angle is a quarter turn.
pub proof fn lemma_start_of_dial_points_up(scale: int)
    requires
        0 <= scale,
    ensures
        normalized_indicator_degree(0, scale) == QUARTER_TURN,
{
    if scale > 0 {
        lemma_quarter_steps(0, scale);
    }
}

/// A hand at full scale has rolled over and points straight up as well.
pub proof fn lemma_full_scale_points_up(scale: int)
    requires
        0 <= scale,
    ensures
        normalized_indicator_degree(scale * MILLI, scale) == QUARTER_TURN,
{
}

/// A quarter, a half and three quarters of the way round any dial, the hand
/// points right, down and left: its screen angle is 0, 270 and 180 degrees.
/// A quarter of a dial of `scale` steps is `250 * scale` thousandths of a
/// step.
pub proof fn lemma_quarters_of_dial(scale: int)
    requires
        0 < scale,
    ensures
        normalized_indicator_degree(250 * scale, scale) == 0,
        normalized_indicator_degree(500 * scale, scale) == 3 * QUARTER_TURN,
        normalized_indicator_degree(750 * scale, scale) == 2 * QUARTER_TURN,
{
    lemma_quarter_steps(1, scale);
    lemma_quarter_steps(2, scale);
    lemma_quarter_steps(3, scale);
}

/// After `quarters` quarters of its dial a hand has gone through as many
/// quarter turns.
proof fn lemma_quarter_steps(quarters: int, scale: int)
    requires
        0 <= quarters < 4,
        0 < scale,
    ensures
        clock_indicator_degree(quarters * 250 * scale, scale) == quarters * QUARTER_TURN,
{
    let span = scale * MILLI;
    let value = quarters * 250 * scale;
    assert(value * FULL_TURN == span * (quarters * QUARTER_TURN) && value < span)
        by (nonlinear_arith)
        requires
            0 <= quarters < 4,
            0 < scale,
            span == scale * MILLI,
            value == quarters * 250 * scale,
    ;
    lemma_div_multiples_vanish(quarters * QUARTER_TURN, span);
}

} // verus!

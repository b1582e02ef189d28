//! Sine and cosine in integer arithmetic.
//!
//! Angles are counted in thousandths of a degree, sines in parts per billion.
//! The sine of a whole degree is read from a table of the first quadrant; the
//! other quadrants follow by symmetry, and an angle between two whole degrees
//! gets its sine by linear interpolation between its neighbours.
//!
//! What is proved here is proved of these tabulated sines. How close they
//! are to the sine itself is a matter of the table: at a whole degree the
//! nearest part per billion, in between within 4 parts in 100,000.

use vstd::prelude::*;
use vstd::arithmetic::div_mod::{lemma_add_mod_noop_right, lemma_mod_add_multiples_vanish};
use crate::degree::{FULL_TURN, MILLI, QUARTER_TURN};

verus! {

/// The number that stands for a sine of one.
pub const UNIT: i64 = 1_000_000_000;

/// The sines of the whole degrees from 0 to 90, in parts per billion, each
/// rounded to the nearest integer.
pub const QUADRANT_SINE: [i64; 91] = [
    0, 17_452_406, 34_899_497, 52_335_956, 69_756_474,
    87_155_743, 104_528_463, 121_869_343, 139_173_101, 156_434_465,
    173_648_178, 190_808_995, 207_911_691, 224_951_054, 241_921_896,
    258_819_045, 275_637_356, 292_371_705, 309_016_994, 325_568_154,
    342_020_143, 358_367_950, 374_606_593, 390_731_128, 406_736_643,
    422_618_262, 438_371_147, 453_990_500, 469_471_563, 484_809_620,
    500_000_000, 515_038_075, 529_919_264, 544_639_035, 559_192_903,
    573_576_436, 587_785_252, 601_815_023, 615_661_475, 629_320_391,
    642_787_610, 656_059_029, 669_130_606, 681_998_360, 694_658_370,
    707_106_781, 719_339_800, 731_353_702, 743_144_825, 754_709_580,
    766_044_443, 777_145_961, 788_010_754, 798_635_510, 809_016_994,
    819_152_044, 829_037_573, 838_670_568, 848_048_096, 857_167_301,
    866_025_404, 874_619_707, 882_947_593, 891_006_524, 898_794_046,
    906_307_787, 913_545_458, 920_504_853, 927_183_855, 933_580_426,
    939_692_621, 945_518_576, 951_056_516, 956_304_756, 961_261_696,
    965_925_826, 970_295_726, 974_370_065, 978_147_601, 981_627_183,
    984_807_753, 987_688_341, 990_268_069, 992_546_152, 994_521_895,
    996_194_698, 997_564_050, 998_629_535, 999_390_827, 999_847_695,
    1_000_000_000,
];

/// The sine of a whole number of degrees between 0 and 360: the tabulated
/// value, mirrored about the right angle and negated past the half turn.
#[verifier::opaque]
pub open spec fn whole_degree_sine(degree: int) -> int
    recommends
        0 <= degree <= 360,
{
    if degree <= 90 {
        QUADRANT_SINE[degree] as int
    } else if degree <= 180 {
        QUADRANT_SINE[180 - degree] as int
    } else if degree <= 270 {
        -(QUADRANT_SINE[degree - 180] as int)
    } else {
        -(QUADRANT_SINE[360 - degree] as int)
    }
}

/// The point that lies `part` thousandths of the way from `low` to `high`,
/// rounded down.
pub open spec fn interpolate(low: int, high: int, part: int) -> int {
    (low * (MILLI - part) + high * part) / (MILLI as int)
}

/// The sine of an angle given in thousandths of a degree. The angle is taken
/// modulo a full turn; within a degree the sine runs in a straight line from
/// the sine of the degree below to that of the degree above.
pub open spec fn sine(angle: int) -> int {
    let turned = angle % (FULL_TURN as int);
    let degree = turned / (MILLI as int);
    interpolate(
        whole_degree_sine(degree),
        whole_degree_sine(degree + 1),
        turned % (MILLI as int),
    )
}

/// The cosine of an angle: the sine a quarter turn further on.
pub open spec fn cosine(angle: int) -> int {
    sine(angle + QUARTER_TURN)
}

/// Reads the sine of a whole degree from the table.
fn whole_degree_sine_of(degree: u32) -> (s: i64)
    requires
        degree <= 360,
    ensures
        s == whole_degree_sine(degree as int),
        -UNIT <= s <= UNIT,
{
    proof {
        reveal(whole_degree_sine);
    }
    if degree <= 90 {
        QUADRANT_SINE[degree as usize]
    } else if degree <= 180 {
        QUADRANT_SINE[(180 - degree) as usize]
    } else if degree <= 270 {
        -QUADRANT_SINE[(degree - 180) as usize]
    } else {
        -QUADRANT_SINE[(360 - degree) as usize]
    }
}

/// Computes the sine of an angle given in thousandths of a degree.
pub fn sine_of(angle: u32) -> (s: i64)
    ensures
        s == sine(angle as int),
        -UNIT <= s <= UNIT,
{
    let turned: u32 = angle % FULL_TURN;
    let degree: u32 = turned / MILLI;
    let low: i64 = whole_degree_sine_of(degree);
    let high: i64 = whole_degree_sine_of(degree + 1);
    let above: i64 = (turned % MILLI) as i64;
    let below: i64 = MILLI as i64 - above;
    proof {
        lemma_interpolate_range(low as int, high as int, above as int);
    }
    let blend: i64 = low * below + high * above;
    // Shifted up by a multiple of the divisor the dividend is not negative,
    // so that the quotient is rounded down, also for a negative sine.
    let whole: i64 = MILLI as i64;
    (blend + UNIT * whole) / whole - UNIT
}

/// Computes the cosine of an angle given in thousandths of a degree.
pub fn cosine_of(angle: u32) -> (c: i64)
    ensures
        c == cosine(angle as int),
        -UNIT <= c <= UNIT,
{
    let turned: u32 = angle % FULL_TURN;
    proof {
        lemma_add_mod_noop_right(QUARTER_TURN as int, angle as int, FULL_TURN as int);
        lemma_sine_congruent(turned + QUARTER_TURN, angle + QUARTER_TURN);
    }
    sine_of(turned + QUARTER_TURN)
}

/// Computes the sine and the cosine of an angle given in thousandths of a
/// degree.
pub fn sin_cos(angle: u32) -> (pair: (i64, i64))
    ensures
        pair.0 == sine(angle as int),
        pair.1 == cosine(angle as int),
        -UNIT <= pair.0 <= UNIT,
        -UNIT <= pair.1 <= UNIT,
{
    (sine_of(angle), cosine_of(angle))
}

/// The sine of a whole degree is at most one in size.
pub proof fn lemma_whole_degree_sine_range(degree: int)
    requires
        0 <= degree <= 360,
    ensures
        -UNIT <= whole_degree_sine(degree) <= UNIT,
{
    reveal(whole_degree_sine);
}

/// A point between two values of at most one in size is itself at most one
/// in size, and so are the two products that it is made of.
proof fn lemma_interpolate_range(low: int, high: int, part: int)
    by (nonlinear_arith)
    requires
        -UNIT <= low <= UNIT,
        -UNIT <= high <= UNIT,
        0 <= part <= MILLI,
    ensures
        -UNIT * MILLI <= low * (MILLI - part) <= UNIT * MILLI,
        -UNIT * MILLI <= high * part <= UNIT * MILLI,
        -UNIT * MILLI <= low * (MILLI - part) + high * part <= UNIT * MILLI,
        -UNIT <= interpolate(low, high, part) <= UNIT,
{
}

/// No sine and no cosine exceeds one in size.
pub proof fn lemma_sine_range(angle: int)
    ensures
        -UNIT <= sine(angle) <= UNIT,
        -UNIT <= cosine(angle) <= UNIT,
{
    lemma_sine_range_at(angle);
    lemma_sine_range_at(angle + QUARTER_TURN);
}

proof fn lemma_sine_range_at(angle: int)
    ensures
        -UNIT <= sine(angle) <= UNIT,
{
    let turned = angle % (FULL_TURN as int);
    let degree = turned / (MILLI as int);
    lemma_whole_degree_sine_range(degree);
    lemma_whole_degree_sine_range(degree + 1);
    lemma_interpolate_range(
        whole_degree_sine(degree),
        whole_degree_sine(degree + 1),
        turned % (MILLI as int),
    );
}

/// Two angles that differ by full turns have the same sine.
pub proof fn lemma_sine_congruent(first: int, second: int)
    requires
        first % (FULL_TURN as int) == second % (FULL_TURN as int),
    ensures
        sine(first) == sine(second),
{
}

/// Sine and cosine repeat after a full turn.
pub proof fn lemma_sine_periodic(angle: int)
    ensures
        sine(angle + FULL_TURN) == sine(angle),
        cosine(angle + FULL_TURN) == cosine(angle),
{
    lemma_mod_add_multiples_vanish(angle, FULL_TURN as int);
    lemma_mod_add_multiples_vanish(angle + QUARTER_TURN, FULL_TURN as int);
    lemma_sine_congruent(angle + FULL_TURN, angle);
    lemma_sine_congruent(angle + FULL_TURN + QUARTER_TURN, angle + QUARTER_TURN);
}

/// At a whole number of degrees the sine is the tabulated one.
pub proof fn lemma_sine_of_whole_degree(degree: int)
    requires
        0 <= degree < 360,
    ensures
        sine(degree * MILLI) == whole_degree_sine(degree),
{
    let low = whole_degree_sine(degree);
    let high = whole_degree_sine(degree + 1);
    assert(interpolate(low, high, 0) == low) by (nonlinear_arith);
}

/// At the four quarter turns sine and cosine are exactly 0, 1 or -1.
pub proof fn lemma_sine_at_quarter_turns()
    ensures
        sine(0) == 0 && cosine(0) == UNIT,
        sine(QUARTER_TURN as int) == UNIT && cosine(QUARTER_TURN as int) == 0,
        sine(2 * QUARTER_TURN) == 0 && cosine(2 * QUARTER_TURN) == -UNIT,
        sine(3 * QUARTER_TURN) == -UNIT && cosine(3 * QUARTER_TURN) == 0,
{
    reveal(whole_degree_sine);
    lemma_sine_of_whole_degree(0);
    lemma_sine_of_whole_degree(90);
    lemma_sine_of_whole_degree(180);
    lemma_sine_of_whole_degree(270);
    lemma_sine_congruent(4 * QUARTER_TURN, 0);
}

} // verus!

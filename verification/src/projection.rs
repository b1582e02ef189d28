//! From an angle to the pixel at the tip of a hand.
//!
//! Pixels are counted from the top left corner of the buffer: x grows to the
//! right and y grows downwards, so that a positive sine moves a point up the
//! screen, towards smaller y. A tip is reported where it lies, on the buffer
//! or off it, in coordinates wide enough for every start and every length.

use vstd::prelude::*;
use crate::degree::{FULL_TURN, QUARTER_TURN};
use crate::sine::{
    cosine, lemma_sine_at_quarter_turns, lemma_sine_periodic, lemma_sine_range, sin_cos, sine,
    UNIT,
};

verus! {

/// The quotient of two integers, rounded towards zero.
pub open spec fn truncate(numerator: int, denominator: int) -> int
    recommends
        denominator > 0,
{
    if numerator >= 0 {
        numerator / denominator
    } else {
        -((-numerator) / denominator)
    }
}

/// The position on an axis that lies `radius` times `component` away from
/// `origin`, where `component` counts parts per billion: the exact position,
/// rounded towards zero.
pub open spec fn displaced(origin: int, component: int, radius: int) -> int {
    truncate(origin * UNIT + component * radius, UNIT as int)
}

/// The pixel at the end of a line of length `scale_factor` that starts at
/// `(x_orig, y_orig)` and runs in the direction of `degree`, an angle in
/// thousandths of a degree, counter-clockwise from the positive x-axis. The
/// sine is subtracted, because y grows downwards. Nothing holds the end on
/// the buffer: left of it or above it, a coordinate is negative.
pub open spec fn destination_coordinates(
    degree: int,
    x_orig: int,
    y_orig: int,
    scale_factor: int,
) -> (int, int) {
    (
        displaced(x_orig, cosine(degree), scale_factor),
        displaced(y_orig, -sine(degree), scale_factor),
    )
}

/// Moves `origin` along its axis by `radius` times `component` parts per
/// billion.
fn displace(origin: usize, component: i64, radius: usize) -> (position: i128)
    requires
        -UNIT <= component <= UNIT,
    ensures
        position == displaced(origin as int, component as int, radius as int),
{
    assert(-(UNIT * u64::MAX) <= component * radius <= UNIT * u64::MAX) by (nonlinear_arith)
        requires
            -UNIT <= component <= UNIT,
            0 <= radius <= u64::MAX,
    ;
    let unit: i128 = UNIT as i128;
    let exact: i128 = origin as i128 * unit + component as i128 * radius as i128;
    if exact >= 0 {
        exact / unit
    } else {
        -((-exact) / unit)
    }
}

/// Calculates the coordinates of the end point of a line from its start, its
/// direction and its length, in a coordinate system where x grows to the
/// right and y to the bottom.
///
/// `degree` is the direction in thousandths of a degree, counter-clockwise
/// from the positive x-axis; any number of full turns may be part of it. Each
/// coordinate is rounded towards zero. The end point is not held on the
/// buffer: where the line leaves it to the left or to the top, a coordinate
/// is negative, and it is for the caller to guard what it draws.
pub fn calc_destination_coordinates(
    degree: u32,
    x_orig: usize,
    y_orig: usize,
    scale_factor: usize,
) -> (dest: (i128, i128))
    ensures
        (dest.0 as int, dest.1 as int) == destination_coordinates(
            degree as int,
            x_orig as int,
            y_orig as int,
            scale_factor as int,
        ),
{
    let (sin, cos) = sin_cos(degree);
    (displace(x_orig, cos, scale_factor), displace(y_orig, -sin, scale_factor))
}

/// A line that is turned by a full turn ends at the same pixel.
pub proof fn lemma_destination_periodic(degree: int, x_orig: int, y_orig: int, scale_factor: int)
    ensures
        destination_coordinates(degree + FULL_TURN, x_orig, y_orig, scale_factor)
            == destination_coordinates(degree, x_orig, y_orig, scale_factor),
{
    lemma_sine_periodic(degree);
}

/// Along the axes nothing is lost to rounding: a line at 0, 90, 180 or 270
/// degrees ends exactly its length to the right of, above, to the left of or
/// below its start.
pub proof fn lemma_destination_at_quarter_turns(x_orig: int, y_orig: int, scale_factor: int)
    ensures
        destination_coordinates(0, x_orig, y_orig, scale_factor) == (
            x_orig + scale_factor,
            y_orig,
        ),
        destination_coordinates(QUARTER_TURN as int, x_orig, y_orig, scale_factor) == (
            x_orig,
            y_orig - scale_factor,
        ),
        destination_coordinates(2 * QUARTER_TURN, x_orig, y_orig, scale_factor) == (
            x_orig - scale_factor,
            y_orig,
        ),
        destination_coordinates(3 * QUARTER_TURN, x_orig, y_orig, scale_factor) == (
            x_orig,
            y_orig + scale_factor,
        ),
{
    lemma_sine_at_quarter_turns();
    lemma_displaced_by_whole_steps(x_orig, 1, scale_factor);
    lemma_displaced_by_whole_steps(x_orig, 0, scale_factor);
    lemma_displaced_by_whole_steps(x_orig, -1, scale_factor);
    lemma_displaced_by_whole_steps(y_orig, 1, scale_factor);
    lemma_displaced_by_whole_steps(y_orig, 0, scale_factor);
    lemma_displaced_by_whole_steps(y_orig, -1, scale_factor);
}

/// A component of a whole number of units moves the origin by that many
/// radii.
proof fn lemma_displaced_by_whole_steps(origin: int, steps: int, radius: int)
    ensures
        displaced(origin, steps * UNIT, radius) == origin + steps * radius,
{
    let position = origin + steps * radius;
    assert(origin * UNIT + (steps * UNIT) * radius == position * UNIT) by (nonlinear_arith)
        requires
            position == origin + steps * radius,
    ;
}

/// The end of a line lies no further from its start than the line is long,
/// along either axis: a hand stays within the square around its clock face.
pub proof fn lemma_destination_within_radius(
    degree: int,
    x_orig: int,
    y_orig: int,
    scale_factor: int,
)
    requires
        0 <= scale_factor,
    ensures
        ({
            let dest = destination_coordinates(degree, x_orig, y_orig, scale_factor);
            &&& x_orig - scale_factor <= dest.0 <= x_orig + scale_factor
            &&& y_orig - scale_factor <= dest.1 <= y_orig + scale_factor
        }),
{
    lemma_sine_range(degree);
    lemma_displaced_within_radius(x_orig, cosine(degree), scale_factor);
    lemma_displaced_within_radius(y_orig, -sine(degree), scale_factor);
}

/// Along one axis the end of a line lies no further from its start than the
/// line is long.
proof fn lemma_displaced_within_radius(origin: int, component: int, radius: int)
    requires
        0 <= radius,
        -UNIT <= component <= UNIT,
    ensures
        origin - radius <= displaced(origin, component, radius) <= origin + radius,
{
    let reach = component * radius;
    assert(-(UNIT * radius) <= reach <= UNIT * radius) by (nonlinear_arith)
        requires
            0 <= radius,
            -UNIT <= component <= UNIT,
            reach == component * radius,
    ;
    let exact = origin * UNIT + reach;
    assert((origin - radius) * UNIT <= exact <= (origin + radius) * UNIT);
    if exact >= 0 {
        assert(origin - radius <= exact / (UNIT as int) <= origin + radius);
    } else {
        assert(-(origin + radius) <= (-exact) / (UNIT as int) <= radius - origin);
    }
}

/// The end of a line lies at or after the start of an axis: its position on
/// the axis, before any rounding, is not negative.
pub open spec fn on_axis(origin: int, component: int, radius: int) -> bool {
    0 <= origin * UNIT + component * radius
}

/// The end of a line lies neither left of the buffer nor above it.
pub open spec fn on_buffer(degree: int, x_orig: int, y_orig: int, scale_factor: int) -> bool {
    on_axis(x_orig, cosine(degree), scale_factor) && on_axis(y_orig, -sine(degree), scale_factor)
}

/// Doubling the length of a line doubles the offset of its end from its
/// start, up to what rounding can take. Where the longer line ends neither
/// left of the buffer nor above it, the doubled offset is met or exceeded by
/// one pixel. Where it does, rounding towards zero turns round, and the
/// longer line may fall short of the doubled offset by one pixel or exceed
/// it by two.
pub proof fn lemma_double_radius_doubles_offset(
    degree: int,
    x_orig: int,
    y_orig: int,
    scale_factor: int,
)
    requires
        0 <= scale_factor,
        0 <= x_orig,
        0 <= y_orig,
    ensures
        ({
            let near = destination_coordinates(degree, x_orig, y_orig, scale_factor);
            let far = destination_coordinates(degree, x_orig, y_orig, 2 * scale_factor);
            &&& 2 * (near.0 - x_orig) - 1 <= far.0 - x_orig <= 2 * (near.0 - x_orig) + 2
            &&& 2 * (near.1 - y_orig) - 1 <= far.1 - y_orig <= 2 * (near.1 - y_orig) + 2
            &&& on_buffer(degree, x_orig, y_orig, 2 * scale_factor) ==> {
                &&& on_buffer(degree, x_orig, y_orig, scale_factor)
                &&& 2 * (near.0 - x_orig) <= far.0 - x_orig <= 2 * (near.0 - x_orig) + 1
                &&& 2 * (near.1 - y_orig) <= far.1 - y_orig <= 2 * (near.1 - y_orig) + 1
            }
        }),
{
    lemma_displaced_by_double_radius(x_orig, cosine(degree), scale_factor);
    lemma_displaced_by_double_radius(y_orig, -sine(degree), scale_factor);
}

/// Along one axis: a line of twice the length ends twice as far from its
/// start, up to what rounding can take.
proof fn lemma_displaced_by_double_radius(origin: int, component: int, radius: int)
    requires
        0 <= radius,
        0 <= origin,
    ensures
        ({
            let near = displaced(origin, component, radius) - origin;
            let far = displaced(origin, component, 2 * radius) - origin;
            &&& 2 * near - 1 <= far <= 2 * near + 2
            &&& on_axis(origin, component, 2 * radius) ==> {
                &&& on_axis(origin, component, radius)
                &&& 2 * near <= far <= 2 * near + 1
            }
        }),
{
    assert(component * (2 * radius) == 2 * (component * radius)) by (nonlinear_arith);
}

} // verus!

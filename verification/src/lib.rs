//! Hand positions of a twelve-hour analog clock.
//!
//! A time of day is turned into the screen angle of each hand and then into
//! the pixel at the tip of the hand, for a clock face of a given centre and
//! radius. All arithmetic is integer arithmetic: indicator values and angles
//! are counted in thousandths, sines in parts per billion.

pub mod clock;
pub mod degree;
pub mod projection;
pub mod sine;

pub use clock::{Clock, ClockError, TimeOfDay};
pub use degree::{
    calc_clock_indicator_degree, normalize_clock_indicator_degree, FULL_TURN, MILLI, QUARTER_TURN,
};
pub use projection::calc_destination_coordinates;
pub use sine::{cosine_of, sin_cos, sine_of, QUADRANT_SINE, UNIT};

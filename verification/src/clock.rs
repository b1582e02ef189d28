//! A time of day and the three hands that show it.

use vstd::prelude::*;
use crate::degree::{
    normalize_clock_indicator_degree, normalized_indicator_degree, FULL_TURN, MILLI,
};
use crate::projection::{
    calc_destination_coordinates, destination_coordinates, lemma_destination_at_quarter_turns,
};

verus! {

/// The error of `time::OffsetDateTime::now_local`. It carries nothing but
/// the fact that the local offset could not be determined.
#[verifier::external_type_specification]
#[verifier::external_body]
pub struct ExIndeterminateOffset(time::error::IndeterminateOffset);

/// Why no clock could be made.
#[derive(Debug, Clone, Copy, PartialEq, Eq)]
pub enum ClockError {
    /// The offset of the local time zone could not be determined, so that
    /// the local time is not known.
    IndeterminateOffset,
    /// An hour of 24 or more, or a minute or a second of 60 or more.
    ComponentRange,
}

/// A time of day as three numbers: what a `Clock` shows.
pub struct TimeOfDay {
    pub hour: nat,
    pub minute: nat,
    pub second: nat,
}

impl TimeOfDay {
    /// The hour is one of the 24 of a day, the minute and the second are one
    /// of the 60 of an hour and of a minute.
    pub open spec fn valid(self) -> bool {
        self.hour < 24 && self.minute < 60 && self.second < 60
    }

    /// The screen angle of the hour hand, in thousandths of a degree: the
    /// hour on a dial of twelve, so that noon and midnight look alike.
    pub open spec fn hour_degree(self) -> int {
        normalized_indicator_degree((self.hour % 12) * MILLI, 12)
    }

    /// The screen angle of the minute hand, in thousandths of a degree.
    pub open spec fn minute_degree(self) -> int {
        normalized_indicator_degree(self.minute * MILLI, 60)
    }

    /// The screen angle of the second hand, in thousandths of a degree.
    pub open spec fn second_degree(self) -> int {
        normalized_indicator_degree(self.second * MILLI, 60)
    }

    /// The pixel at the tip of the hour hand, on a clock face with its centre
    /// at `(x_orig, y_orig)` and hands of length `scale_factor`.
    pub open spec fn hour_coordinates(self, x_orig: int, y_orig: int, scale_factor: int) -> (
        int,
        int,
    ) {
        destination_coordinates(self.hour_degree(), x_orig, y_orig, scale_factor)
    }

    /// The pixel at the tip of the minute hand.
    pub open spec fn minute_coordinates(self, x_orig: int, y_orig: int, scale_factor: int) -> (
        int,
        int,
    ) {
        destination_coordinates(self.minute_degree(), x_orig, y_orig, scale_factor)
    }

    /// The pixel at the tip of the second hand.
    pub open spec fn second_coordinates(self, x_orig: int, y_orig: int, scale_factor: int) -> (
        int,
        int,
    ) {
        destination_coordinates(self.second_degree(), x_orig, y_orig, scale_factor)
    }
}

/// What three numbers become when they are read as hour, minute and second:
/// the time of day that they name, or the error for numbers that name none.
pub open spec fn checked_time_of_day(hour: u8, minute: u8, second: u8) -> Result<
    TimeOfDay,
    ClockError,
> {
    let time = TimeOfDay { hour: hour as nat, minute: minute as nat, second: second as nat };
    if time.valid() {
        Ok(time)
    } else {
        Err(ClockError::ComponentRange)
    }
}

/// Wall clock time abstraction.
#[derive(Debug, Clone, Copy, PartialEq, Eq)]
pub struct Clock {
    hour: u8,
    minute: u8,
    second: u8,
}

impl View for Clock {
    type V = TimeOfDay;

    closed spec fn view(&self) -> TimeOfDay {
        TimeOfDay {
            hour: self.hour as nat,
            minute: self.minute as nat,
            second: self.second as nat,
        }
    }
}

/// Reads the current time of day in the local time zone.
///
/// Trusted: the body calls `time::OffsetDateTime::now_local` and takes the
/// result apart with `OffsetDateTime::time` and the `hour`, `minute` and
/// `second` methods of `time::Time`. The contract claims only what those
/// three methods document of every time: an hour below 24, a minute and a
/// second below 60. Which time comes back, and whether one does, depends on
/// the system's clock and time zone, so nothing is said of it. The call
/// panics where the system's clock stands outside the years that the crate
/// can represent.
#[verifier::external_body]
fn local_time_of_day() -> (reading: Result<(u8, u8, u8), time::error::IndeterminateOffset>)
    ensures
        reading matches Ok(hms) ==> hms.0 < 24 && hms.1 < 60 && hms.2 < 60,
{
    match time::OffsetDateTime::now_local() {
        Ok(now_local) => {
            let time = now_local.time();
            Ok((time.hour(), time.minute(), time.second()))
        },
        Err(error) => Err(error),
    }
}

impl Clock {
    #[verifier::type_invariant]
    spec fn well_formed(self) -> bool {
        self.hour < 24 && self.minute < 60 && self.second < 60
    }

    /// A clock that shows the current local time, as far as the system can
    /// tell it. Where the system cannot determine the offset of its time zone
    /// there is no local time to show, and no other error comes back.
    pub fn new() -> (made: Result<Clock, ClockError>)
        ensures
            made matches Ok(clock) ==> clock@.valid(),
            made matches Err(error) ==> error == ClockError::IndeterminateOffset,
    {
        Clock::from_reading(local_time_of_day())
    }

    /// The clock for a reading of the local time. A reading is the hour, the
    /// minute and the second that were read, in this order, or the error
    /// that says that the offset of the time zone could not be determined.
    pub fn from_reading(reading: Result<(u8, u8, u8), time::error::IndeterminateOffset>) -> (made:
        Result<Clock, ClockError>)
        ensures
            match reading {
                Ok(hms) => match checked_time_of_day(hms.0, hms.1, hms.2) {
                    Ok(time) => made matches Ok(clock) && clock@ == time,
                    Err(error) => made == Err::<Clock, ClockError>(error),
                },
                Err(_) => made == Err::<Clock, ClockError>(ClockError::IndeterminateOffset),
            },
    {
        match reading {
            Ok(hms) => Clock::new_test(hms.0, hms.1, hms.2),
            Err(_) => Err(ClockError::IndeterminateOffset),
        }
    }

    /// A clock that shows a given time of day, for an hour below 24 and a
    /// minute and a second below 60. Other numbers name no time of day.
    pub fn new_test(hour: u8, minute: u8, second: u8) -> (made: Result<Clock, ClockError>)
        ensures
            match checked_time_of_day(hour, minute, second) {
                Ok(time) => made matches Ok(clock) && clock@ == time,
                Err(error) => made == Err::<Clock, ClockError>(error),
            },
    {
        if hour < 24 && minute < 60 && second < 60 {
            Ok(Clock { hour, minute, second })
        } else {
            Err(ClockError::ComponentRange)
        }
    }

    /// The hour that the clock shows.
    pub fn hour(&self) -> (hour: u8)
        ensures
            hour == self@.hour,
            self@.valid(),
    {
        proof {
            use_type_invariant(self);
        }
        self.hour
    }

    /// The minute that the clock shows.
    pub fn minute(&self) -> (minute: u8)
        ensures
            minute == self@.minute,
            self@.valid(),
    {
        proof {
            use_type_invariant(self);
        }
        self.minute
    }

    /// The second that the clock shows.
    pub fn second(&self) -> (second: u8)
        ensures
            second == self@.second,
            self@.valid(),
    {
        proof {
            use_type_invariant(self);
        }
        self.second
    }

    /// The screen angle of the hour hand on a 12-hour dial, in thousandths of
    /// a degree. The hand points at the hour and does not move within it.
    pub fn hour_indicator_degree(&self) -> (degree: u32)
        ensures
            degree == self@.hour_degree(),
            degree < FULL_TURN,
    {
        let hour_12: u32 = (self.hour % 12) as u32;
        normalize_clock_indicator_degree(hour_12 * MILLI, 12)
    }

    /// The screen angle of the minute hand, in thousandths of a degree.
    pub fn minute_indicator_degree(&self) -> (degree: u32)
        ensures
            degree == self@.minute_degree(),
            degree < FULL_TURN,
    {
        proof {
            use_type_invariant(self);
        }
        normalize_clock_indicator_degree(self.minute as u32 * MILLI, 60)
    }

    /// The screen angle of the second hand, in thousandths of a degree.
    pub fn second_indicator_degree(&self) -> (degree: u32)
        ensures
            degree == self@.second_degree(),
            degree < FULL_TURN,
    {
        proof {
            use_type_invariant(self);
        }
        normalize_clock_indicator_degree(self.second as u32 * MILLI, 60)
    }

    /// Calculates the indicator end coordinates of the hour indicator on a
    /// 12-hour wall clock, for a clock face with its centre at
    /// `(x_orig, y_orig)` and hands of length `scale_factor`. A hand that
    /// points off the buffer ends there: its coordinates may be negative.
    pub fn hour_coordinates(&self, x_orig: usize, y_orig: usize, scale_factor: usize) -> (dest: (
        i128,
        i128,
    ))
        ensures
            (dest.0 as int, dest.1 as int) == self@.hour_coordinates(
                x_orig as int,
                y_orig as int,
                scale_factor as int,
            ),
    {
        calc_destination_coordinates(self.hour_indicator_degree(), x_orig, y_orig, scale_factor)
    }

    /// Calculates the indicator end coordinates of the minute indicator on a
    /// 12-hour wall clock, for a clock face with its centre at
    /// `(x_orig, y_orig)` and hands of length `scale_factor`. A hand that
    /// points off the buffer ends there: its coordinates may be negative.
    pub fn minute_coordinates(&self, x_orig: usize, y_orig: usize, scale_factor: usize) -> (dest:
        (i128, i128))
        ensures
            (dest.0 as int, dest.1 as int) == self@.minute_coordinates(
                x_orig as int,
                y_orig as int,
                scale_factor as int,
            ),
    {
        calc_destination_coordinates(self.minute_indicator_degree(), x_orig, y_orig, scale_factor)
    }

    /// Calculates the indicator end coordinates of the second indicator on a
    /// 12-hour wall clock, for a clock face with its centre at
    /// `(x_orig, y_orig)` and hands of length `scale_factor`. A hand that
    /// points off the buffer ends there: its coordinates may be negative.
    pub fn second_coordinates(&self, x_orig: usize, y_orig: usize, scale_factor: usize) -> (dest:
        (i128, i128))
        ensures
            (dest.0 as int, dest.1 as int) == self@.second_coordinates(
                x_orig as int,
                y_orig as int,
                scale_factor as int,
            ),
    {
        calc_destination_coordinates(self.second_indicator_degree(), x_orig, y_orig, scale_factor)
    }
}

/// The hands stand at whole degrees: the hour hand 30 degrees further for
/// each hour of the twelve, the minute and the second hand 6 degrees further
/// for each step, clockwise from the top.
pub proof fn lemma_hand_degrees(time: TimeOfDay)
    requires
        time.valid(),
    ensures
        time.hour_degree() == ((450 - 30 * (time.hour % 12)) % 360) * MILLI,
        time.minute_degree() == ((450 - 6 * time.minute) % 360) * MILLI,
        time.second_degree() == ((450 - 6 * time.second) % 360) * MILLI,
{
}

/// The pixel that lies `quarters` quarters of the way round the dial from
/// the top, at the distance `scale_factor` from the centre: above the centre,
/// to its right, below it and to its left.
pub open spec fn quarter_coordinates(quarters: int, x_orig: int, y_orig: int, scale_factor: int) -> (
    int,
    int,
) {
    if quarters == 0 {
        (x_orig, y_orig - scale_factor)
    } else if quarters == 1 {
        (x_orig + scale_factor, y_orig)
    } else if quarters == 2 {
        (x_orig, y_orig + scale_factor)
    } else {
        (x_orig - scale_factor, y_orig)
    }
}

/// At the four quarters of its dial a hand ends exactly its length above the
/// centre, to its right, below it and to its left: the hour hand at 12, 3, 6
/// and 9 o'clock, the minute and the second hand at 0, 15, 30 and 45.
pub proof fn lemma_hands_at_quarters(
    time: TimeOfDay,
    quarters: int,
    x_orig: int,
    y_orig: int,
    scale_factor: int,
)
    requires
        time.valid(),
        0 <= quarters < 4,
    ensures
        time.hour % 12 == 3 * quarters ==> time.hour_coordinates(x_orig, y_orig, scale_factor)
            == quarter_coordinates(quarters, x_orig, y_orig, scale_factor),
        time.minute == 15 * quarters ==> time.minute_coordinates(x_orig, y_orig, scale_factor)
            == quarter_coordinates(quarters, x_orig, y_orig, scale_factor),
        time.second == 15 * quarters ==> time.second_coordinates(x_orig, y_orig, scale_factor)
            == quarter_coordinates(quarters, x_orig, y_orig, scale_factor),
{
    lemma_hand_degrees(time);
    lemma_destination_at_quarter_turns(x_orig, y_orig, scale_factor);
}

/// A clock holds nothing but the time that it shows, and where its hands
/// point is decided by that time, the centre and the length alone: an
/// accessor that is called again on a clock that shows the same time, with
/// the same centre and length, gives the same pixel.
pub proof fn lemma_coordinates_follow_time(
    first: Clock,
    second: Clock,
    x_orig: int,
    y_orig: int,
    scale_factor: int,
)
    requires
        first@ == second@,
    ensures
        first == second,
        first@.hour_coordinates(x_orig, y_orig, scale_factor) == second@.hour_coordinates(
            x_orig,
            y_orig,
            scale_factor,
        ),
        first@.minute_coordinates(x_orig, y_orig, scale_factor) == second@.minute_coordinates(
            x_orig,
            y_orig,
            scale_factor,
        ),
        first@.second_coordinates(x_orig, y_orig, scale_factor) == second@.second_coordinates(
            x_orig,
            y_orig,
            scale_factor,
        ),
{
}

} // verus!

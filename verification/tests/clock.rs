use rust_clock::{
    calc_destination_coordinates, normalize_clock_indicator_degree, Clock, ClockError, MILLI,
};

fn clock(hour: u8, minute: u8, second: u8) -> Clock {
    Clock::new_test(hour, minute, second).unwrap()
}

#[test]
fn a_clock_shows_the_time_it_was_given() {
    let at = clock(23, 59, 58);
    assert_eq!((at.hour(), at.minute(), at.second()), (23, 59, 58));
    let midnight = clock(0, 0, 0);
    assert_eq!((midnight.hour(), midnight.minute(), midnight.second()), (0, 0, 0));
    assert_eq!(clock(7, 42, 5), clock(7, 42, 5));
    assert_ne!(clock(7, 42, 5), clock(7, 42, 6));
}

#[test]
fn no_clock_shows_a_time_out_of_range() {
    assert_eq!(Clock::new_test(24, 0, 0), Err(ClockError::ComponentRange));
    assert_eq!(Clock::new_test(0, 60, 0), Err(ClockError::ComponentRange));
    assert_eq!(Clock::new_test(0, 0, 60), Err(ClockError::ComponentRange));
    assert_eq!(Clock::new_test(255, 255, 255), Err(ClockError::ComponentRange));
    for hour in 0..=255u8 {
        for minute in [0u8, 1, 59, 60, 61, 255] {
            for second in [0u8, 59, 60, 255] {
                let made = Clock::new_test(hour, minute, second);
                assert_eq!(made.is_ok(), hour < 24 && minute < 60 && second < 60);
            }
        }
    }
}

#[test]
fn a_reading_becomes_a_clock_or_an_error() {
    assert_eq!(Clock::from_reading(Ok((1, 2, 3))), Ok(clock(1, 2, 3)));
    assert_eq!(Clock::from_reading(Ok((23, 59, 59))), Clock::new_test(23, 59, 59));
    assert_eq!(Clock::from_reading(Ok((24, 0, 0))), Err(ClockError::ComponentRange));
    assert_eq!(
        Clock::from_reading(Err(time::error::IndeterminateOffset)),
        Err(ClockError::IndeterminateOffset)
    );
}

fn second_of_day(hour: u8, minute: u8, second: u8) -> u32 {
    (hour as u32 * 60 + minute as u32) * 60 + second as u32
}

#[test]
fn a_new_clock_shows_the_local_time() {
    let before = time::OffsetDateTime::now_local();
    let made = Clock::new();
    let after = time::OffsetDateTime::now_local();
    match made {
        Ok(now) => {
            assert!(now.hour() < 24 && now.minute() < 60 && now.second() < 60);
            if let (Ok(before), Ok(after)) = (before, after) {
                if before.offset() == after.offset() {
                    let first = second_of_day(before.hour(), before.minute(), before.second());
                    let shown = second_of_day(now.hour(), now.minute(), now.second());
                    let last = second_of_day(after.hour(), after.minute(), after.second());
                    if first <= last {
                        assert!(first <= shown && shown <= last);
                    } else {
                        // Midnight fell between the two readings.
                        assert!(first <= shown || shown <= last);
                    }
                }
            }
        }
        Err(error) => assert_eq!(error, ClockError::IndeterminateOffset),
    }
}

#[test]
fn the_hands_stand_at_whole_degrees() {
    let at = clock(10, 10, 30);
    assert_eq!(at.hour_indicator_degree(), 150_000);
    assert_eq!(at.minute_indicator_degree(), 30_000);
    assert_eq!(at.second_indicator_degree(), 270_000);
    for hour in 0..24u8 {
        for step in 0..60u8 {
            let at = clock(hour, step, 59 - step);
            let hour_12 = (hour % 12) as u32;
            assert_eq!(at.hour_indicator_degree(), (450 - 30 * hour_12) % 360 * MILLI);
            assert_eq!(at.minute_indicator_degree(), (450 - 6 * step as u32) % 360 * MILLI);
            assert_eq!(at.second_indicator_degree(), (450 - 6 * (59 - step as u32)) % 360 * MILLI);
        }
    }
}

#[test]
fn the_hands_follow_the_dials() {
    for hour in 0..24u8 {
        let at = clock(hour, 0, 0);
        assert_eq!(
            at.hour_indicator_degree(),
            normalize_clock_indicator_degree((hour % 12) as u32 * MILLI, 12)
        );
    }
    for step in 0..60u8 {
        let at = clock(0, step, step);
        let degree = normalize_clock_indicator_degree(step as u32 * MILLI, 60);
        assert_eq!(at.minute_indicator_degree(), degree);
        assert_eq!(at.second_indicator_degree(), degree);
        assert_eq!(
            at.minute_coordinates(200, 200, 193),
            calc_destination_coordinates(degree, 200, 200, 193)
        );
        assert_eq!(
            at.second_coordinates(600, 200, 193),
            calc_destination_coordinates(degree, 600, 200, 193)
        );
    }
}

#[test]
fn the_tips_of_the_hands_at_given_times() {
    let at = clock(3, 15, 30);
    assert_eq!(at.hour_coordinates(200, 200, 193), (393, 200));
    assert_eq!(at.minute_coordinates(200, 200, 193), (393, 200));
    assert_eq!(at.second_coordinates(200, 200, 193), (200, 393));

    let at = clock(10, 10, 30);
    assert_eq!(at.hour_coordinates(200, 200, 193), (32, 103));
    assert_eq!(at.minute_coordinates(200, 200, 193), (367, 103));
    assert_eq!(at.second_coordinates(200, 200, 193), (200, 393));

    let at = clock(7, 42, 5);
    assert_eq!(at.hour_coordinates(200, 200, 193), (103, 367));
    assert_eq!(at.minute_coordinates(200, 200, 193), (16, 259));
    assert_eq!(at.second_coordinates(200, 200, 193), (296, 32));

    let at = clock(23, 59, 59);
    assert_eq!(at.hour_coordinates(200, 200, 193), (103, 32));
    assert_eq!(at.minute_coordinates(200, 200, 193), (179, 8));
    assert_eq!(at.second_coordinates(200, 200, 193), (179, 8));
}

#[test]
fn at_midnight_all_hands_point_straight_up() {
    let at = clock(0, 0, 0);
    assert_eq!(at.hour_coordinates(200, 200, 193), (200, 7));
    assert_eq!(at.minute_coordinates(200, 200, 193), (200, 7));
    assert_eq!(at.second_coordinates(200, 200, 193), (200, 7));
    assert_eq!(at.hour_coordinates(10, 10, 1), (10, 9));
}

#[test]
fn noon_and_midnight_look_alike() {
    for hour in 0..12u8 {
        let morning = clock(hour, 20, 40);
        let evening = clock(hour + 12, 20, 40);
        assert_eq!(morning.hour_indicator_degree(), evening.hour_indicator_degree());
        assert_eq!(
            morning.hour_coordinates(200, 200, 193),
            evening.hour_coordinates(200, 200, 193)
        );
    }
    assert_eq!(clock(12, 0, 0).hour_coordinates(200, 200, 193), (200, 7));
}

#[test]
fn the_hour_hand_jumps_from_hour_to_hour() {
    let early = clock(4, 0, 0);
    let late = clock(4, 59, 59);
    assert_eq!(early.hour_coordinates(200, 200, 193), late.hour_coordinates(200, 200, 193));
    assert_ne!(
        early.hour_coordinates(200, 200, 193),
        clock(5, 0, 0).hour_coordinates(200, 200, 193)
    );
}

#[test]
fn an_accessor_gives_the_same_pixel_each_time() {
    for (hour, minute, second) in [(0u8, 0u8, 0u8), (7, 42, 5), (12, 30, 15), (23, 59, 59)] {
        let at = clock(hour, minute, second);
        let twin = clock(hour, minute, second);
        for (x, y, radius) in [(200usize, 200usize, 193usize), (0, 0, 50), (10, 10, 1)] {
            let first = at.hour_coordinates(x, y, radius);
            assert_eq!(at.hour_coordinates(x, y, radius), first);
            assert_eq!(twin.hour_coordinates(x, y, radius), first);
            let first = at.minute_coordinates(x, y, radius);
            assert_eq!(at.minute_coordinates(x, y, radius), first);
            assert_eq!(twin.minute_coordinates(x, y, radius), first);
            let first = at.second_coordinates(x, y, radius);
            assert_eq!(at.second_coordinates(x, y, radius), first);
            assert_eq!(twin.second_coordinates(x, y, radius), first);
        }
    }
}

#[test]
fn a_hand_may_point_off_the_buffer() {
    let at = clock(9, 45, 0);
    assert_eq!(at.hour_coordinates(0, 10, 5), (-5, 10));
    assert_eq!(at.minute_coordinates(3, 3, 10), (-7, 3));
    assert_eq!(at.second_coordinates(3, 3, 10), (3, -7));
    let at = clock(10, 50, 40);
    // 150 degrees: 8.66 to the left and 5 up; 210 degrees: 5 down
    assert_eq!(at.hour_coordinates(0, 0, 10), (-8, -5));
    assert_eq!(at.minute_coordinates(0, 0, 10), (-8, -5));
    assert_eq!(at.second_coordinates(0, 0, 10), (-8, 5));
}

use rusty_hangulclock::clock::{ClockAction, ClockDisplay, MAX_TIMESTAMP_MS};
use rusty_hangulclock::global::RotaryEvent;
use rusty_hangulclock::nvs::{
    hsv_from_stored, stored_str_len, stored_u8, utc_offset_from_stored, utc_offset_setting, NvsError,
};
use rusty_hangulclock::panel::Hsv;
use rusty_hangulclock::rotary::{Direction, RotaryDebouncer};

#[test]
fn debouncer_reports_every_third_reading() {
    let mut d = RotaryDebouncer::new();
    assert_eq!(d.update(Direction::Clockwise), None);
    assert_eq!(d.update(Direction::NoTurn), None);
    assert_eq!(d.update(Direction::Clockwise), None);
    assert_eq!(d.update(Direction::Clockwise), Some(RotaryEvent::Clockwise));
    assert_eq!(d.update(Direction::Clockwise), None);
    // A change of direction starts the count again.
    assert_eq!(d.update(Direction::CounterClockwise), None);
    assert_eq!(d.update(Direction::CounterClockwise), None);
    assert_eq!(d.update(Direction::Clockwise), None);
    assert_eq!(d.update(Direction::CounterClockwise), None);
    assert_eq!(d.update(Direction::CounterClockwise), None);
    assert_eq!(d.update(Direction::CounterClockwise), Some(RotaryEvent::CounterClockwise));
}

#[test]
fn stored_values_and_their_defaults() {
    assert_eq!(stored_str_len(Ok(Some(12))), Some(12));
    assert_eq!(stored_str_len(Ok(Some(99))), Some(99));
    assert_eq!(stored_str_len(Ok(Some(100))), None);
    assert_eq!(stored_str_len(Ok(Some(0))), None);
    assert_eq!(stored_str_len(Ok(None)), None);
    assert_eq!(stored_str_len(Err(NvsError)), None);
    assert_eq!(utc_offset_setting(-12), -12);
    assert_eq!(utc_offset_setting(12), 12);
    assert_eq!(utc_offset_setting(0), 0);
    assert_eq!(utc_offset_setting(13), 9);
    assert_eq!(utc_offset_setting(-300), 9);
    assert_eq!(stored_u8(Ok(Some(7)), 1), 7);
    assert_eq!(stored_u8(Ok(None), 1), 1);
    assert_eq!(stored_u8(Err(NvsError), 1), 1);
    assert_eq!(hsv_from_stored(Ok(None), Err(NvsError), Ok(None)), Hsv { hue: 0, sat: 255, val: 255 });
    assert_eq!(hsv_from_stored(Ok(Some(10)), Ok(Some(20)), Ok(Some(30))), Hsv { hue: 10, sat: 20, val: 30 });
    assert_eq!(utc_offset_from_stored(Ok(Some(-5))), -5);
    assert_eq!(utc_offset_from_stored(Ok(None)), 9);
    assert_eq!(utc_offset_from_stored(Err(NvsError)), 0);
}

#[test]
fn clock_waits_for_sync() {
    let mut c = ClockDisplay::new();
    assert_eq!(c.step(false, 1_700_000_000_000, 9), ClockAction::RequestSync);
    // The epoch is 09:00 in Korea.
    assert_eq!(c.step(true, 0, 9), ClockAction::Show { h: 9, m: 0 });
    assert_eq!(c.step(true, 59_999, 9), ClockAction::Unchanged);
    assert_eq!(c.step(true, 60_000, 9), ClockAction::Show { h: 9, m: 1 });
}

#[test]
fn clock_shows_korean_time() {
    let mut c = ClockDisplay::new();
    // 2023-11-14 22:13:20 UTC is 07:13 the next day in Korea.
    assert_eq!(c.step(true, 1_700_000_000_000, 9), ClockAction::Show { h: 7, m: 13 });
    assert_eq!(c.step(true, 1_700_000_000_999, 9), ClockAction::Unchanged);
    // 15:00 UTC is midnight in Korea.
    assert_eq!(c.step(true, 1_699_974_000_000, 9), ClockAction::Show { h: 0, m: 0 });
    // 00:00 KST recorded as shown looks unchanged to a fresh display.
    let mut fresh = ClockDisplay::new();
    assert_eq!(fresh.step(true, 1_699_974_000_000, 9), ClockAction::Unchanged);
}

#[test]
fn clock_follows_the_utc_offset() {
    // 2023-11-14 22:13:20 UTC.
    let t = 1_700_000_000_000;
    let mut c = ClockDisplay::new();
    assert_eq!(c.step(true, t, 0), ClockAction::Show { h: 22, m: 13 });
    assert_eq!(c.step(true, t, 1), ClockAction::Show { h: 23, m: 13 });
    assert_eq!(c.step(true, t, 2), ClockAction::Show { h: 0, m: 13 });
    assert_eq!(c.step(true, t, -12), ClockAction::Show { h: 10, m: 13 });
    // UTC+12 reads 10:13 as well (the next day): nothing new to show.
    assert_eq!(c.step(true, t, 12), ClockAction::Unchanged);
    assert_eq!(c.step(true, t, 9), ClockAction::Show { h: 7, m: 13 });
    // The epoch at UTC-5 is 19:00 the day before.
    assert_eq!(c.step(true, 0, -5), ClockAction::Show { h: 19, m: 0 });
}

#[test]
fn clock_covers_all_of_chronos_range() {
    assert!(chrono::DateTime::from_timestamp_millis(MAX_TIMESTAMP_MS as i64).is_some());
    assert!(chrono::DateTime::from_timestamp_millis(MAX_TIMESTAMP_MS as i64 + 1).is_none());
    let mut c = ClockDisplay::new();
    assert_eq!(c.step(true, MAX_TIMESTAMP_MS, 0), ClockAction::Show { h: 23, m: 59 });
    assert_eq!(c.step(true, MAX_TIMESTAMP_MS, 1), ClockAction::Show { h: 0, m: 59 });
    // Unsynced rounds never read the time.
    assert_eq!(c.step(false, u128::MAX, 0), ClockAction::RequestSync);
}

#[test]
fn debouncer_reports_on_every_third_reading_of_a_streak() {
    let (cw, ccw, no) = (Direction::Clockwise, Direction::CounterClockwise, Direction::NoTurn);
    let reads = [cw, no, cw, no, no, cw, cw, cw, cw, ccw, cw, cw, cw];
    let mut d = RotaryDebouncer::new();
    let got: Vec<Option<RotaryEvent>> = reads.iter().map(|r| d.update(*r)).collect();
    let mut want = vec![None; reads.len()];
    want[5] = Some(RotaryEvent::Clockwise);
    want[8] = Some(RotaryEvent::Clockwise);
    want[12] = Some(RotaryEvent::Clockwise);
    assert_eq!(got, want);
}

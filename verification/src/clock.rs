//! The clock task: when to ask for a time sync and when to show a new time
//! on the panel.
use vstd::prelude::*;

verus! {

/// Largest offset from UTC, in whole hours, that a time zone can have here
/// (`chrono` takes offsets of less than a day).
pub const MAX_OFFSET_HOURS: i8 = 23;

/// Latest Unix time (ms) that `chrono` can represent: the last millisecond
/// of 31 December of year 262142.
pub const MAX_TIMESTAMP_MS: u128 = 8_210_266_876_799_999;

/// Seconds since local midnight at Unix time `ms` (milliseconds) for a zone
/// `offset` seconds east of UTC.
pub open spec fn local_seconds_of_day(ms: int, offset: int) -> int {
    (ms / 1000 + offset) % 86400
}

/// Local hour at Unix time `ms`.
pub open spec fn local_hour(ms: int, offset: int) -> int {
    local_seconds_of_day(ms, offset) / 3600
}

/// Local minute at Unix time `ms`.
pub open spec fn local_minute(ms: int, offset: int) -> int {
    (local_seconds_of_day(ms, offset) % 3600) / 60
}

/// Hour and minute of Unix time `ms` (milliseconds) in a zone `offset_secs`
/// east of UTC, with `chrono` (`Utc.timestamp_millis_opt`, then
/// `with_timezone` to a `FixedOffset`, then `hour` and `minute`). Claims
/// that the result, when there is one, is the time of day counted from the
/// whole seconds (rounded down), which is how `chrono` splits a timestamp
/// into days and seconds, and that there is one for every time from the
/// epoch to `MAX_TIMESTAMP_MS` (the end of `chrono`'s last year). It says
/// nothing of times before the epoch or after that.
#[verifier::external_body]
fn local_hour_minute(ms: i64, offset_secs: i32) -> (res: Option<(u8, u8)>)
    requires
        -86400 < offset_secs < 86400,
    ensures
        res matches Some((h, m)) ==> h == local_hour(ms as int, offset_secs as int) && m
            == local_minute(ms as int, offset_secs as int),
        0 <= ms <= MAX_TIMESTAMP_MS ==> res is Some,
{
    let offset = chrono::FixedOffset::east_opt(offset_secs).unwrap();
    match chrono::TimeZone::timestamp_millis_opt(&chrono::Utc, ms) {
        chrono::LocalResult::Single(dt) => {
            let local = dt.with_timezone(&offset);
            Some((chrono::Timelike::hour(&local) as u8, chrono::Timelike::minute(&local) as u8))
        },
        _ => None,
    }
}

/// What the clock task does on one round.
#[derive(Debug, Clone, Copy, PartialEq, Eq, Structural)]
pub enum ClockAction {
    /// The time is not synced yet: ask the network task for NTP and wait
    /// `SYNC_WAIT_MS`.
    RequestSync,
    /// Show this time on the panel, record it as shown, and wait `TICK_MS`.
    Show { h: u8, m: u8 },
    /// The shown time is still right: wait `TICK_MS`.
    Unchanged,
}

/// Milliseconds to wait after asking for a sync.
pub const SYNC_WAIT_MS: u64 = 10000;

/// Milliseconds between checks of the time.
pub const TICK_MS: u64 = 1000;

/// One round at Unix time `now_ms` in the zone `offset_hours` east of UTC:
/// the time shown afterwards and the action.
pub open spec fn clock_step(last: (u8, u8), synced: bool, now_ms: int, offset_hours: int) -> (
    (u8, u8),
    ClockAction,
) {
    if !synced {
        (last, ClockAction::RequestSync)
    } else {
        let h = local_hour(now_ms, offset_hours * 3600) as u8;
        let m = local_minute(now_ms, offset_hours * 3600) as u8;
        if last.0 != h || last.1 != m {
            ((h, m), ClockAction::Show { h, m })
        } else {
            (last, ClockAction::Unchanged)
        }
    }
}

/// The time last shown by the clock task.
pub struct ClockDisplay {
    last_h: u8,
    last_m: u8,
}

impl View for ClockDisplay {
    type V = (u8, u8);

    closed spec fn view(&self) -> (u8, u8) {
        (self.last_h, self.last_m)
    }
}

impl ClockDisplay {
    /// Nothing shown yet (recorded as 00:00).
    pub fn new() -> (c: Self)
        ensures
            c@ == (0u8, 0u8),
    {
        ClockDisplay { last_h: 0, last_m: 0 }
    }

    /// One round of the clock task at Unix time `now_ms` (milliseconds), for
    /// the time zone `offset_hours` east of UTC (the UTC offset set in the
    /// menu); `synced` tells whether the time has been set by NTP. The time
    /// is read only in synced rounds.
    pub fn step(&mut self, synced: bool, now_ms: u128, offset_hours: i8) -> (action: ClockAction)
        requires
            -MAX_OFFSET_HOURS <= offset_hours <= MAX_OFFSET_HOURS,
            synced ==> now_ms <= MAX_TIMESTAMP_MS,
        ensures
            (final(self)@, action) == clock_step(old(self)@, synced, now_ms as int, offset_hours as int),
    {
        if !synced {
            return ClockAction::RequestSync;
        }
        let hm = local_hour_minute(now_ms as i64, (offset_hours as i32) * 3600);
        let (h, m) = match hm {
            Some(t) => t,
            None => {
                return ClockAction::Unchanged;
            },
        };
        if self.last_h != h || self.last_m != m {
            self.last_h = h;
            self.last_m = m;
            ClockAction::Show { h, m }
        } else {
            ClockAction::Unchanged
        }
    }
}

/// Every time the clock task shows is a time of day, a second round at the
/// same moment shows nothing new, and the time shown moves with the UTC
/// offset: one hour more east of UTC shows the next hour at the same minute.
pub proof fn lemma_clock_step(last: (u8, u8), now_ms: int, offset_hours: int)
    requires
        0 <= now_ms,
        -MAX_OFFSET_HOURS <= offset_hours < MAX_OFFSET_HOURS,
    ensures
        clock_step(last, true, now_ms, offset_hours).1 matches ClockAction::Show { h, m } ==> h < 24
            && m < 60,
        clock_step(clock_step(last, true, now_ms, offset_hours).0, true, now_ms, offset_hours).1
            == ClockAction::Unchanged,
        local_hour(now_ms, (offset_hours + 1) * 3600) == (local_hour(now_ms, offset_hours * 3600)
            + 1) % 24,
        local_minute(now_ms, (offset_hours + 1) * 3600) == local_minute(now_ms, offset_hours * 3600),
{
}

} // verus!

//! The release window: which days can be seen and guessed at a given moment,
//! and the calendar of the season.
use vstd::prelude::*;
use crate::picture::Day;
use crate::user::{has_guess, User};

verus! {

/// Number of days in the season.
pub const SEASON_DAYS: u32 = 25;

/// The month of the season.
pub const SEASON_MONTH: u32 = 12;

/// Hour of the reference time zone (CET) at which the photo of the day is
/// released.
pub const RELEASE_HOUR_CET: u32 = 6;

/// A moment in UTC, as calendar fields.
#[derive(Clone, Copy, Debug, PartialEq, Eq, Structural)]
pub struct UtcDateTime {
    pub year: i32,
    pub month: u32,
    pub day: u32,
    pub hour: u32,
    pub minute: u32,
    pub second: u32,
}

impl UtcDateTime {
    pub open spec fn wf(&self) -> bool {
        &&& 1 <= self.month <= 12
        &&& 1 <= self.day <= 31
        &&& self.hour < 24
        &&& self.minute < 60
        &&& self.second < 60
    }
}

/// The hour in CET, one hour ahead of UTC.
pub open spec fn cet_hour(t: UtcDateTime) -> int {
    (t.hour + 1) % 24
}

/// The photo of `day` is out at `now`: earlier days of the season month
/// always, later days never, and the day itself from 06:00 CET on.
pub open spec fn released(dev_mode: bool, now: UtcDateTime, day: Day) -> bool {
    dev_mode || (now.month == SEASON_MONTH && (day < now.day || (day == now.day && cet_hour(now)
        >= RELEASE_HOUR_CET)))
}

/// `day` is a day of the season that has begun at `now`.
pub open spec fn day_valid(dev_mode: bool, now: UtcDateTime, day: Day) -> bool {
    dev_mode || (1 <= day <= SEASON_DAYS && now.month == SEASON_MONTH && day <= now.day)
}

/// A guess for `day` is taken at `now`.
pub open spec fn guessable(dev_mode: bool, now: UtcDateTime, day: Day) -> bool {
    day_valid(dev_mode, now, day) && released(dev_mode, now, day)
}

/// Whether it is 06:00 or later in CET at `time`.
pub fn is_time_after_6_am_cet(time: &UtcDateTime) -> (r: bool)
    requires
        time.wf(),
    ensures
        r == (cet_hour(*time) >= RELEASE_HOUR_CET),
{
    (time.hour + 1) % 24 >= RELEASE_HOUR_CET
}

/// Whether the photo of `picture_day` is out at `utc_now`.
pub fn is_picture_released(dev_mode: bool, utc_now: &UtcDateTime, picture_day: Day) -> (r: bool)
    requires
        utc_now.wf(),
    ensures
        r == released(dev_mode, *utc_now, picture_day),
{
    if dev_mode {
        return true;
    }
    if utc_now.month != SEASON_MONTH {
        return false;
    }
    if picture_day > utc_now.day {
        false
    } else if picture_day < utc_now.day {
        true
    } else {
        is_time_after_6_am_cet(utc_now)
    }
}

/// Whether `day` is a day of the season that has begun at `now`.
pub fn is_day_valid(dev_mode: bool, now: &UtcDateTime, day: Day) -> (r: bool)
    ensures
        r == day_valid(dev_mode, *now, day),
{
    if dev_mode {
        return true;
    }
    1 <= day && day <= SEASON_DAYS && now.month == SEASON_MONTH && day <= now.day
}

/// Whether a guess for `day` is taken at `now`.
pub fn is_day_guessable(dev_mode: bool, now: &UtcDateTime, day: Day) -> (r: bool)
    requires
        now.wf(),
    ensures
        r == guessable(dev_mode, *now, day),
{
    is_day_valid(dev_mode, now, day) && is_picture_released(dev_mode, now, day)
}

/// The day of the month at `now`.
pub fn get_current_day(now: &UtcDateTime) -> (r: Day)
    ensures
        r == now.day,
{
    now.day
}

/// Days left in the season after the current one; negative once it is over.
pub fn get_days_remaining(now: &UtcDateTime) -> (r: i32)
    requires
        now.wf(),
    ensures
        r == SEASON_DAYS - now.day,
{
    SEASON_DAYS as i32 - now.day as i32
}

/// Whether the season is over at `now`.
pub fn is_game_over(now: &UtcDateTime) -> (r: bool)
    requires
        now.wf(),
    ensures
        r == (now.day > SEASON_DAYS),
{
    get_days_remaining(now) < 0
}

/// One day of the season's calendar, as shown to a player.
#[derive(Clone, Copy, Debug, PartialEq, Eq, Structural)]
pub struct CalendarEntry {
    pub day: Day,
    pub released: bool,
    pub guessed: bool,
}

/// The calendar of the season at `utc_now`, for `user` where one is logged
/// in.
pub fn get_calendar_entries(dev_mode: bool, user: Option<&User>, utc_now: &UtcDateTime) -> (r: Vec<
    CalendarEntry,
>)
    requires
        utc_now.wf(),
    ensures
        r@.len() == SEASON_DAYS,
        forall|i: int|
            0 <= i < SEASON_DAYS ==> #[trigger] r@[i] == (CalendarEntry {
                day: (i + 1) as Day,
                released: released(dev_mode, *utc_now, (i + 1) as Day),
                guessed: match user {
                    Some(u) => has_guess(u.guess_data@, (i + 1) as Day),
                    None => false,
                },
            }),
{
    let mut out: Vec<CalendarEntry> = Vec::new();
    let mut day: Day = 1;
    while day <= SEASON_DAYS
        invariant
            1 <= day <= SEASON_DAYS + 1,
            utc_now.wf(),
            out@.len() == day - 1,
            forall|i: int|
                0 <= i < day - 1 ==> #[trigger] out@[i] == (CalendarEntry {
                    day: (i + 1) as Day,
                    released: released(dev_mode, *utc_now, (i + 1) as Day),
                    guessed: match user {
                        Some(u) => has_guess(u.guess_data@, (i + 1) as Day),
                        None => false,
                    },
                }),
        decreases SEASON_DAYS + 1 - day,
    {
        let guessed = match user {
            Some(u) => u.has_guessed(day),
            None => false,
        };
        out.push(
            CalendarEntry { day, released: is_picture_released(dev_mode, utc_now, day), guessed },
        );
        day = day + 1;
    }
    out
}

} // verus!

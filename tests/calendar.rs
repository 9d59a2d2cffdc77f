use advent_of_time::calendar::{
    get_calendar_entries, get_current_day, get_days_remaining, is_day_valid, is_game_over,
    is_picture_released, is_time_after_6_am_cet, UtcDateTime,
};
use advent_of_time::config::Provider;
use advent_of_time::user::{GuessData, User};

fn utc(year: i32, month: u32, day: u32, hour: u32, minute: u32, second: u32) -> UtcDateTime {
    UtcDateTime { year, month, day, hour, minute, second }
}

#[test]
fn test_time_after_6_am_cet_false() {
    // 4:45:32 UTC is 5:45:32 CET
    let utc_time = utc(2025, 12, 15, 4, 45, 32);
    assert!(!is_time_after_6_am_cet(&utc_time))
}

#[test]
fn test_time_after_6_am_cet_true() {
    // 5:01:00 UTC is 6:01:00 CET
    let utc_time = utc(2025, 12, 15, 5, 1, 0);
    assert!(is_time_after_6_am_cet(&utc_time))
}

#[test]
fn test_is_picture_released_past_late_true() {
    let utc_time = utc(2025, 12, 15, 18, 0, 0);
    let day = 10;
    assert!(is_picture_released(false, &utc_time, day))
}

#[test]
fn test_is_picture_released_past_early_true() {
    let utc_time = utc(2025, 12, 15, 3, 0, 0);
    let day = 10;
    assert!(is_picture_released(false, &utc_time, day))
}

#[test]
fn test_is_picture_released_future_late_false() {
    let utc_time = utc(2025, 12, 15, 18, 0, 0);
    let day = 20;
    assert!(!is_picture_released(false, &utc_time, day))
}

#[test]
fn test_is_picture_released_future_early_false() {
    let utc_time = utc(2025, 12, 15, 3, 0, 0);
    let day = 20;
    assert!(!is_picture_released(false, &utc_time, day))
}

#[test]
fn release_boundary_of_the_day_itself() {
    assert!(!is_picture_released(false, &utc(2025, 12, 15, 4, 59, 59), 15));
    assert!(is_picture_released(false, &utc(2025, 12, 15, 5, 0, 0), 15));
    assert!(is_picture_released(false, &utc(2025, 12, 15, 5, 1, 0), 15));
    assert!(!is_picture_released(false, &utc(2025, 12, 15, 5, 1, 0), 16));
    assert!(is_picture_released(false, &utc(2025, 12, 16, 0, 0, 0), 15));
}

#[test]
fn nothing_is_released_outside_december_but_in_dev_mode() {
    assert!(!is_picture_released(false, &utc(2025, 11, 30, 12, 0, 0), 1));
    assert!(is_picture_released(true, &utc(2025, 11, 30, 12, 0, 0), 25));
}

#[test]
fn valid_days_are_those_begun() {
    let now = utc(2025, 12, 15, 3, 0, 0);
    assert!(is_day_valid(false, &now, 1));
    assert!(is_day_valid(false, &now, 15));
    assert!(!is_day_valid(false, &now, 16));
    assert!(!is_day_valid(false, &now, 0));
    assert!(!is_day_valid(false, &utc(2025, 12, 31, 3, 0, 0), 26));
    assert!(!is_day_valid(false, &utc(2025, 1, 15, 3, 0, 0), 3));
    assert!(is_day_valid(true, &utc(2025, 1, 15, 3, 0, 0), 99));
}

#[test]
fn season_countdown() {
    assert_eq!(15, get_current_day(&utc(2025, 12, 15, 3, 0, 0)));
    assert_eq!(10, get_days_remaining(&utc(2025, 12, 15, 3, 0, 0)));
    assert_eq!(-1, get_days_remaining(&utc(2025, 12, 26, 3, 0, 0)));
    assert!(!is_game_over(&utc(2025, 12, 25, 3, 0, 0)));
    assert!(is_game_over(&utc(2025, 12, 26, 3, 0, 0)));
}

#[test]
fn calendar_shows_every_day() {
    let user = User {
        id: "1".to_string(),
        username: "shy-owl".to_string(),
        oauth_username: "owl".to_string(),
        guess_data: vec![(3, GuessData::new((10, 0), 0))],
        access_token: "t".to_string(),
        access_token_expire_at: None,
        refresh_token: None,
        oauth_provider: Provider::Discord,
        hidden: false,
    };
    let now = utc(2025, 12, 4, 4, 0, 0);
    let entries = get_calendar_entries(false, Some(&user), &now);
    assert_eq!(25, entries.len());
    assert_eq!((1..=25).collect::<Vec<u32>>(), entries.iter().map(|e| e.day).collect::<Vec<_>>());
    assert!(entries[2].guessed && !entries[1].guessed);
    assert!(entries[2].released && !entries[3].released && !entries[4].released);
    let anonymous = get_calendar_entries(false, None, &now);
    assert!(anonymous.iter().all(|e| !e.guessed));
}

use advent_of_time::picture::{Picture, PictureMetaRepository};
use advent_of_time::scoring::{compute_score, guess_order_to_bonus, time_diff_to_points, ScoreConfig};

fn config() -> ScoreConfig {
    ScoreConfig::new(200, 3, 4, 1440).unwrap()
}

fn picture(day: u32, time_taken: &str) -> Picture {
    Picture {
        id: day,
        path: format!("pictures/{day}.jpg"),
        original_date: "2024-07-14".to_string(),
        time_taken: time_taken.to_string(),
        location: None,
    }
}

#[test]
fn test_time_diff_to_points_perfect_gives_max_reward() {
    let config = config();
    assert_eq!(config.max_reward, time_diff_to_points(&config, 0))
}

#[test]
fn test_time_diff_to_points_worst_gives_nothing() {
    assert_eq!(0, time_diff_to_points(&config(), 24 * 60))
}

#[test]
fn test_time_diff_to_points_avg_gives_ok_reward() {
    assert_eq!(81, time_diff_to_points(&config(), 12 * 60))
}

#[test]
fn test_time_diff_to_points_about_section() {
    assert_eq!(178, time_diff_to_points(&config(), 75))
}

#[test]
fn points_never_grow_with_distance() {
    let cfg = config();
    let mut previous = time_diff_to_points(&cfg, 0);
    for d in 1..1500 {
        let p = time_diff_to_points(&cfg, d);
        assert!(p <= previous, "distance {d}");
        previous = p;
    }
}

#[test]
fn points_are_zero_from_the_divider_on() {
    let cfg = config();
    assert_eq!(0, time_diff_to_points(&cfg, 1440));
    assert_eq!(0, time_diff_to_points(&cfg, 1441));
    assert_eq!(0, time_diff_to_points(&cfg, u32::MAX));
    assert_eq!(1, time_diff_to_points(&cfg, 1435));
}

#[test]
fn points_round_to_nearest() {
    let cfg = config();
    assert_eq!(199, time_diff_to_points(&cfg, 1));
    assert_eq!(96, time_diff_to_points(&cfg, 600));
    assert_eq!(48, time_diff_to_points(&cfg, 1000));
}

#[test]
fn linear_curve_gives_exact_shares() {
    let cfg = ScoreConfig::new(100, 1, 1, 100).unwrap();
    assert_eq!(100, time_diff_to_points(&cfg, 0));
    assert_eq!(75, time_diff_to_points(&cfg, 25));
    assert_eq!(1, time_diff_to_points(&cfg, 99));
}

#[test]
fn config_out_of_bounds_is_refused() {
    assert!(ScoreConfig::new(10001, 3, 4, 1440).is_none());
    assert!(ScoreConfig::new(200, 0, 4, 1440).is_none());
    assert!(ScoreConfig::new(200, 3, 5, 1440).is_none());
    assert!(ScoreConfig::new(200, 3, 4, 0).is_none());
    assert!(ScoreConfig::new(200, 3, 4, 65536).is_none());
    assert!(ScoreConfig::new(10000, 4, 4, 65535).is_some());
}

#[test]
fn bonus_follows_the_order_of_guesses() {
    let cfg = config();
    let bonuses: Vec<u32> = (0..10).map(|o| guess_order_to_bonus(&cfg, o)).collect();
    assert_eq!(vec![42, 26, 16, 10, 6, 4, 2, 2, 0, 0], bonuses);
}

#[test]
fn score_compares_with_the_time_taken() {
    let cfg = config();
    let p = picture(3, "13:45");
    assert_eq!(Some(200), compute_score(&cfg, &p, (13, 45)));
    assert_eq!(Some(time_diff_to_points(&cfg, 60)), compute_score(&cfg, &p, (12, 45)));
    assert_eq!(Some(178), compute_score(&cfg, &p, (15, 0)));
    assert_eq!(Some(0), compute_score(&cfg, &picture(3, "23:59"), (0, 0)));
}

#[test]
fn score_needs_a_readable_time() {
    let cfg = config();
    assert_eq!(None, compute_score(&cfg, &picture(1, "1345"), (13, 45)));
    assert_eq!(None, compute_score(&cfg, &picture(1, "ab:45"), (13, 45)));
    assert_eq!(None, compute_score(&cfg, &picture(1, "13:"), (13, 45)));
}

#[test]
fn picture_time_parts() {
    let p = picture(7, "08:05");
    assert_eq!(Some(8), p.hours());
    assert_eq!(Some(5), p.minutes());
    assert_eq!(7, p.day());
    assert_eq!("data/pictures/7.jpg", p.get_full_path());
    let mut abs = picture(7, "08:05");
    abs.path = "/srv/x.jpg".to_string();
    assert_eq!("/srv/x.jpg", abs.get_full_path());
}

#[test]
fn picture_store_keeps_one_per_day() {
    let mut repo = PictureMetaRepository::new(vec![]);
    assert!(repo.create_picture(picture(1, "10:00")).is_ok());
    assert!(repo.create_picture(picture(2, "11:00")).is_ok());
    assert_eq!(
        Err(advent_of_time::picture::StoreError::AlreadyExists),
        repo.create_picture(picture(1, "12:00"))
    );
    assert_eq!("10:00", repo.get_picture(1).unwrap().time_taken);
    assert!(repo.update_picture(picture(1, "09:30")).is_ok());
    assert_eq!("09:30", repo.get_picture(1).unwrap().time_taken);
    assert_eq!(
        Err(advent_of_time::picture::StoreError::NotFound),
        repo.update_picture(picture(9, "09:30"))
    );
    let all = repo.get_all_pictures();
    assert_eq!(vec![2, 1], all.iter().map(|p| p.id).collect::<Vec<_>>());
    repo.delete_picture(&picture(2, ""));
    assert!(repo.get_picture(2).is_none());
    assert_eq!(1, repo.get_all_pictures().len());
}

//! What the pages of a day and of a player show: built from the player's
//! guesses and the pictures.
use vstd::prelude::*;
use crate::calendar::{UtcDateTime, SEASON_DAYS};
use crate::picture::{clone_opt_string, picture_index, Day, PictureMetaRepository};
use crate::scoring::ScoreConfig;
use crate::user::{guess_for, guess_points, two_digits, User};

verus! {

/// One day of a player's profile.
#[derive(Clone, Debug)]
pub struct UserGuessDay {
    pub day: Day,
    pub guessed: bool,
    /// The guess, `HH:MM`, or empty.
    pub time: String,
    /// The true time, once guessed.
    pub real_time: Option<String>,
    pub points: u32,
}

/// The days shown on a profile at `now`: from the first to the current one,
/// at most the last of the season.
pub open spec fn shown_days(now: UtcDateTime) -> int {
    if now.day < SEASON_DAYS {
        now.day as int
    } else {
        SEASON_DAYS as int
    }
}

/// `e` shows day `day` of `user`, whose guesses are scored against `pics`.
pub open spec fn shows_day(
    cfg: ScoreConfig,
    pics: Seq<crate::picture::Picture>,
    user: User,
    day: Day,
    e: UserGuessDay,
) -> bool {
    &&& e.day == day
    &&& match guess_for(user.guess_data@, day) {
        None => !e.guessed && e.time@.len() == 0 && e.real_time is None && e.points == 0,
        Some(g) => {
            &&& e.guessed
            &&& e.time@ == two_digits(g.hm.0) + ":"@ + two_digits(g.hm.1)
            &&& picture_index(pics, day) matches Some(i) && e.real_time matches Some(t) && t@
                == pics[i].time_taken@
            &&& guess_points(cfg, pics, day, g.hm) == Some(e.points as nat)
        },
    }
}

/// `user` has guessed `day`, and that guess cannot be scored.
pub open spec fn unscored_day(cfg: ScoreConfig, pics: Seq<crate::picture::Picture>, user: User, day: Day) -> bool {
    match guess_for(user.guess_data@, day) {
        Some(g) => guess_points(cfg, pics, day, g.hm) is None,
        None => false,
    }
}

/// The profile days of `user` at `now`; `None` where a guessed day cannot
/// be scored.
pub fn get_user_guess_days(
    cfg: &ScoreConfig,
    pictures: &PictureMetaRepository,
    user: &User,
    now: &UtcDateTime,
) -> (r: Option<Vec<UserGuessDay>>)
    requires
        cfg.wf(),
    ensures
        r matches Some(v) ==> v@.len() == shown_days(*now) && forall|i: int|
            0 <= i < v@.len() ==> shows_day(*cfg, pictures.pictures@, *user, (i + 1) as Day, #[trigger] v@[i]),
        r is None ==> exists|d: Day|
            1 <= d <= shown_days(*now) && #[trigger] unscored_day(*cfg, pictures.pictures@, *user, d),
{
    let last: Day = if now.day < SEASON_DAYS {
        now.day
    } else {
        SEASON_DAYS
    };
    let mut out: Vec<UserGuessDay> = Vec::new();
    let mut d: Day = 1;
    while d <= last
        invariant
            cfg.wf(),
            last == shown_days(*now),
            last <= SEASON_DAYS,
            1 <= d <= last + 1,
            out@.len() == d - 1,
            forall|i: int|
                0 <= i < out@.len() ==> shows_day(*cfg, pictures.pictures@, *user, (i + 1) as Day, #[trigger] out@[i]),
        decreases last + 1 - d,
    {
        let entry = match user.guess_on(d) {
            None => UserGuessDay { day: d, guessed: false, time: String::new(), real_time: None, points: 0 },
            Some(g) => {
                let picture = match pictures.get_picture(d) {
                    Some(p) => p,
                    None => {
                        assert(unscored_day(*cfg, pictures.pictures@, *user, d));
                        return None;
                    },
                };
                let points = match crate::scoring::compute_score(cfg, &picture, g.hm) {
                    Some(p) => p,
                    None => {
                        assert(unscored_day(*cfg, pictures.pictures@, *user, d));
                        return None;
                    },
                };
                UserGuessDay {
                    day: d,
                    guessed: true,
                    time: g.time(),
                    real_time: Some(picture.time_taken),
                    points,
                }
            },
        };
        out.push(entry);
        d = d + 1;
    }
    Some(out)
}

/// A guess as the page of its day shows it.
#[derive(Clone, Debug)]
pub struct GuessDataDto {
    pub time: String,
    pub points: u32,
}

/// The page of one day.
#[derive(Clone, Debug)]
pub struct DayDto {
    pub id: Day,
    pub img_src: String,
    pub img_alt: String,
    pub date_hint: String,
    pub location_hint: Option<String>,
    pub guess_data: Option<GuessDataDto>,
    /// The true time, shown once the player has guessed.
    pub real_time: Option<String>,
}

/// The page of day `day` for `user`, where one is logged in; `None` where the
/// picture of the day is missing, or the player's guess cannot be scored.
pub fn load_day_view(
    cfg: &ScoreConfig,
    pictures: &PictureMetaRepository,
    day: Day,
    user: Option<&User>,
) -> (r: Option<DayDto>)
    requires
        cfg.wf(),
    ensures
        picture_index(pictures.pictures@, day) is None ==> r is None,
        picture_index(pictures.pictures@, day) is Some && (user matches Some(u) ==> !unscored_day(
            *cfg,
            pictures.pictures@,
            *u,
            day,
        )) ==> r is Some,
        r matches Some(dto) ==> picture_index(pictures.pictures@, day) matches Some(i) && dto.id == day
            && dto.img_src@ == "/day-pic/"@ + crate::user::decimal_digits(day as nat) && dto.img_alt@
            == "Image for day "@ + crate::user::decimal_digits(day as nat) && dto.date_hint
            == pictures.pictures@[i].original_date && dto.location_hint == pictures.pictures@[i].location
            && match user {
            Some(u) => match guess_for(u.guess_data@, day) {
                Some(g) => dto.guess_data matches Some(gd) && gd.time@ == two_digits(g.hm.0) + ":"@
                    + two_digits(g.hm.1) && guess_points(*cfg, pictures.pictures@, day, g.hm) == Some(
                    gd.points as nat,
                ) && dto.real_time == Some(pictures.pictures@[i].time_taken),
                None => dto.guess_data is None && dto.real_time is None,
            },
            None => dto.guess_data is None && dto.real_time is None,
        },
{
    let picture = match pictures.get_picture(day) {
        Some(p) => p,
        None => {
            return None;
        },
    };
    let digits = crate::user::decimal_string(day as u64);
    let mut img_src = String::from_str("/day-pic/");
    img_src.append(digits.as_str());
    let mut img_alt = String::from_str("Image for day ");
    img_alt.append(digits.as_str());
    let guess = match user {
        Some(u) => u.guess_on(day),
        None => None,
    };
    let (guess_data, real_time) = match guess {
        Some(g) => {
            let points = match crate::scoring::compute_score(cfg, &picture, g.hm) {
                Some(p) => p,
                None => {
                    return None;
                },
            };
            (Some(GuessDataDto { time: g.time(), points }), Some(picture.time_taken.clone()))
        },
        None => (None, None),
    };
    Some(
        DayDto {
            id: day,
            img_src,
            img_alt,
            date_hint: picture.original_date.clone(),
            location_hint: clone_opt_string(&picture.location),
            guess_data,
            real_time,
        },
    )
}


/// The greeting of the home page: the player's generated name, or `World`.
pub fn greet_message(user: Option<&User>) -> (r: String)
    ensures
        r@ == "Hello "@ + match user {
            Some(u) => u.username@,
            None => "World"@,
        } + "!"@,
{
    let mut r = String::from_str("Hello ");
    match user {
        Some(u) => r.append(u.username.as_str()),
        None => r.append("World"),
    }
    r.append("!");
    r
}

} // verus!

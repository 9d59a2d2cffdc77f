//! Submitting a guess: validation of the day and of the `HH:MM` text, the
//! write-once rule, and the points earned.
use vstd::prelude::*;
use crate::calendar::{guessable, is_day_guessable, UtcDateTime};
use crate::picture::{Day, PictureMetaRepository};
use crate::scoring::ScoreConfig;
use crate::text::{decimal_u32, parse_u32, split_at_colon, split_once_colon};
use crate::user::{
    guess_points, guesses_wf, has_guess, lemma_guess_for_none, lemma_guess_for_push, GuessData, User, UserModel,
};

verus! {

/// Why a guess was refused.
#[derive(Clone, Copy, Debug, PartialEq, Eq, Structural)]
pub enum GuessError {
    /// The text is not a time `HH:MM` of a day.
    InvalidFormat,
    /// The player has already guessed this day.
    AlreadyGuessed,
    /// The day is not out yet, or not a day of the season.
    DayNotReleased,
    /// The photo of the day is missing, or its time cannot be read.
    MissingPicture,
}

impl GuessError {
    /// A sentence for the player.
    pub fn message(&self) -> (r: &'static str) {
        match self {
            GuessError::InvalidFormat => "guess value does not denote a valid time",
            GuessError::AlreadyGuessed => "You have already guessed this day!",
            GuessError::DayNotReleased => "this day cannot be guessed yet",
            GuessError::MissingPicture => "the picture of this day is missing",
        }
    }
}

/// A guess as a player sends it.
#[derive(Clone, Debug)]
pub struct SubmitGuessRequest {
    pub day: Day,
    pub guess: String,
}

/// The hour and minute that a guess text holds: at most five characters, an
/// hour and a minute in decimal around the first `:`, the hour at most 23 and
/// the minute at most 59.
pub open spec fn guess_value(s: Seq<char>) -> Option<(u32, u32)> {
    if s.len() > 5 {
        None
    } else {
        match split_once_colon(s) {
            Some((a, b)) => match (decimal_u32(a), decimal_u32(b)) {
                (Some(h), Some(m)) => if h <= 23 && m <= 59 {
                    Some((h, m))
                } else {
                    None
                },
                _ => None,
            },
            None => None,
        }
    }
}

/// Reads the hour and minute of a guess.
pub fn parse_guess_value(guess: &str) -> (r: Result<(u32, u32), GuessError>)
    ensures
        match guess_value(guess@) {
            Some(hm) => r == Ok::<(u32, u32), GuessError>(hm),
            None => r == Err::<(u32, u32), GuessError>(GuessError::InvalidFormat),
        },
{
    if guess.unicode_len() > 5 {
        return Err(GuessError::InvalidFormat);
    }
    let (a, b) = match split_at_colon(guess) {
        Some(parts) => parts,
        None => {
            return Err(GuessError::InvalidFormat);
        },
    };
    let hour = match parse_u32(a) {
        Some(h) => h,
        None => {
            return Err(GuessError::InvalidFormat);
        },
    };
    let minutes = match parse_u32(b) {
        Some(m) => m,
        None => {
            return Err(GuessError::InvalidFormat);
        },
    };
    if hour > 23 || minutes > 59 {
        return Err(GuessError::InvalidFormat);
    }
    Ok((hour, minutes))
}

/// What a guess `guess` for `day` by `u` at `now` comes to: the points it
/// earns, or why it is refused. The write-once rule is checked first.
pub open spec fn guess_outcome(
    cfg: ScoreConfig,
    dev_mode: bool,
    pics: Seq<crate::picture::Picture>,
    u: UserModel,
    day: Day,
    guess: Seq<char>,
    now: UtcDateTime,
) -> Result<nat, GuessError> {
    if has_guess(u.guesses, day) {
        Err(GuessError::AlreadyGuessed)
    } else if !guessable(dev_mode, now, day) {
        Err(GuessError::DayNotReleased)
    } else {
        match guess_value(guess) {
            None => Err(GuessError::InvalidFormat),
            Some(hm) => match guess_points(cfg, pics, day, hm) {
                None => Err(GuessError::MissingPicture),
                Some(p) => Ok(p),
            },
        }
    }
}

/// Points that the guess `guess` for `day` earns against the picture stored
/// for that day; `None` where it is missing or its time cannot be read.
pub fn compute_score(cfg: &ScoreConfig, pictures: &PictureMetaRepository, day: Day, guess: (u32, u32)) -> (r: Option<u32>)
    requires
        cfg.wf(),
    ensures
        match guess_points(*cfg, pictures.pictures@, day, guess) {
            Some(p) => r == Some(p as u32) && p <= cfg.max_reward,
            None => r is None,
        },
{
    match pictures.get_picture(day) {
        None => None,
        Some(p) => crate::scoring::compute_score(cfg, &p, guess),
    }
}

/// `u` once its guess `hm` for `day`, made at `taken_at`, is recorded.
pub open spec fn with_guess(u: UserModel, day: Day, hm: (u32, u32), taken_at: i64) -> UserModel {
    UserModel { guesses: u.guesses.push((day, GuessData { taken_at, hm })), ..u }
}

/// Records the guess `request` of `user` made at `now` (`now_secs` in Unix
/// seconds) and returns the points it earns; a refused guess changes nothing.
pub fn submit_guess(
    cfg: &ScoreConfig,
    dev_mode: bool,
    pictures: &PictureMetaRepository,
    user: &mut User,
    request: &SubmitGuessRequest,
    now: &UtcDateTime,
    now_secs: i64,
) -> (r: Result<u32, GuessError>)
    requires
        cfg.wf(),
        now.wf(),
    ensures
        match guess_outcome(
            *cfg,
            dev_mode,
            pictures.pictures@,
            old(user)@,
            request.day,
            request.guess@,
            *now,
        ) {
            Ok(p) => r == Ok::<u32, GuessError>(p as u32) && final(user)@ == with_guess(
                old(user)@,
                request.day,
                guess_value(request.guess@)->0,
                now_secs,
            ),
            Err(e) => r == Err::<u32, GuessError>(e) && final(user)@ == old(user)@,
        },
        guesses_wf(old(user)@.guesses) && 1 <= request.day <= 25 ==> guesses_wf(final(user)@.guesses),
{
    let day = request.day;
    if user.has_guessed(day) {
        return Err(GuessError::AlreadyGuessed);
    }
    if !is_day_guessable(dev_mode, now, day) {
        return Err(GuessError::DayNotReleased);
    }
    let hm = match parse_guess_value(request.guess.as_str()) {
        Ok(hm) => hm,
        Err(e) => {
            return Err(e);
        },
    };
    let points = match compute_score(cfg, pictures, day, hm) {
        Some(p) => p,
        None => {
            return Err(GuessError::MissingPicture);
        },
    };
    proof {
        lemma_guess_for_none(user.guess_data@, day);
    }
    user.guess_data.push((day, GuessData::new(hm, now_secs)));
    Ok(points)
}

/// Once a guess for a day is accepted, every later guess of that player for
/// that day is refused as already made, whatever its text, time or outcome
/// otherwise.
pub proof fn lemma_second_guess_rejected(
    cfg: ScoreConfig,
    dev_mode: bool,
    pics: Seq<crate::picture::Picture>,
    u: UserModel,
    day: Day,
    first: Seq<char>,
    now: UtcDateTime,
    taken_at: i64,
    second: Seq<char>,
    later: UtcDateTime,
)
    requires
        guess_outcome(cfg, dev_mode, pics, u, day, first, now) is Ok,
    ensures
        guess_outcome(
            cfg,
            dev_mode,
            pics,
            with_guess(u, day, guess_value(first)->0, taken_at),
            day,
            second,
            later,
        ) == Err::<nat, GuessError>(GuessError::AlreadyGuessed),
{
    lemma_guess_for_push(u.guesses, (day, GuessData { taken_at, hm: guess_value(first)->0 }), day);
}

} // verus!

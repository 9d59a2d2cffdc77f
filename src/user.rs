//! Players: their identity, their session tokens and their guesses, with the
//! points those guesses earn.
use vstd::prelude::*;
use crate::config::Provider;
use crate::oauth2::OAuth2Response;
use crate::picture::{picture_index, Day, Picture, PictureMetaRepository};
use crate::scoring::{compute_score, score_against, ScoreConfig};
use crate::picture::clone_opt_string;
use vstd::set_lib::{lemma_int_range, lemma_len_subset, set_int_range};

verus! {

/// Seconds by which a token is taken as expired before the provider says.
pub const EXPIRY_MARGIN_SECS: i64 = 30;

/// One guess: when it was made (Unix seconds) and the hour and minute given.
#[derive(Clone, Copy, Debug)]
pub struct GuessData {
    pub taken_at: i64,
    pub hm: (u32, u32),
}

impl GuessData {
    pub fn new(guess_hm: (u32, u32), taken_at: i64) -> (r: GuessData)
        ensures
            r == (GuessData { taken_at, hm: guess_hm }),
    {
        GuessData { taken_at, hm: guess_hm }
    }

    /// The guess written `HH:MM`, each part on at least two digits.
    pub fn time(&self) -> (r: String)
        ensures
            r@ == two_digits(self.hm.0) + ":"@ + two_digits(self.hm.1),
    {
        let mut s = two_digit_string(self.hm.0);
        proof {
            reveal_strlit(":");
        }
        s.append(":");
        let m = two_digit_string(self.hm.1);
        s.append(m.as_str());
        s
    }
}

/// Decimal digits of `n`, most significant first, without leading zeros.
pub open spec fn decimal_digits(n: nat) -> Seq<char>
    decreases n,
{
    if n < 10 {
        seq![digit_char(n)]
    } else {
        decimal_digits(n / 10).push(digit_char(n % 10))
    }
}

pub open spec fn digit_char(d: nat) -> char {
    ((d + 48) as u8) as char
}

/// `n` in decimal, padded with one zero when below ten.
pub open spec fn two_digits(n: u32) -> Seq<char> {
    if n < 10 {
        seq!['0', digit_char(n as nat)]
    } else {
        decimal_digits(n as nat)
    }
}

fn digit_str(d: u64) -> (r: &'static str)
    requires
        d < 10,
    ensures
        r@ == seq![digit_char(d as nat)],
{
    proof {
        reveal_strlit("0");
        reveal_strlit("1");
        reveal_strlit("2");
        reveal_strlit("3");
        reveal_strlit("4");
        reveal_strlit("5");
        reveal_strlit("6");
        reveal_strlit("7");
        reveal_strlit("8");
        reveal_strlit("9");
    }
    let r = if d == 0 {
        "0"
    } else if d == 1 {
        "1"
    } else if d == 2 {
        "2"
    } else if d == 3 {
        "3"
    } else if d == 4 {
        "4"
    } else if d == 5 {
        "5"
    } else if d == 6 {
        "6"
    } else if d == 7 {
        "7"
    } else if d == 8 {
        "8"
    } else {
        "9"
    };
    assert(r@ =~= seq![digit_char(d as nat)]);
    r
}

/// `n` in decimal.
pub fn decimal_string(n: u64) -> (r: String)
    ensures
        r@ == decimal_digits(n as nat),
    decreases n,
{
    if n < 10 {
        String::from_str(digit_str(n))
    } else {
        let mut s = decimal_string(n / 10);
        s.append(digit_str(n % 10));
        s
    }
}

fn two_digit_string(n: u32) -> (r: String)
    ensures
        r@ == two_digits(n),
{
    if n < 10 {
        proof {
            reveal_strlit("0");
        }
        let mut s = String::from_str("0");
        s.append(digit_str(n as u64));
        assert(s@ =~= seq!['0', digit_char(n as nat)]);
        s
    } else {
        decimal_string(n as u64)
    }
}

/// A player, keyed by the stable id that the provider gives.
#[derive(Clone, Debug)]
pub struct User {
    pub id: String,
    /// The generated display name.
    pub username: String,
    /// The name of the account at the provider.
    pub oauth_username: String,
    /// The guesses, one per day.
    pub guess_data: Vec<(Day, GuessData)>,
    pub access_token: String,
    /// When the access token stops being accepted, in Unix seconds.
    pub access_token_expire_at: Option<i64>,
    pub refresh_token: Option<String>,
    pub oauth_provider: Provider,
    pub hidden: bool,
}

/// The guesses are for days 1 to 25, at most one for each day.
pub open spec fn guesses_wf(g: Seq<(Day, GuessData)>) -> bool {
    &&& forall|i: int| 0 <= i < g.len() ==> 1 <= #[trigger] g[i].0 <= 25
    &&& forall|i: int, j: int| 0 <= i < j < g.len() ==> #[trigger] g[i].0 != #[trigger] g[j].0
}

/// The first guess of `g` for `day`.
pub open spec fn guess_for(g: Seq<(Day, GuessData)>, day: Day) -> Option<GuessData>
    decreases g.len(),
{
    if g.len() == 0 {
        None
    } else if g[0].0 == day {
        Some(g[0].1)
    } else {
        guess_for(g.drop_first(), day)
    }
}

/// Whether `g` holds a guess for `day`.
pub open spec fn has_guess(g: Seq<(Day, GuessData)>, day: Day) -> bool {
    guess_for(g, day) is Some
}

/// No guess for `day` stands in `g` where `guess_for` finds none.
pub proof fn lemma_guess_for_none(g: Seq<(Day, GuessData)>, day: Day)
    requires
        guess_for(g, day) is None,
    ensures
        forall|i: int| 0 <= i < g.len() ==> (#[trigger] g[i]).0 != day,
    decreases g.len(),
{
    if g.len() > 0 {
        lemma_guess_for_none(g.drop_first(), day);
        assert forall|i: int| 0 <= i < g.len() implies (#[trigger] g[i]).0 != day by {
            if i > 0 {
                assert(g[i] == g.drop_first()[i - 1]);
            }
        }
    }
}

/// Appending a guess for another day leaves the guess for `day` as it was.
pub proof fn lemma_guess_for_push(g: Seq<(Day, GuessData)>, e: (Day, GuessData), day: Day)
    ensures
        guess_for(g, day) is Some ==> guess_for(g.push(e), day) == guess_for(g, day),
        guess_for(g, day) is None && e.0 == day ==> guess_for(g.push(e), day) == Some(e.1),
        guess_for(g, day) is None && e.0 != day ==> guess_for(g.push(e), day) is None,
    decreases g.len(),
{
    if g.len() > 0 {
        assert(g.push(e).drop_first() =~= g.drop_first().push(e));
        assert(g.push(e)[0] == g[0]);
        lemma_guess_for_push(g.drop_first(), e, day);
    } else {
        assert(g.push(e).drop_first() =~= Seq::<(Day, GuessData)>::empty());
        assert(g.push(e)[0] == e);
        assert(guess_for(g.push(e).drop_first(), day) is None);
    }
}

/// Points for a guess of day `day`, against the picture stored for that day.
pub open spec fn guess_points(
    cfg: ScoreConfig,
    pics: Seq<Picture>,
    day: Day,
    hm: (u32, u32),
) -> Option<nat> {
    match picture_index(pics, day) {
        Some(i) => score_against(cfg, pics[i].time_taken@, hm),
        None => None,
    }
}

/// Sum of the points of all guesses, or `None` where one cannot be scored.
pub open spec fn total_points(cfg: ScoreConfig, pics: Seq<Picture>, g: Seq<
    (Day, GuessData),
>) -> Option<nat>
    decreases g.len(),
{
    if g.len() == 0 {
        Some(0)
    } else {
        match total_points(cfg, pics, g.drop_last()) {
            Some(a) => match guess_points(cfg, pics, g.last().0, g.last().1.hm) {
                Some(b) => Some(a + b),
                None => None,
            },
            None => None,
        }
    }
}

/// A player as a mathematical value.
pub struct UserModel {
    pub id: Seq<char>,
    pub username: Seq<char>,
    pub oauth_username: Seq<char>,
    pub guesses: Seq<(Day, GuessData)>,
    pub access_token: Seq<char>,
    pub access_token_expire_at: Option<i64>,
    pub refresh_token: Option<Seq<char>>,
    pub oauth_provider: Provider,
    pub hidden: bool,
}

pub open spec fn opt_view(o: Option<String>) -> Option<Seq<char>> {
    match o {
        Some(s) => Some(s@),
        None => None,
    }
}

impl View for User {
    type V = UserModel;

    open spec fn view(&self) -> UserModel {
        UserModel {
            id: self.id@,
            username: self.username@,
            oauth_username: self.oauth_username@,
            guesses: self.guess_data@,
            access_token: self.access_token@,
            access_token_expire_at: self.access_token_expire_at,
            refresh_token: opt_view(self.refresh_token),
            oauth_provider: self.oauth_provider,
            hidden: self.hidden,
        }
    }
}

/// Expiry of a token that the provider grants for `expires_in` seconds at
/// `now`, with the safety margin taken off once.
pub open spec fn expiry_after(now: i64, expires_in: u64) -> i64 {
    if now + expires_in - EXPIRY_MARGIN_SECS > i64::MAX {
        i64::MAX
    } else {
        (now + expires_in - EXPIRY_MARGIN_SECS) as i64
    }
}

/// Whether the access token of `u` is no longer accepted at `now`. A token
/// without an expiry never expires, unless a refresh token is held: then it
/// is taken as expired.
pub open spec fn token_expired(u: UserModel, now: i64) -> bool {
    match u.access_token_expire_at {
        Some(t) => t <= now,
        None => u.refresh_token is Some,
    }
}

/// `u` after the tokens of `resp` are stored at `now`: the refresh token is
/// kept where the response holds none.
pub open spec fn with_tokens(u: UserModel, resp: OAuth2Response, now: i64) -> UserModel {
    UserModel {
        access_token: resp.access_token@,
        access_token_expire_at: match resp.expires_in {
            Some(e) => Some(expiry_after(now, e)),
            None => None,
        },
        refresh_token: match resp.refresh_token {
            Some(t) => Some(t@),
            None => u.refresh_token,
        },
        ..u
    }
}

/// `u` logged out at `now`: no tokens, and expired from `now` on.
pub open spec fn logged_out(u: UserModel, now: i64) -> UserModel {
    UserModel {
        access_token: Seq::empty(),
        access_token_expire_at: Some(now),
        refresh_token: None,
        ..u
    }
}

proof fn lemma_total_step(
    cfg: ScoreConfig,
    pics: Seq<Picture>,
    g: Seq<(Day, GuessData)>,
    i: int,
    a: nat,
    b: nat,
)
    requires
        0 <= i < g.len(),
        total_points(cfg, pics, g.subrange(0, i)) == Some(a),
        guess_points(cfg, pics, g[i].0, g[i].1.hm) == Some(b),
    ensures
        total_points(cfg, pics, g.subrange(0, i + 1)) == Some(a + b),
{
    let next = g.subrange(0, i + 1);
    assert(next.drop_last() =~= g.subrange(0, i));
    assert(next.last() == g[i]);
}

proof fn lemma_total_prefix_none(cfg: ScoreConfig, pics: Seq<Picture>, g: Seq<(Day, GuessData)>, k: int)
    requires
        0 <= k <= g.len(),
        total_points(cfg, pics, g.subrange(0, k)) is None,
    ensures
        total_points(cfg, pics, g) is None,
    decreases g.len() - k,
{
    if k < g.len() {
        assert(g.subrange(0, k + 1).drop_last() =~= g.subrange(0, k));
        lemma_total_prefix_none(cfg, pics, g, k + 1);
    } else {
        assert(g.subrange(0, k) =~= g);
    }
}

proof fn lemma_guess_count(g: Seq<(Day, GuessData)>)
    requires
        guesses_wf(g),
    ensures
        g.len() <= 25,
{
    let days = g.map_values(|e: (Day, GuessData)| e.0 as int);
    assert(days.no_duplicates()) by {
        assert forall|i: int, j: int| 0 <= i < days.len() && 0 <= j < days.len() && i != j implies days[i]
            != days[j] by {
            if i < j {
                assert(g[i].0 != g[j].0);
            } else {
                assert(g[j].0 != g[i].0);
            }
        }
    }
    days.unique_seq_to_set();
    lemma_int_range(1, 26);
    assert(days.to_set().subset_of(set_int_range(1, 26))) by {
        assert forall|x: int| days.to_set().contains(x) implies set_int_range(1, 26).contains(x) by {
            let i = choose|i: int| 0 <= i < days.len() && days[i] == x;
            assert(1 <= g[i].0 <= 25);
        }
    }
    lemma_len_subset(days.to_set(), set_int_range(1, 26));
}


/// Points of the guess `hm` for day `day`.
fn entry_points(cfg: &ScoreConfig, pictures: &PictureMetaRepository, day: Day, hm: (u32, u32)) -> (r:
    Option<u32>)
    requires
        cfg.wf(),
    ensures
        match guess_points(*cfg, pictures.pictures@, day, hm) {
            Some(p) => r == Some(p as u32) && p <= cfg.max_reward,
            None => r is None,
        },
{
    match pictures.get_picture(day) {
        None => None,
        Some(p) => compute_score(cfg, &p, hm),
    }
}

fn copy_guesses(g: &Vec<(Day, GuessData)>) -> (r: Vec<(Day, GuessData)>)
    ensures
        r@ == g@,
{
    let mut out: Vec<(Day, GuessData)> = Vec::new();
    let mut i: usize = 0;
    while i < g.len()
        invariant
            i <= g@.len(),
            out@ =~= g@.subrange(0, i as int),
        decreases g@.len() - i,
    {
        out.push(g[i]);
        i = i + 1;
    }
    out
}

impl User {
    /// A copy with the same fields.
    pub fn duplicate(&self) -> (r: User)
        ensures
            r@ == self@,
    {
        let r = User {
            id: self.id.clone(),
            username: self.username.clone(),
            oauth_username: self.oauth_username.clone(),
            guess_data: copy_guesses(&self.guess_data),
            access_token: self.access_token.clone(),
            access_token_expire_at: self.access_token_expire_at,
            refresh_token: clone_opt_string(&self.refresh_token),
            oauth_provider: self.oauth_provider,
            hidden: self.hidden,
        };
        r
    }

    /// The first guess for `day`, if any.
    pub fn guess_on(&self, day: Day) -> (r: Option<GuessData>)
        ensures
            r == guess_for(self.guess_data@, day),
    {
        let g = &self.guess_data;
        let mut i: usize = 0;
        assert(g@.subrange(0, g@.len() as int) =~= g@);
        while i < g.len()
            invariant
                i <= g@.len(),
                g@ == self.guess_data@,
                guess_for(g@, day) == guess_for(g@.subrange(i as int, g@.len() as int), day),
            decreases g@.len() - i,
        {
            assert(g@.subrange(i as int, g@.len() as int).drop_first() =~= g@.subrange(
                i + 1,
                g@.len() as int,
            ));
            if g[i].0 == day {
                assert(g@.subrange(i as int, g@.len() as int)[0] == g@[i as int]);
                return Some(g[i].1);
            }
            i = i + 1;
        }
        None
    }

    pub fn has_guessed(&self, day: Day) -> (r: bool)
        ensures
            r == has_guess(self.guess_data@, day),
    {
        self.guess_on(day).is_some()
    }

    /// Whether the guesses are for days 1 to 25, at most one per day.
    pub fn has_valid_guesses(&self) -> (r: bool)
        ensures
            r == guesses_wf(self.guess_data@),
    {
        let g = &self.guess_data;
        let mut i: usize = 0;
        while i < g.len()
            invariant
                i <= g@.len(),
                g@ == self.guess_data@,
                forall|a: int| 0 <= a < i ==> 1 <= #[trigger] g@[a].0 <= 25,
                forall|a: int, b: int| 0 <= a < b < i ==> #[trigger] g@[a].0 != #[trigger] g@[b].0,
            decreases g@.len() - i,
        {
            if g[i].0 < 1 || g[i].0 > 25 {
                assert(!(1 <= g@[i as int].0 <= 25));
                assert(!guesses_wf(g@));
                return false;
            }
            let mut j: usize = 0;
            while j < i
                invariant
                    j <= i < g@.len(),
                    g@ == self.guess_data@,
                    1 <= g@[i as int].0 <= 25,
                    forall|a: int| 0 <= a < j ==> g@[a].0 != g@[i as int].0,
                    forall|a: int| 0 <= a < i ==> 1 <= #[trigger] g@[a].0 <= 25,
                    forall|a: int, b: int| 0 <= a < b < i ==> #[trigger] g@[a].0 != #[trigger] g@[b].0,
                decreases i - j,
            {
                if g[j].0 == g[i].0 {
                    assert(g@[j as int].0 == g@[i as int].0);
                    assert(!guesses_wf(g@));
                    return false;
                }
                j = j + 1;
            }
            i = i + 1;
        }
        true
    }

    /// Points of the guess for `day`: 0 without a guess, `None` where the
    /// picture of that day is missing or its time cannot be read.
    pub fn get_points(&self, cfg: &ScoreConfig, pictures: &PictureMetaRepository, day: Day) -> (r:
        Option<u32>)
        requires
            cfg.wf(),
        ensures
            match guess_for(self.guess_data@, day) {
                None => r == Some(0u32),
                Some(g) => match guess_points(*cfg, pictures.pictures@, day, g.hm) {
                    Some(p) => r == Some(p as u32),
                    None => r is None,
                },
            },
    {
        match self.guess_on(day) {
            None => Some(0),
            Some(g) => entry_points(cfg, pictures, day, g.hm),
        }
    }

    /// Sum of the points of all guesses, or `None` where one cannot be scored.
    pub fn get_total_score(&self, cfg: &ScoreConfig, pictures: &PictureMetaRepository) -> (r: Option<
        u32,
    >)
        requires
            cfg.wf(),
            guesses_wf(self.guess_data@),
        ensures
            r is None <==> total_points(*cfg, pictures.pictures@, self.guess_data@) is None,
            r matches Some(x) ==> total_points(*cfg, pictures.pictures@, self.guess_data@) == Some(
                x as nat,
            ),
    {
        let g = &self.guess_data;
        proof {
            lemma_guess_count(g@);
        }
        let mut total: u32 = 0;
        let mut i: usize = 0;
        while i < g.len()
            invariant
                cfg.wf(),
                g@ == self.guess_data@,
                i <= g@.len() <= 25,
                total_points(*cfg, pictures.pictures@, g@.subrange(0, i as int)) == Some(total as nat),
                total <= 10000 * i,
            decreases g@.len() - i,
        {
            let pts = match entry_points(cfg, pictures, g[i].0, g[i].1.hm) {
                None => {
                    proof {
                        lemma_total_prefix_none(*cfg, pictures.pictures@, g@, i + 1);
                    }
                    return None;
                },
                Some(x) => x,
            };
            proof {
                lemma_total_step(*cfg, pictures.pictures@, g@, i as int, total as nat, pts as nat);
            }
            total = total + pts;
            i = i + 1;
        }
        assert(g@.subrange(0, g@.len() as int) =~= g@);
        Some(total)
    }

    /// Stores the tokens of `resp`, received at `now`.
    pub fn set_auth(&mut self, oauth2_response: &OAuth2Response, now: i64)
        ensures
            final(self)@ == with_tokens(old(self)@, *oauth2_response, now),
    {
        self.access_token_expire_at = match oauth2_response.expires_in {
            Some(e) => {
                let t: i128 = now as i128 + e as i128 - EXPIRY_MARGIN_SECS as i128;
                if t > i64::MAX as i128 {
                    Some(i64::MAX)
                } else {
                    Some(t as i64)
                }
            },
            None => None,
        };
        self.access_token = oauth2_response.access_token.clone();
        if let Some(t) = &oauth2_response.refresh_token {
            self.refresh_token = Some(t.clone());
        }
    }

    /// Drops the tokens and marks the session expired from `now` on.
    pub fn clear_auth(&mut self, now: i64)
        ensures
            final(self)@ == logged_out(old(self)@, now),
    {
        self.access_token_expire_at = Some(now);
        self.access_token = String::new();
        self.refresh_token = None;
    }
}

} // verus!

//! The reward curve: how many points a guess earns from its distance, in
//! minutes, to the time at which the photo was taken.
use vstd::prelude::*;
use crate::picture::{hour_of, minute_of, Picture};

verus! {

/// Largest reward that a configuration may hold.
pub const MAX_REWARD_LIMIT: u32 = 10000;

/// Largest divider that a configuration may hold.
pub const MAX_DIVIDER: u32 = 65535;

/// Largest numerator or denominator of the curve's exponent.
pub const MAX_EXPONENT_PART: u32 = 4;

/// Shape of the reward curve
/// `points = round(max_reward * (1 - (d / divider) ^ (exponent_num / exponent_den)))`.
#[derive(Clone, Copy, Debug, PartialEq, Eq, Structural)]
pub struct ScoreConfig {
    pub max_reward: u32,
    pub exponent_num: u32,
    pub exponent_den: u32,
    pub divider: u32,
}

/// `b` raised to the power `e`.
pub open spec fn power(b: int, e: nat) -> int
    decreases e,
{
    if e == 0 {
        1
    } else {
        b * power(b, (e - 1) as nat)
    }
}

impl ScoreConfig {
    /// The bounds under which the curve is computed exactly in 128-bit integers.
    pub open spec fn wf(&self) -> bool {
        &&& self.max_reward <= MAX_REWARD_LIMIT
        &&& 1 <= self.exponent_num <= MAX_EXPONENT_PART
        &&& 1 <= self.exponent_den <= MAX_EXPONENT_PART
        &&& 1 <= self.divider <= MAX_DIVIDER
    }

    /// Builds a configuration, or `None` where a value lies outside the bounds
    /// of `wf`.
    pub fn new(max_reward: u32, exponent_num: u32, exponent_den: u32, divider: u32) -> (r: Option<
        ScoreConfig,
    >)
        ensures
            r is Some <==> (ScoreConfig { max_reward, exponent_num, exponent_den, divider }).wf(),
            r is Some ==> r->0 == (ScoreConfig { max_reward, exponent_num, exponent_den, divider }),
    {
        let c = ScoreConfig { max_reward, exponent_num, exponent_den, divider };
        if max_reward <= MAX_REWARD_LIMIT && 1 <= exponent_num && exponent_num <= MAX_EXPONENT_PART
            && 1 <= exponent_den && exponent_den <= MAX_EXPONENT_PART && 1 <= divider && divider
            <= MAX_DIVIDER {
            Some(c)
        } else {
            None
        }
    }
}

/// Whether `k` points are at most the exact reward plus one half, that is
/// `k <= max * (1 - (d / div) ^ (num / den)) + 1/2`, raised to integer powers:
/// `d^num * (2 max)^den <= (2 max - 2 k + 1)^den * div^num`.
pub open spec fn within_half(cfg: ScoreConfig, d: int, k: int) -> bool {
    power(d, cfg.exponent_num as nat) * power(2 * cfg.max_reward, cfg.exponent_den as nat) <= power(
        2 * cfg.max_reward - 2 * k + 1,
        cfg.exponent_den as nat,
    ) * power(cfg.divider as int, cfg.exponent_num as nat)
}

/// The largest `j <= k` that is within one half of the exact reward, or 0.
pub open spec fn largest_within(cfg: ScoreConfig, d: int, k: nat) -> nat
    decreases k,
{
    if k == 0 || within_half(cfg, d, k as int) {
        k
    } else {
        largest_within(cfg, d, (k - 1) as nat)
    }
}

/// Points for a distance of `d` minutes: the exact reward rounded to the
/// nearest integer, and 0 from the divider on.
pub open spec fn points_for(cfg: ScoreConfig, d: int) -> nat {
    if d >= cfg.divider {
        0
    } else {
        largest_within(cfg, d, cfg.max_reward as nat)
    }
}

proof fn lemma_power_bound(b: int, e: nat)
    requires
        0 <= b <= 65535,
        e <= 4,
    ensures
        0 <= power(b, e) <= power(65535, e),
        power(65535, e) <= 0xffff_ffff_ffff_ffff,
    decreases e,
{
    if e > 0 {
        lemma_power_bound(b, (e - 1) as nat);
        let p = power(b, (e - 1) as nat);
        let q = power(65535, (e - 1) as nat);
        assert(b * p <= 65535 * q) by (nonlinear_arith)
            requires
                0 <= b <= 65535,
                0 <= p <= q,
        ;
        assert(0 <= b * p) by (nonlinear_arith)
            requires
                0 <= b,
                0 <= p,
        ;
    }
    assert(power(65535, 4) == 65535 * (65535 * (65535 * (65535 * 1)))) by {
        reveal_with_fuel(power, 5);
    }
    if e < 4 {
        lemma_power_monotone_exp(e);
    }
}

proof fn lemma_power_monotone_exp(e: nat)
    requires
        e <= 4,
    ensures
        power(65535, e) <= power(65535, 4),
    decreases 4 - e,
{
    if e < 4 {
        lemma_power_monotone_exp(e + 1);
        lemma_power_nonneg(65535, e);
        assert(power(65535, e + 1) == 65535 * power(65535, e));
    }
}

proof fn lemma_power_nonneg(b: int, e: nat)
    requires
        0 <= b,
    ensures
        0 <= power(b, e),
    decreases e,
{
    if e > 0 {
        lemma_power_nonneg(b, (e - 1) as nat);
        let p = power(b, (e - 1) as nat);
        assert(0 <= b * p) by (nonlinear_arith)
            requires
                0 <= b,
                0 <= p,
        ;
    }
}

/// `b^e` for a base below 2^16 and an exponent of at most 4.
fn power_small(b: u64, e: u32) -> (r: u64)
    requires
        b <= 65535,
        e <= 4,
    ensures
        r == power(b as int, e as nat),
{
    let mut r: u64 = 1;
    let mut i: u32 = 0;
    while i < e
        invariant
            i <= e <= 4,
            b <= 65535,
            r == power(b as int, i as nat),
        decreases e - i,
    {
        proof {
            lemma_power_bound(b as int, (i + 1) as nat);
            assert(power(b as int, (i + 1) as nat) == b * r);
            assert(r * b == b * r) by (nonlinear_arith);
        }
        r = r * b;
        i = i + 1;
    }
    r
}


/// Decides `within_half` for a distance below the divider.
fn is_within_half(cfg: &ScoreConfig, d: u32, k: u32) -> (r: bool)
    requires
        cfg.wf(),
        d < cfg.divider,
        k <= cfg.max_reward,
    ensures
        r == within_half(*cfg, d as int, k as int),
{
    let m2: u64 = 2 * (cfg.max_reward as u64);
    let a = power_small(d as u64, cfg.exponent_num);
    let b = power_small(m2, cfg.exponent_den);
    let c = power_small(m2 - 2 * (k as u64) + 1, cfg.exponent_den);
    let e = power_small(cfg.divider as u64, cfg.exponent_num);
    proof {
        lemma_u64_product_fits(a as int, b as int);
        lemma_u64_product_fits(c as int, e as int);
    }
    (a as u128) * (b as u128) <= (c as u128) * (e as u128)
}

proof fn lemma_u64_product_fits(a: int, b: int)
    requires
        0 <= a <= 0xffff_ffff_ffff_ffff,
        0 <= b <= 0xffff_ffff_ffff_ffff,
    ensures
        0 <= a * b <= 0xffff_ffff_ffff_ffff_ffff_ffff_ffff_ffff,
{
    assert(0 <= a * b <= 0xffff_ffff_ffff_ffff * 0xffff_ffff_ffff_ffff) by (nonlinear_arith)
        requires
            0 <= a <= 0xffff_ffff_ffff_ffff,
            0 <= b <= 0xffff_ffff_ffff_ffff,
    ;
}

/// Points earned by a guess `diff_minutes` away from the true time.
pub fn time_diff_to_points(cfg: &ScoreConfig, diff_minutes: u32) -> (r: u32)
    requires
        cfg.wf(),
    ensures
        r == points_for(*cfg, diff_minutes as int),
        r <= cfg.max_reward,
{
    if diff_minutes >= cfg.divider {
        return 0;
    }
    let mut k = cfg.max_reward;
    while k > 0 && !is_within_half(cfg, diff_minutes, k)
        invariant
            cfg.wf(),
            diff_minutes < cfg.divider,
            k <= cfg.max_reward,
            largest_within(*cfg, diff_minutes as int, cfg.max_reward as nat) == largest_within(
                *cfg,
                diff_minutes as int,
                k as nat,
            ),
        decreases k,
    {
        k = k - 1;
    }
    k
}

proof fn lemma_largest_within_le(cfg: ScoreConfig, d: int, k: nat)
    ensures
        largest_within(cfg, d, k) <= k,
    decreases k,
{
    if k > 0 {
        lemma_largest_within_le(cfg, d, (k - 1) as nat);
    }
}

proof fn lemma_power_base_monotone(a: int, b: int, e: nat)
    requires
        0 <= a <= b,
    ensures
        power(a, e) <= power(b, e),
    decreases e,
{
    if e > 0 {
        lemma_power_base_monotone(a, b, (e - 1) as nat);
        lemma_power_nonneg(a, (e - 1) as nat);
        let p = power(a, (e - 1) as nat);
        let q = power(b, (e - 1) as nat);
        assert(a * p <= b * q) by (nonlinear_arith)
            requires
                0 <= a <= b,
                0 <= p <= q,
        ;
    }
}

proof fn lemma_within_half_closer(cfg: ScoreConfig, d1: int, d2: int, k: int)
    requires
        0 <= d1 <= d2,
        within_half(cfg, d2, k),
    ensures
        within_half(cfg, d1, k),
{
    lemma_power_base_monotone(d1, d2, cfg.exponent_num as nat);
    lemma_power_nonneg(2 * cfg.max_reward, cfg.exponent_den as nat);
    let near = power(d1, cfg.exponent_num as nat);
    let far = power(d2, cfg.exponent_num as nat);
    let m = power(2 * cfg.max_reward, cfg.exponent_den as nat);
    assert(near * m <= far * m) by (nonlinear_arith)
        requires
            near <= far,
            0 <= m,
    ;
}

proof fn lemma_largest_within_closer(cfg: ScoreConfig, d1: int, d2: int, k: nat)
    requires
        0 <= d1 <= d2,
    ensures
        largest_within(cfg, d1, k) >= largest_within(cfg, d2, k),
    decreases k,
{
    if k > 0 && !within_half(cfg, d2, k as int) {
        lemma_largest_within_closer(cfg, d1, d2, (k - 1) as nat);
        lemma_largest_within_le(cfg, d2, (k - 1) as nat);
    } else if k > 0 {
        lemma_within_half_closer(cfg, d1, d2, k as int);
    }
}

/// No distance earns more than the full reward.
pub proof fn lemma_points_at_most_max(cfg: ScoreConfig, d: int)
    ensures
        points_for(cfg, d) <= cfg.max_reward,
{
    lemma_largest_within_le(cfg, d, cfg.max_reward as nat);
}

/// A guess never earns more points than a closer guess: the reward decays
/// monotonically with the distance.
pub proof fn lemma_points_monotonic(cfg: ScoreConfig, d1: int, d2: int)
    requires
        cfg.wf(),
        0 <= d1 < d2,
    ensures
        points_for(cfg, d1) >= points_for(cfg, d2),
{
    if d2 < cfg.divider {
        lemma_largest_within_closer(cfg, d1, d2, cfg.max_reward as nat);
    }
}

/// An exact guess earns the full reward, and a guess at or beyond the divider
/// earns nothing.
pub proof fn lemma_points_extremes(cfg: ScoreConfig, d: int)
    requires
        cfg.wf(),
    ensures
        points_for(cfg, 0) == cfg.max_reward,
        d >= cfg.divider ==> points_for(cfg, d) == 0,
{
    let n = cfg.exponent_num as nat;
    assert(power(0, n) == 0 * power(0, (n - 1) as nat));
    lemma_power_nonneg(1, cfg.exponent_den as nat);
    lemma_power_nonneg(cfg.divider as int, n);
    let x = power(1, cfg.exponent_den as nat);
    let y = power(cfg.divider as int, n);
    assert(0 <= x * y) by (nonlinear_arith)
        requires
            0 <= x,
            0 <= y,
    ;
    assert(within_half(cfg, 0, cfg.max_reward as int));
}

/// Share of the full reward, in percent, that the guess of rank `order` of
/// the day earns as a bonus.
pub open spec fn bonus_percent(order: u32) -> nat {
    if order == 0 {
        21
    } else if order == 1 {
        13
    } else if order == 2 {
        8
    } else if order == 3 {
        5
    } else if order == 4 {
        3
    } else if order == 5 {
        2
    } else if order <= 7 {
        1
    } else {
        0
    }
}

/// Bonus for the guess of rank `order` (0 for the first) of the day.
pub fn guess_order_to_bonus(cfg: &ScoreConfig, order: u32) -> (r: u32)
    requires
        cfg.wf(),
    ensures
        r == cfg.max_reward * bonus_percent(order) / 100,
{
    let percent: u32 = if order == 0 {
        21
    } else if order == 1 {
        13
    } else if order == 2 {
        8
    } else if order == 3 {
        5
    } else if order == 4 {
        3
    } else if order == 5 {
        2
    } else if order <= 7 {
        1
    } else {
        0
    };
    cfg.max_reward * percent / 100
}


pub open spec fn distance(a: int, b: int) -> int {
    if a >= b {
        a - b
    } else {
        b - a
    }
}

/// Points for the guess `hm` against a true time written `HH:MM`, or `None`
/// where the true time cannot be read.
pub open spec fn score_against(cfg: ScoreConfig, time_taken: Seq<char>, hm: (u32, u32)) -> Option<
    nat,
> {
    match (hour_of(time_taken), minute_of(time_taken)) {
        (Some(h), Some(m)) => Some(points_for(cfg, distance(h * 60 + m, hm.0 * 60 + hm.1))),
        _ => None,
    }
}

/// Points for the guess `guess` (hour, minute) against the time at which
/// `picture` was taken, or `None` where that time cannot be read.
pub fn compute_score(cfg: &ScoreConfig, picture: &Picture, guess: (u32, u32)) -> (r: Option<u32>)
    requires
        cfg.wf(),
    ensures
        match score_against(*cfg, picture.time_taken@, guess) {
            Some(p) => r == Some(p as u32) && p <= cfg.max_reward,
            None => r is None,
        },
{
    let h = match picture.hours() {
        Some(h) => h,
        None => {
            return None;
        },
    };
    let m = match picture.minutes() {
        Some(m) => m,
        None => {
            return None;
        },
    };
    let truth: u64 = (h as u64) * 60 + (m as u64);
    let guessed: u64 = (guess.0 as u64) * 60 + (guess.1 as u64);
    let diff: u64 = if truth >= guessed {
        truth - guessed
    } else {
        guessed - truth
    };
    proof {
        lemma_points_at_most_max(*cfg, diff as int);
    }
    if diff >= cfg.divider as u64 {
        Some(0)
    } else {
        Some(time_diff_to_points(cfg, diff as u32))
    }
}

} // verus!

//! The leaderboard: players who are not hidden and have guessed at least
//! once, by total score, highest first; equal scores keep the order of the
//! store.
use vstd::prelude::*;
use crate::picture::PictureMetaRepository;
use crate::scoring::ScoreConfig;
use crate::user::{guesses_wf, total_points, User, UserModel};

verus! {

/// A player's place in the ranking: its index in the store and its score.
#[derive(Clone, Copy, Debug, PartialEq, Eq, Structural)]
pub struct RankedPlayer {
    pub index: usize,
    pub score: u32,
}

/// The players that the leaderboard shows.
pub open spec fn eligible(u: UserModel) -> bool {
    !u.hidden && u.guesses.len() > 0
}

/// `a` ranks above `b`: a higher score, or the same score and an earlier
/// place in the store.
pub open spec fn ranks_above(a: RankedPlayer, b: RankedPlayer) -> bool {
    a.score > b.score || (a.score == b.score && a.index < b.index)
}

pub open spec fn ranked_order(s: Seq<RankedPlayer>) -> bool {
    forall|i: int, j: int| 0 <= i < j < s.len() ==> ranks_above(#[trigger] s[i], #[trigger] s[j])
}

/// `s` ranks exactly the eligible players among the first `n` of `users`,
/// each with its total score.
pub open spec fn ranks_exactly(
    cfg: ScoreConfig,
    pics: Seq<crate::picture::Picture>,
    users: Seq<UserModel>,
    n: int,
    s: Seq<RankedPlayer>,
) -> bool {
    &&& forall|i: int|
        0 <= i < s.len() ==> {
            let p = #[trigger] s[i];
            &&& p.index < n
            &&& eligible(users[p.index as int])
            &&& total_points(cfg, pics, users[p.index as int].guesses) == Some(p.score as nat)
        }
    &&& forall|j: int|
        0 <= j < n && eligible(#[trigger] users[j]) ==> exists|i: int|
            0 <= i < s.len() && (#[trigger] s[i]).index == j
}

/// Some eligible player among the first `n` cannot be scored.
pub open spec fn unscorable(
    cfg: ScoreConfig,
    pics: Seq<crate::picture::Picture>,
    users: Seq<UserModel>,
    n: int,
) -> bool {
    exists|j: int|
        0 <= j < n && eligible(#[trigger] users[j]) && (!guesses_wf(users[j].guesses) || total_points(
            cfg,
            pics,
            users[j].guesses,
        ) is None)
}

/// No hidden player, and no player without a guess, is ever ranked.
pub proof fn lemma_ranking_excludes_hidden_and_idle(
    cfg: ScoreConfig,
    pics: Seq<crate::picture::Picture>,
    users: Seq<UserModel>,
    s: Seq<RankedPlayer>,
    i: int,
)
    requires
        ranks_exactly(cfg, pics, users, users.len() as int, s),
        0 <= i < s.len(),
    ensures
        !users[s[i].index as int].hidden,
        users[s[i].index as int].guesses.len() > 0,
{
    let p = s[i];
    assert(eligible(users[p.index as int]));
}

/// Inserts `p`, placed after every player already ranked, at its rank.
fn insert_ranked(out: &mut Vec<RankedPlayer>, p: RankedPlayer)
    requires
        ranked_order(old(out)@),
        forall|i: int| 0 <= i < old(out)@.len() ==> (#[trigger] old(out)@[i]).index < p.index,
    ensures
        ranked_order(final(out)@),
        final(out)@.len() == old(out)@.len() + 1,
        forall|x: RankedPlayer| final(out)@.contains(x) <==> (old(out)@.contains(x) || x == p),
{
    let ghost s = out@;
    let mut pos: usize = 0;
    while pos < out.len() && out[pos].score >= p.score
        invariant
            pos <= out@.len(),
            out@ == s,
            forall|k: int| 0 <= k < pos ==> (#[trigger] s[k]).score >= p.score,
        decreases out@.len() - pos,
    {
        pos = pos + 1;
    }
    out.insert(pos, p);
    let ghost t = out@;
    assert(t =~= s.insert(pos as int, p));
    assert forall|i: int, j: int| 0 <= i < j < t.len() implies ranks_above(
        #[trigger] t[i],
        #[trigger] t[j],
    ) by {
        if j < pos {
            assert(ranks_above(s[i], s[j]));
        } else if j == pos {
            assert(s[i].index < p.index);
        } else if i < pos {
            assert(ranks_above(s[i], s[j - 1]));
        } else if i == pos {
            assert(s[pos as int].score < p.score);
            if j - 1 > pos {
                assert(ranks_above(s[pos as int], s[j - 1]));
            }
        } else {
            assert(ranks_above(s[i - 1], s[j - 1]));
        }
    }
    assert forall|x: RankedPlayer| t.contains(x) <==> (s.contains(x) || x == p) by {
        if t.contains(x) {
            let k = choose|k: int| 0 <= k < t.len() && t[k] == x;
            if k < pos {
                assert(s[k] == x);
            } else if k > pos {
                assert(s[k - 1] == x);
            }
        }
        if s.contains(x) {
            let k = choose|k: int| 0 <= k < s.len() && s[k] == x;
            if k < pos {
                assert(t[k] == x);
            } else {
                assert(t[k + 1] == x);
            }
        }
        if x == p {
            assert(t[pos as int] == x);
        }
    }
}

/// Ranks the players of `users` that are not hidden and have guessed: by
/// total score, highest first, equal scores in the order of the store.
/// `None` where one of them cannot be scored.
pub fn get_ranked_players_sorted(
    cfg: &ScoreConfig,
    pictures: &PictureMetaRepository,
    users: &Vec<User>,
) -> (r: Option<Vec<RankedPlayer>>)
    requires
        cfg.wf(),
    ensures
        r is None <==> unscorable(*cfg, pictures.pictures@, users@.map_values(|u: User| u@), users@.len() as int),
        r matches Some(s) ==> ranked_order(s@) && ranks_exactly(
            *cfg,
            pictures.pictures@,
            users@.map_values(|u: User| u@),
            users@.len() as int,
            s@,
        ),
{
    let ghost m = users@.map_values(|u: User| u@);
    let mut out: Vec<RankedPlayer> = Vec::new();
    let mut i: usize = 0;
    while i < users.len()
        invariant
            cfg.wf(),
            i <= users@.len(),
            m == users@.map_values(|u: User| u@),
            ranked_order(out@),
            ranks_exactly(*cfg, pictures.pictures@, m, i as int, out@),
            !unscorable(*cfg, pictures.pictures@, m, i as int),
        decreases users@.len() - i,
    {
        let u = &users[i];
        assert(m[i as int] == u@);
        if !u.hidden && u.guess_data.len() > 0 {
            if !u.has_valid_guesses() {
                assert(unscorable(*cfg, pictures.pictures@, m, users@.len() as int));
                return None;
            }
            let score = match u.get_total_score(cfg, pictures) {
                Some(t) => t,
                None => {
                    assert(unscorable(*cfg, pictures.pictures@, m, users@.len() as int));
                    return None;
                },
            };
            let p = RankedPlayer { index: i, score };
            let ghost before = out@;
            insert_ranked(&mut out, p);
            proof {
                lemma_rank_added(*cfg, pictures.pictures@, m, i as int, before, out@, p);
            }
        } else {
            proof {
                lemma_rank_skipped(*cfg, pictures.pictures@, m, i as int, out@);
            }
        }
        proof {
            lemma_scorable_step(*cfg, pictures.pictures@, m, i as int);
        }
        i = i + 1;
    }
    Some(out)
}


/// One row of the leaderboard.
#[derive(Clone, Debug)]
pub struct LeaderboardUserEntry {
    /// 1 for the first row.
    pub rank: usize,
    pub username: String,
    pub guesses: usize,
    pub score: u32,
    /// The mean points per guess.
    pub accuracy: Option<u32>,
}

/// The rows of the leaderboard for the ranking `ranked` of `users`.
pub fn get_leaderboard_users(ranked: &Vec<RankedPlayer>, users: &Vec<User>) -> (r: Vec<
    LeaderboardUserEntry,
>)
    requires
        forall|i: int| 0 <= i < ranked@.len() ==> (#[trigger] ranked@[i]).index < users@.len(),
    ensures
        r@.len() == ranked@.len(),
        forall|i: int|
            0 <= i < r@.len() ==> {
                let e = #[trigger] r@[i];
                let u = users@[ranked@[i].index as int];
                &&& e.rank == i + 1
                &&& e.username@ == u.username@
                &&& e.guesses == u.guess_data@.len()
                &&& e.score == ranked@[i].score
                &&& e.accuracy == if e.guesses > 0 {
                    Some((e.score as int / e.guesses as int) as u32)
                } else {
                    None::<u32>
                }
            },
{
    let mut out: Vec<LeaderboardUserEntry> = Vec::new();
    let mut i: usize = 0;
    while i < ranked.len()
        invariant
            i <= ranked@.len(),
            out@.len() == i,
            forall|k: int| 0 <= k < ranked@.len() ==> (#[trigger] ranked@[k]).index < users@.len(),
            forall|k: int|
                0 <= k < i ==> {
                    let e = #[trigger] out@[k];
                    let u = users@[ranked@[k].index as int];
                    &&& e.rank == k + 1
                    &&& e.username@ == u.username@
                    &&& e.guesses == u.guess_data@.len()
                    &&& e.score == ranked@[k].score
                    &&& e.accuracy == if e.guesses > 0 {
                        Some((e.score as int / e.guesses as int) as u32)
                    } else {
                        None::<u32>
                    }
                },
        decreases ranked@.len() - i,
    {
        let p = ranked[i];
        let u = &users[p.index];
        let guesses = u.guess_data.len();
        let accuracy = if guesses > 0 {
            Some(((p.score as u64) / (guesses as u64)) as u32)
        } else {
            None
        };
        out.push(
            LeaderboardUserEntry {
                rank: i + 1,
                username: u.username.clone(),
                guesses,
                score: p.score,
                accuracy,
            },
        );
        i = i + 1;
    }
    out
}

proof fn lemma_rank_added(
    cfg: ScoreConfig,
    pics: Seq<crate::picture::Picture>,
    m: Seq<UserModel>,
    i: int,
    before: Seq<RankedPlayer>,
    after: Seq<RankedPlayer>,
    p: RankedPlayer,
)
    requires
        0 <= i < m.len(),
        ranks_exactly(cfg, pics, m, i, before),
        forall|x: RankedPlayer| after.contains(x) <==> (before.contains(x) || x == p),
        p.index == i,
        eligible(m[i]),
        total_points(cfg, pics, m[i].guesses) == Some(p.score as nat),
    ensures
        ranks_exactly(cfg, pics, m, i + 1, after),
{
    assert forall|k: int| 0 <= k < after.len() implies {
        let q = #[trigger] after[k];
        &&& q.index < i + 1
        &&& eligible(m[q.index as int])
        &&& total_points(cfg, pics, m[q.index as int].guesses) == Some(q.score as nat)
    } by {
        assert(after.contains(after[k]));
        if before.contains(after[k]) {
            let b = choose|b: int| 0 <= b < before.len() && before[b] == after[k];
            assert(before[b].index < i);
        }
    }
    assert forall|j: int| 0 <= j < i + 1 && eligible(#[trigger] m[j]) implies exists|k: int|
        0 <= k < after.len() && (#[trigger] after[k]).index == j by {
        if j < i {
            let b = choose|b: int| 0 <= b < before.len() && (#[trigger] before[b]).index == j;
            assert(before.contains(before[b]));
            assert(after.contains(before[b]));
        } else {
            assert(after.contains(p));
        }
    }
}

proof fn lemma_rank_skipped(
    cfg: ScoreConfig,
    pics: Seq<crate::picture::Picture>,
    m: Seq<UserModel>,
    i: int,
    s: Seq<RankedPlayer>,
)
    requires
        0 <= i < m.len(),
        ranks_exactly(cfg, pics, m, i, s),
        !eligible(m[i]),
    ensures
        ranks_exactly(cfg, pics, m, i + 1, s),
{
    assert forall|j: int| 0 <= j < i + 1 && eligible(#[trigger] m[j]) implies exists|k: int|
        0 <= k < s.len() && (#[trigger] s[k]).index == j by {
        if j == i {
            assert(!eligible(m[j]));
        }
    }
}

proof fn lemma_scorable_step(
    cfg: ScoreConfig,
    pics: Seq<crate::picture::Picture>,
    m: Seq<UserModel>,
    i: int,
)
    requires
        0 <= i < m.len(),
        !unscorable(cfg, pics, m, i),
        eligible(m[i]) ==> guesses_wf(m[i].guesses) && total_points(cfg, pics, m[i].guesses) is Some,
    ensures
        !unscorable(cfg, pics, m, i + 1),
{
    if unscorable(cfg, pics, m, i + 1) {
        let j = choose|j: int|
            0 <= j < i + 1 && eligible(#[trigger] m[j]) && (!guesses_wf(m[j].guesses) || total_points(
                cfg,
                pics,
                m[j].guesses,
            ) is None);
        if j < i {
            assert(unscorable(cfg, pics, m, i));
        }
    }
}


} // verus!

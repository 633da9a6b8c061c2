use vstd::prelude::*;
use vstd::relations::{sorted_by, total_ordering};

use crate::models::VoiceTime;

verus! {

broadcast use vstd::seq_lib::group_to_multiset_ensures;

/// `a` stands at or above `b` on the leaderboard: more time first, ties
/// broken by the smaller user id (and, for rows of different guilds, by the
/// smaller guild id, which makes the order total).
pub open spec fn ranks_no_lower(a: VoiceTime, b: VoiceTime) -> bool {
    a.time > b.time || (a.time == b.time && (a.user_id < b.user_id || (a.user_id == b.user_id
        && a.guild_id <= b.guild_id)))
}

pub open spec fn rank_order() -> spec_fn(VoiceTime, VoiceTime) -> bool {
    |a: VoiceTime, b: VoiceTime| ranks_no_lower(a, b)
}

pub open spec fn of_guild(guild_id: i64) -> spec_fn(VoiceTime) -> bool {
    |v: VoiceTime| v.guild_id == guild_id
}

/// All of a guild's rows, best first.
pub open spec fn ranking(records: Seq<VoiceTime>, guild_id: i64) -> Seq<VoiceTime> {
    records.filter(of_guild(guild_id)).sort_by(rank_order())
}

/// The first `limit` rows of a guild's ranking, or all of them if fewer.
pub open spec fn top_of(records: Seq<VoiceTime>, guild_id: i64, limit: usize) -> Seq<VoiceTime> {
    let full = ranking(records, guild_id);
    if limit < full.len() {
        full.take(limit as int)
    } else {
        full
    }
}

/// The leaderboard order is a total order.
pub proof fn rank_order_is_total()
    ensures
        total_ordering(rank_order()),
{
}

fn ranks_before(a: &VoiceTime, b: &VoiceTime) -> (r: bool)
    ensures
        r == ranks_no_lower(*a, *b),
{
    a.time > b.time || (a.time == b.time && (a.user_id < b.user_id || (a.user_id == b.user_id
        && a.guild_id <= b.guild_id)))
}

/// Inserts `x` into the sorted `sorted` ahead of the first row it ranks at or
/// above.
fn insert_ranked(sorted: &mut Vec<VoiceTime>, x: VoiceTime)
    requires
        sorted_by(old(sorted)@, rank_order()),
    ensures
        sorted_by(final(sorted)@, rank_order()),
        final(sorted)@.to_multiset() == old(sorted)@.to_multiset().insert(x),
{
    let mut p: usize = 0;
    while p < sorted.len() && !ranks_before(&x, &sorted[p])
        invariant
            0 <= p <= sorted.len(),
            forall|q: int| 0 <= q < p ==> ranks_no_lower(#[trigger] sorted[q], x),
        decreases sorted.len() - p,
    {
        p = p + 1;
    }
    let ghost s = sorted@;
    sorted.insert(p, x);
    proof {
        let n = sorted@;
        assert(n == s.insert(p as int, x));
        assert forall|i: int, j: int| 0 <= i < j < n.len() implies #[trigger] rank_order()(n[i], n[j]) by {
            if j < p {
                assert(n[i] == s[i] && n[j] == s[j]);
                assert(rank_order()(s[i], s[j]));
            } else if j == p {
                assert(n[i] == s[i]);
            } else if i == p {
                assert(n[j] == s[j - 1]);
                assert(ranks_no_lower(x, s[p as int]));
                if j - 1 > p {
                    assert(rank_order()(s[p as int], s[j - 1]));
                }
            } else if i < p {
                assert(n[i] == s[i] && n[j] == s[j - 1]);
                assert(rank_order()(s[i], s[j - 1]));
            } else {
                assert(n[i] == s[i - 1] && n[j] == s[j - 1]);
                assert(rank_order()(s[i - 1], s[j - 1]));
            }
        }
    }
}

/// The leaderboard of a guild: its rows among `records`, by time spent in
/// voice channels from most to least, ties broken by ascending user id, cut
/// to the first `limit`.
pub fn top_voice_times(records: &Vec<VoiceTime>, guild_id: i64, limit: usize) -> (r: Vec<VoiceTime>)
    ensures
        r@ == top_of(records@, guild_id, limit),
{
    let mut sorted: Vec<VoiceTime> = Vec::new();
    let mut i: usize = 0;
    while i < records.len()
        invariant
            0 <= i <= records.len(),
            sorted_by(sorted@, rank_order()),
            sorted@.to_multiset() == records@.take(i as int).filter(of_guild(guild_id)).to_multiset(),
        decreases records.len() - i,
    {
        let x = records[i];
        proof {
            assert(records@.take(i + 1) == records@.take(i as int).push(x));
            records@.take(i as int).lemma_filter_push(x, of_guild(guild_id));
        }
        if x.guild_id == guild_id {
            insert_ranked(&mut sorted, x);
            proof {
                let f = records@.take(i as int).filter(of_guild(guild_id));
                assert(f.push(x).to_multiset() == f.to_multiset().insert(x)) by {
                    assert(f.push(x) == f.insert(f.len() as int, x));
                }
            }
        }
        i = i + 1;
    }
    proof {
        assert(records@.take(records.len() as int) == records@);
        let f = records@.filter(of_guild(guild_id));
        rank_order_is_total();
        f.lemma_sort_by_ensures(rank_order());
        vstd::seq_lib::lemma_sorted_unique(sorted@, ranking(records@, guild_id), rank_order());
    }
    sorted.truncate(limit);
    sorted
}

/// How many of the best rows are shown as headings, the first largest.
pub const PODIUM_SIZE: usize = 3;

/// One rendered row of the leaderboard, as plain values.
#[derive(Clone, Copy, Debug, PartialEq, Eq, Structural)]
pub struct PodiumLine {
    /// position on the board, from 1
    pub rank: usize,
    /// whether the row is among the best few, shown as a heading of level `rank`
    pub on_podium: bool,
    pub user_id: i64,
    /// whole hours of the accumulated time
    pub hours: i64,
    /// whole minutes of the accumulated time
    pub minutes: i64,
}

/// Division that rounds toward zero, as integer division does at run time.
pub open spec fn div_toward_zero(a: int, d: int) -> int {
    if a >= 0 {
        a / d
    } else {
        -((-a) / d)
    }
}

pub open spec fn podium_line(v: VoiceTime, i: int) -> PodiumLine {
    PodiumLine {
        rank: (i + 1) as usize,
        on_podium: i < PODIUM_SIZE,
        user_id: v.user_id,
        hours: div_toward_zero(v.time as int, 3600) as i64,
        minutes: div_toward_zero(v.time as int, 60) as i64,
    }
}

/// The rows of a leaderboard whose entries stand in rank order.
pub fn podium_lines(entries: &Vec<VoiceTime>) -> (r: Vec<PodiumLine>)
    ensures
        r.len() == entries.len(),
        forall|i: int| 0 <= i < entries.len() ==> r[i] == podium_line(#[trigger] entries[i], i),
{
    let mut r: Vec<PodiumLine> = Vec::new();
    let mut i: usize = 0;
    while i < entries.len()
        invariant
            0 <= i <= entries.len(),
            r.len() == i,
            forall|j: int| 0 <= j < i ==> r[j] == podium_line(#[trigger] entries[j], j),
        decreases entries.len() - i,
    {
        let v = entries[i];
        r.push(PodiumLine {
            rank: i + 1,
            on_podium: i < PODIUM_SIZE,
            user_id: v.user_id,
            hours: v.time / 3600,
            minutes: v.time / 60,
        });
        i = i + 1;
    }
    r
}

} // verus!

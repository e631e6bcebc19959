use vstd::prelude::*;
use vstd::pervasive::VecAdditionalExecFns;
use crate::records::{
    views_of, DailyEntry, DailyStats, DerivedSession, DerivedStatistics, SessionView, StatsView,
};

verus! {

/// Addition capped at what an i64 can hold; the totals never wrap.
pub open spec fn sat_add_i64(a: int, d: int) -> int {
    if a + d > i64::MAX {
        i64::MAX as int
    } else {
        a + d
    }
}

/// The plain, uncapped sum of the sessions' durations.
pub open spec fn spec_sum(s: Seq<SessionView>) -> int
    decreases s.len(),
{
    if s.len() == 0 {
        0
    } else {
        spec_sum(s.drop_last()) + s.last().duration
    }
}

/// The total the aggregator accumulates: the durations summed with the i64
/// cap applied at every step.
pub open spec fn spec_total(s: Seq<SessionView>) -> int
    decreases s.len(),
{
    if s.len() == 0 {
        0
    } else {
        sat_add_i64(spec_total(s.drop_last()), s.last().duration)
    }
}

/// The greatest end timestamp over the sessions; zero only for no sessions.
pub open spec fn spec_last_played(s: Seq<SessionView>) -> int
    decreases s.len(),
{
    if s.len() == 0 {
        0
    } else if s.len() == 1 {
        s.last().end_time
    } else if s.last().end_time > spec_last_played(s.drop_last()) {
        s.last().end_time
    } else {
        spec_last_played(s.drop_last())
    }
}

/// Add `minutes` to the total of `date` in an association list of per-date
/// totals: an existing date grows its total (capped), a new date is appended.
pub open spec fn spec_upsert(
    entries: Seq<(Seq<char>, int)>,
    date: Seq<char>,
    minutes: int,
) -> Seq<(Seq<char>, int)>
    decreases entries.len(),
{
    if entries.len() == 0 {
        seq![(date, minutes)]
    } else if entries[0].0 == date {
        seq![(entries[0].0, sat_add_i64(entries[0].1, minutes))] + entries.skip(1)
    } else {
        seq![entries[0]] + spec_upsert(entries.skip(1), date, minutes)
    }
}

/// The per-date totals of a sequence of sessions, keyed by date bucket in
/// order of first appearance.
pub open spec fn spec_daily(s: Seq<SessionView>) -> Seq<(Seq<char>, int)>
    decreases s.len(),
{
    if s.len() == 0 {
        Seq::empty()
    } else {
        spec_upsert(spec_daily(s.drop_last()), s.last().date, s.last().duration)
    }
}

/// The total recorded for `date`; zero when the date never appears.
pub open spec fn daily_lookup(entries: Seq<(Seq<char>, int)>, date: Seq<char>) -> int
    decreases entries.len(),
{
    if entries.len() == 0 {
        0
    } else if entries[0].0 == date {
        entries[0].1
    } else {
        daily_lookup(entries.skip(1), date)
    }
}

/// What aggregating a game's sessions yields: nothing for no sessions,
/// otherwise the capped duration total, the session count, the greatest end
/// timestamp, and the per-date totals.
pub open spec fn spec_aggregate(game_id: int, s: Seq<SessionView>) -> Option<StatsView> {
    if s.len() == 0 {
        None
    } else {
        Some(
            StatsView {
                game_id: game_id,
                total_time: spec_total(s),
                session_count: s.len() as int,
                last_played: spec_last_played(s),
                daily: spec_daily(s),
            },
        )
    }
}

proof fn lemma_upsert_found(entries: Seq<(Seq<char>, int)>, date: Seq<char>, minutes: int, i: int)
    requires
        0 <= i < entries.len(),
        entries[i].0 == date,
        forall|j: int| 0 <= j < i ==> (#[trigger] entries[j]).0 != date,
    ensures
        spec_upsert(entries, date, minutes) == entries.update(
            i,
            (entries[i].0, sat_add_i64(entries[i].1, minutes)),
        ),
    decreases i,
{
    if i == 0 {
        assert(spec_upsert(entries, date, minutes) =~= entries.update(
            0,
            (entries[0].0, sat_add_i64(entries[0].1, minutes)),
        ));
    } else {
        assert(entries[0].0 != date);
        let tail = entries.skip(1);
        assert(tail[i - 1] == entries[i]);
        assert(forall|j: int| 0 <= j < i - 1 ==> (#[trigger] tail[j]) == entries[j + 1]);
        lemma_upsert_found(tail, date, minutes, i - 1);
        assert(seq![entries[0]] + tail.update(
            i - 1,
            (entries[i].0, sat_add_i64(entries[i].1, minutes)),
        ) =~= entries.update(i, (entries[i].0, sat_add_i64(entries[i].1, minutes))));
    }
}

proof fn lemma_upsert_absent(entries: Seq<(Seq<char>, int)>, date: Seq<char>, minutes: int)
    requires
        forall|j: int| 0 <= j < entries.len() ==> (#[trigger] entries[j]).0 != date,
    ensures
        spec_upsert(entries, date, minutes) == entries.push((date, minutes)),
    decreases entries.len(),
{
    if entries.len() == 0 {
        assert(spec_upsert(entries, date, minutes) =~= entries.push((date, minutes)));
    } else {
        let tail = entries.skip(1);
        assert(forall|j: int| 0 <= j < tail.len() ==> (#[trigger] tail[j]) == entries[j + 1]);
        lemma_upsert_absent(tail, date, minutes);
        assert(seq![entries[0]] + tail.push((date, minutes)) =~= entries.push((date, minutes)));
    }
}

impl DailyStats {
    /// No dates yet.
    pub fn new() -> (r: DailyStats)
        ensures
            r@ == Seq::<(Seq<char>, int)>::empty(),
    {
        let r = DailyStats { entries: Vec::new() };
        proof {
            assert(r@ =~= Seq::<(Seq<char>, int)>::empty());
        }
        r
    }

    /// Fold `minutes` into the total of `date`.
    pub fn add(&mut self, date: &String, minutes: i64)
        requires
            minutes >= 0,
        ensures
            final(self)@ == spec_upsert(old(self)@, date@, minutes as int),
    {
        let n = self.entries.len();
        let mut i: usize = 0;
        while i < n
            invariant
                i <= n,
                n == self.entries.len(),
                *self == *old(self),
                minutes >= 0,
                forall|j: int| 0 <= j < i ==> (#[trigger] old(self)@[j]).0 != date@,
            decreases n - i,
        {
            let found: bool = self.entries[i].date == *date;
            if found {
                let cur: i64 = self.entries[i].playtime;
                let grown: i64 = if cur > i64::MAX - minutes {
                    i64::MAX
                } else {
                    cur + minutes
                };
                self.entries.set(i, DailyEntry { date: date.clone(), playtime: grown });
                proof {
                    lemma_upsert_found(old(self)@, date@, minutes as int, i as int);
                    assert(self@ =~= old(self)@.update(
                        i as int,
                        (old(self)@[i as int].0, sat_add_i64(old(self)@[i as int].1, minutes as int)),
                    ));
                }
                return ;
            }
            i = i + 1;
        }
        self.entries.push(DailyEntry { date: date.clone(), playtime: minutes });
        proof {
            lemma_upsert_absent(old(self)@, date@, minutes as int);
            assert(self@ =~= old(self)@.push((date@, minutes as int)));
        }
    }
}

/// Fold one game's sessions into its statistics record, or into nothing when
/// the game derived no session: the total time is the durations' sum (capped
/// at what an i64 holds), the count is the number of sessions, the last
/// played timestamp is the greatest end timestamp, and the daily totals sum
/// the durations per date bucket. The fold never fails and never wraps.
pub fn aggregate_sessions(game_id: i32, sessions: &Vec<DerivedSession>) -> (r: Option<
    DerivedStatistics,
>)
    requires
        forall|k: int|
            0 <= k < sessions@.len() ==> (#[trigger] sessions@[k]).duration >= 1,
    ensures
        (r is Some) == (sessions@.len() > 0),
        r matches Some(st) ==> Some(st@) == spec_aggregate(game_id as int, views_of(sessions@)),
{
    let n = sessions.len();
    if n == 0 {
        return None;
    }
    let mut total: i64 = 0;
    let mut last: i64 = 0;
    let mut daily = DailyStats::new();
    let mut i: usize = 0;
    while i < n
        invariant
            i <= n,
            n == sessions@.len(),
            forall|k: int|
                0 <= k < sessions@.len() ==> (#[trigger] sessions@[k]).duration >= 1,
            total >= 0,
            total as int == spec_total(views_of(sessions@.subrange(0, i as int))),
            i > 0 ==> last as int == spec_last_played(views_of(sessions@.subrange(0, i as int))),
            daily@ == spec_daily(views_of(sessions@.subrange(0, i as int))),
        decreases n - i,
    {
        let ghost pre = views_of(sessions@.subrange(0, i as int));
        let ghost post = views_of(sessions@.subrange(0, i as int + 1));
        proof {
            assert(post.drop_last() =~= pre);
            assert(post.last() == sessions@[i as int]@);
        }
        let d: i64 = sessions[i].duration;
        let end: i64 = sessions[i].end_time;
        let grown: i64 = if total > i64::MAX - d {
            i64::MAX
        } else {
            total + d
        };
        total = grown;
        if i == 0 || end > last {
            last = end;
        }
        daily.add(&sessions[i].date, d);
        i = i + 1;
    }
    proof {
        assert(sessions@.subrange(0, n as int) =~= sessions@);
    }
    Some(
        DerivedStatistics {
            game_id,
            total_time: total,
            session_count: n,
            last_played: last,
            daily_stats: daily,
        },
    )
}

/// While a game's durations sum to what an i64 can hold, the capped total is
/// that sum exactly: the statistics record counts every session and misses no
/// minute.
pub proof fn lemma_total_time_exact(s: Seq<SessionView>)
    requires
        forall|i: int| 0 <= i < s.len() ==> (#[trigger] s[i]).duration >= 0,
        spec_sum(s) <= i64::MAX,
    ensures
        spec_total(s) == spec_sum(s),
    decreases s.len(),
{
    if s.len() > 0 {
        let pre = s.drop_last();
        assert(forall|i: int| 0 <= i < pre.len() ==> (#[trigger] pre[i]) == s[i]);
        lemma_sum_nonneg(pre);
        lemma_total_time_exact(pre);
    }
}

/// Sessions with nonnegative durations sum to a nonnegative total.
pub proof fn lemma_sum_nonneg(s: Seq<SessionView>)
    requires
        forall|i: int| 0 <= i < s.len() ==> (#[trigger] s[i]).duration >= 0,
    ensures
        spec_sum(s) >= 0,
    decreases s.len(),
{
    if s.len() > 0 {
        let pre = s.drop_last();
        assert(forall|i: int| 0 <= i < pre.len() ==> (#[trigger] pre[i]) == s[i]);
        lemma_sum_nonneg(pre);
    }
}

/// The sessions of `s` whose date bucket is `date`, in order.
pub open spec fn sessions_on(s: Seq<SessionView>, date: Seq<char>) -> Seq<SessionView> {
    s.filter(|x: SessionView| x.date == date)
}

proof fn lemma_upsert_lookup(
    entries: Seq<(Seq<char>, int)>,
    key: Seq<char>,
    minutes: int,
    date: Seq<char>,
)
    requires
        0 <= minutes <= i64::MAX,
    ensures
        daily_lookup(spec_upsert(entries, key, minutes), date) == if date == key {
            sat_add_i64(daily_lookup(entries, key), minutes)
        } else {
            daily_lookup(entries, date)
        },
    decreases entries.len(),
{
    let res = spec_upsert(entries, key, minutes);
    reveal_with_fuel(daily_lookup, 3);
    if entries.len() == 0 {
        assert(res =~= seq![(key, minutes)]);
        assert(res[0] == (key, minutes));
        assert(res.skip(1) =~= Seq::<(Seq<char>, int)>::empty());
        if date == key {
            assert(daily_lookup(res, date) == minutes);
            assert(sat_add_i64(daily_lookup(entries, key), minutes) == minutes);
        } else {
            assert(daily_lookup(res, date) == 0);
        }
    } else if entries[0].0 == key {
        assert(res[0] == (entries[0].0, sat_add_i64(entries[0].1, minutes)));
        assert(res.skip(1) =~= entries.skip(1));
        if date == key {
            assert(daily_lookup(res, date) == sat_add_i64(entries[0].1, minutes));
            assert(daily_lookup(entries, key) == entries[0].1);
        } else {
            assert(daily_lookup(res, date) == daily_lookup(entries.skip(1), date));
            assert(daily_lookup(entries, date) == daily_lookup(entries.skip(1), date));
        }
    } else {
        assert(res[0] == entries[0]);
        assert(res.skip(1) =~= spec_upsert(entries.skip(1), key, minutes));
        lemma_upsert_lookup(entries.skip(1), key, minutes, date);
        if date == entries[0].0 {
            assert(daily_lookup(res, date) == entries[0].1);
            assert(daily_lookup(entries, date) == entries[0].1);
        } else {
            assert(daily_lookup(res, date) == daily_lookup(res.skip(1), date));
            assert(daily_lookup(entries, date) == daily_lookup(entries.skip(1), date));
        }
    }
}

proof fn lemma_filtered_sum_le(s: Seq<SessionView>, date: Seq<char>)
    requires
        forall|i: int| 0 <= i < s.len() ==> (#[trigger] s[i]).duration >= 0,
    ensures
        0 <= spec_sum(sessions_on(s, date)) <= spec_sum(s),
    decreases s.len(),
{
    reveal(Seq::filter);
    if s.len() == 0 {
        assert(sessions_on(s, date) =~= Seq::<SessionView>::empty());
    } else {
        let pre = s.drop_last();
        assert(forall|i: int| 0 <= i < pre.len() ==> (#[trigger] pre[i]) == s[i]);
        lemma_filtered_sum_le(pre, date);
        if s.last().date == date {
            assert(sessions_on(s, date) =~= sessions_on(pre, date).push(s.last()));
            assert(sessions_on(pre, date).push(s.last()).drop_last() =~= sessions_on(pre, date));
        } else {
            assert(sessions_on(s, date) =~= sessions_on(pre, date));
        }
    }
}

/// Sessions sharing a date bucket accumulate: while a game's durations sum to
/// what an i64 can hold, the daily total recorded for any date is exactly the
/// sum of the durations of the sessions whose bucket it is — and zero for a
/// date no session starts on.
pub proof fn lemma_daily_sums(s: Seq<SessionView>, date: Seq<char>)
    requires
        forall|i: int| 0 <= i < s.len() ==> (#[trigger] s[i]).duration >= 0,
        spec_sum(s) <= i64::MAX,
    ensures
        daily_lookup(spec_daily(s), date) == spec_sum(sessions_on(s, date)),
    decreases s.len(),
{
    reveal(Seq::filter);
    if s.len() == 0 {
        assert(sessions_on(s, date) =~= Seq::<SessionView>::empty());
    } else {
        let pre = s.drop_last();
        let x = s.last();
        assert(forall|i: int| 0 <= i < pre.len() ==> (#[trigger] pre[i]) == s[i]);
        lemma_sum_nonneg(pre);
        lemma_daily_sums(pre, date);
        lemma_daily_sums(pre, x.date);
        lemma_filtered_sum_le(pre, date);
        lemma_filtered_sum_le(pre, x.date);
        lemma_upsert_lookup(spec_daily(pre), x.date, x.duration, date);
        if x.date == date {
            assert(sessions_on(s, date) =~= sessions_on(pre, date).push(x));
            assert(sessions_on(pre, date).push(x).drop_last() =~= sessions_on(pre, date));
        } else {
            assert(sessions_on(s, date) =~= sessions_on(pre, date));
        }
    }
}

/// The last-played timestamp of a game with sessions is the greatest end
/// timestamp over them — never a start timestamp, and independent of the
/// order the sessions arrived in: no end exceeds it, and some session ends
/// exactly there.
pub proof fn lemma_last_played_is_max(s: Seq<SessionView>)
    requires
        s.len() > 0,
    ensures
        forall|i: int| 0 <= i < s.len() ==> (#[trigger] s[i]).end_time <= spec_last_played(s),
        exists|i: int| 0 <= i < s.len() && (#[trigger] s[i]).end_time == spec_last_played(s),
    decreases s.len(),
{
    if s.len() == 1 {
        assert(s[0].end_time == spec_last_played(s));
    } else {
        let pre = s.drop_last();
        lemma_last_played_is_max(pre);
        assert forall|i: int| 0 <= i < s.len() implies (#[trigger] s[i]).end_time
            <= spec_last_played(s) by {
            if i < s.len() - 1 {
                assert(pre[i] == s[i]);
                assert(pre[i].end_time <= spec_last_played(pre));
            }
        }
        if s.last().end_time > spec_last_played(pre) {
            assert(s[s.len() - 1].end_time == spec_last_played(s));
        } else {
            let j = choose|j: int| 0 <= j < pre.len() && (#[trigger] pre[j]).end_time
                == spec_last_played(pre);
            assert(s[j].end_time == spec_last_played(s));
        }
    }
}

} // verus!

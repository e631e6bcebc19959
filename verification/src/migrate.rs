use vstd::prelude::*;
use crate::aggregate::{aggregate_sessions, spec_aggregate};
use crate::div_trunc;
use crate::history::{get_duration_from_history, spec_history_duration};
use crate::normalize::{parse_playtime_from_context, playtime_ms_to_minutes, spec_playtime,
    DecodeError};
use crate::records::{views_of, DerivedSession, DerivedStatistics, EventRecord, HistoryRecord,
    SessionView, StatsView};
use crate::session::{reconstruct_session, spec_session, today_utc};

verus! {

/// The duration one event resolves to, in whole minutes: the playtime of a
/// decodable context, converted from milliseconds; the history fallback when
/// the context is absent or undecodable.
pub open spec fn spec_resolve_duration(
    context: Option<Vec<u8>>,
    history: Seq<HistoryRecord>,
    target: int,
) -> int {
    match context {
        Some(c) => match spec_playtime(c@) {
            Ok(p) => div_trunc(p as int, 60000),
            Err(_) => spec_history_duration(history, target),
        },
        None => spec_history_duration(history, target),
    }
}

/// Resolve the duration of one event ending at `target_time`: first from its
/// context payload, then from the game's history intervals. Zero means the
/// event yields no session.
pub fn resolve_event_duration(
    context: &Option<Vec<u8>>,
    history: &Vec<HistoryRecord>,
    target_time: i64,
) -> (r: i64)
    ensures
        r as int == spec_resolve_duration(*context, history@, target_time as int),
{
    match context {
        Some(c) => match parse_playtime_from_context(c) {
            Ok(p) => playtime_ms_to_minutes(p),
            Err(_) => get_duration_from_history(history, target_time),
        },
        None => get_duration_from_history(history, target_time),
    }
}

/// What one event contributes: a session exactly when it has a timestamp, a
/// positive duration was resolved, and the derived start timestamp fits a
/// 64-bit value; nothing otherwise.
pub open spec fn spec_event_session(
    game_id: int,
    e: EventRecord,
    history: Seq<HistoryRecord>,
    today: Seq<char>,
) -> Option<SessionView> {
    match e.time_s {
        None => None,
        Some(t) => {
            let d = spec_resolve_duration(e.context, history, t as int);
            if d > 0 && i64::MIN <= t - d * 60 {
                Some(spec_session(game_id, t as int, d, today))
            } else {
                None
            }
        },
    }
}

/// The sessions a game's events yield, in event order; events that resolve no
/// positive duration contribute nothing.
pub open spec fn spec_sessions(
    game_id: int,
    events: Seq<EventRecord>,
    history: Seq<HistoryRecord>,
    today: Seq<char>,
) -> Seq<SessionView>
    decreases events.len(),
{
    if events.len() == 0 {
        Seq::empty()
    } else {
        spec_sessions(game_id, events.drop_last(), history, today) + match spec_event_session(
            game_id,
            events.last(),
            history,
            today,
        ) {
            Some(v) => seq![v],
            None => Seq::empty(),
        }
    }
}

/// One game's migration outcome: the reconstructed sessions in event order,
/// and the statistics record — present exactly when a session was derived.
pub struct GameMigration {
    pub sessions: Vec<DerivedSession>,
    pub statistics: Option<DerivedStatistics>,
}

/// The mathematical image of an optional statistics record.
pub open spec fn opt_stats_view(o: Option<DerivedStatistics>) -> Option<StatsView> {
    match o {
        Some(st) => Some(st@),
        None => None,
    }
}

/// Whether a migration outcome is exactly what the inputs dictate under the
/// processing date `today`.
pub open spec fn migration_matches(
    r: GameMigration,
    game_id: int,
    events: Seq<EventRecord>,
    history: Seq<HistoryRecord>,
    today: Seq<char>,
) -> bool {
    &&& views_of(r.sessions@) == spec_sessions(game_id, events, history, today)
    &&& opt_stats_view(r.statistics) == spec_aggregate(
        game_id,
        spec_sessions(game_id, events, history, today),
    )
}

/// Reconstruct one game's sessions and statistics from its raw events and
/// history rows, under the given processing date for the degraded date path.
pub fn migrate_game_sessions_on(
    game_id: i32,
    events: &Vec<EventRecord>,
    history: &Vec<HistoryRecord>,
    today: &String,
) -> (r: GameMigration)
    ensures
        migration_matches(r, game_id as int, events@, history@, today@),
        (r.statistics is Some) == (r.sessions@.len() > 0),
{
    let n = events.len();
    let mut sessions: Vec<DerivedSession> = Vec::new();
    let mut i: usize = 0;
    proof {
        assert(views_of(sessions@) =~= spec_sessions(
            game_id as int,
            events@.subrange(0, 0),
            history@,
            today@,
        ));
    }
    while i < n
        invariant
            i <= n,
            n == events@.len(),
            views_of(sessions@) == spec_sessions(
                game_id as int,
                events@.subrange(0, i as int),
                history@,
                today@,
            ),
            forall|k: int| 0 <= k < sessions@.len() ==> (#[trigger] sessions@[k]).duration >= 1,
        decreases n - i,
    {
        let ghost pre = events@.subrange(0, i as int);
        let ghost post = events@.subrange(0, i as int + 1);
        let ghost held = sessions@;
        proof {
            assert(post.drop_last() =~= pre);
            assert(post.last() == events@[i as int]);
        }
        let e: &EventRecord = &events[i];
        let mut pushed: bool = false;
        match e.time_s {
            Some(t) => {
                let d: i64 = resolve_event_duration(&e.context, history, t);
                if d > 0 {
                    let start128: i128 = t as i128 - d as i128 * 60;
                    if start128 >= i64::MIN as i128 {
                        let s = reconstruct_session(game_id, t, d, today);
                        sessions.push(s);
                        pushed = true;
                        proof {
                            let v = spec_session(game_id as int, t as int, d as int, today@);
                            assert(spec_event_session(game_id as int, events@[i as int], history@,
                                today@) == Some(v));
                            assert(views_of(sessions@) =~= views_of(held) + seq![v]);
                        }
                    }
                }
            },
            None => {},
        }
        proof {
            if !pushed {
                assert(spec_event_session(game_id as int, events@[i as int], history@, today@)
                    is None);
                assert(spec_sessions(game_id as int, post, history@, today@) =~= spec_sessions(
                    game_id as int,
                    pre,
                    history@,
                    today@,
                ));
            }
        }
        i = i + 1;
    }
    proof {
        assert(events@.subrange(0, n as int) =~= events@);
    }
    let statistics = aggregate_sessions(game_id, &sessions);
    GameMigration { sessions, statistics }
}

/// Reconstruct one game's sessions and statistics from its raw events and
/// history rows. The processing date for the degraded date path is read once
/// from the clock; everything else about the outcome is determined by the
/// inputs alone.
pub fn migrate_game_sessions(
    game_id: i32,
    events: &Vec<EventRecord>,
    history: &Vec<HistoryRecord>,
) -> (r: GameMigration)
    ensures
        exists|today: Seq<char>|
            migration_matches(r, game_id as int, events@, history@, today),
        (r.statistics is Some) == (r.sessions@.len() > 0),
{
    let today = today_utc();
    let r = migrate_game_sessions_on(game_id, events, history, &today);
    proof {
        assert(migration_matches(r, game_id as int, events@, history@, today@));
    }
    r
}

/// A decodable context wins: when an event's context decodes to an integer
/// playtime of `p` milliseconds, the event resolves to `p` divided by 60000,
/// truncated toward zero, and the history is never consulted.
pub proof fn lemma_playtime_resolution(
    c: Vec<u8>,
    history: Seq<HistoryRecord>,
    target: int,
    p: i64,
)
    requires
        spec_playtime(c@) == Ok::<i64, DecodeError>(p),
    ensures
        spec_resolve_duration(Some(c), history, target) == div_trunc(p as int, 60000),
{
}

/// Without a usable context the history decides: the event resolves to the
/// duration of the first interval whose end lies strictly within 300 seconds
/// of the event's timestamp, or to zero when none matches.
pub proof fn lemma_history_fallback(
    c: Option<Vec<u8>>,
    history: Seq<HistoryRecord>,
    target: int,
)
    requires
        c matches Some(b) ==> spec_playtime(b@) is Err,
    ensures
        spec_resolve_duration(c, history, target) == spec_history_duration(history, target),
{
}

/// An event that resolves no positive duration creates no session.
pub proof fn lemma_no_duration_no_session(
    game_id: int,
    e: EventRecord,
    history: Seq<HistoryRecord>,
    today: Seq<char>,
)
    requires
        e.time_s matches Some(t) ==> spec_resolve_duration(e.context, history, t as int) <= 0,
    ensures
        spec_event_session(game_id, e, history, today) is None,
{
}

/// Re-running the migration against the same source is not idempotent: the
/// second run derives exactly the same sessions again, and persisting both
/// runs appends every session twice — nothing deduplicates.
pub proof fn lemma_rerun_duplicates(
    game_id: int,
    events: Seq<EventRecord>,
    history: Seq<HistoryRecord>,
    today: Seq<char>,
)
    ensures
        ({
            let once = spec_sessions(game_id, events, history, today);
            let twice = once + once;
            &&& twice.len() == 2 * once.len()
            &&& forall|i: int|
                0 <= i < once.len() ==> #[trigger] twice[i] == once[i] && twice[once.len() + i]
                    == once[i]
        }),
{
}

} // verus!

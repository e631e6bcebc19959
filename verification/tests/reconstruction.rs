use reina_migrator::aggregate::aggregate_sessions;
use reina_migrator::history::get_duration_from_history;
use reina_migrator::jsonout::daily_stats_json;
use reina_migrator::migrate::migrate_game_sessions_on;
use reina_migrator::normalize::{parse_playtime_from_context, playtime_ms_to_minutes, DecodeError};
use reina_migrator::records::{DailyStats, DerivedSession, EventRecord, HistoryRecord};
use reina_migrator::session::reconstruct_session;

fn session(game_id: i32, start: i64, end: i64, duration: i64, date: &str) -> DerivedSession {
    DerivedSession {
        game_id,
        start_time: start,
        end_time: end,
        duration,
        date: date.to_string(),
    }
}

#[test]
fn playtime_from_context_exact() {
    let ctx: Vec<u8> = b"{\"playtime\": 125000}".to_vec();
    assert_eq!(parse_playtime_from_context(&ctx), Ok(125000));
    assert_eq!(playtime_ms_to_minutes(125000), 2);
    assert_eq!(playtime_ms_to_minutes(600000), 10);
    assert_eq!(playtime_ms_to_minutes(59999), 0);
}

#[test]
fn playtime_truncates_toward_zero() {
    assert_eq!(playtime_ms_to_minutes(-125000), -2);
    assert_eq!(playtime_ms_to_minutes(-59999), 0);
    assert_eq!(playtime_ms_to_minutes(i64::MIN), i64::MIN / 60000);
}

#[test]
fn context_error_variants() {
    assert_eq!(
        parse_playtime_from_context(&vec![0xff, 0xfe]),
        Err(DecodeError::InvalidUtf8)
    );
    assert_eq!(
        parse_playtime_from_context(&b"not json".to_vec()),
        Err(DecodeError::InvalidDocument)
    );
    assert_eq!(
        parse_playtime_from_context(&b"{}".to_vec()),
        Err(DecodeError::MissingField)
    );
    assert_eq!(
        parse_playtime_from_context(&b"{\"playtime\": \"soon\"}".to_vec()),
        Err(DecodeError::NotAnInteger)
    );
    assert_eq!(
        parse_playtime_from_context(&b"{\"playtime\": 1.5}".to_vec()),
        Err(DecodeError::NotAnInteger)
    );
}

#[test]
fn history_fallback_within_300_seconds() {
    let hs = vec![HistoryRecord { start_s: Some(1000), end_s: Some(1120) }];
    assert_eq!(get_duration_from_history(&hs, 1400), 2);
    assert_eq!(get_duration_from_history(&hs, 1419), 2);
    assert_eq!(get_duration_from_history(&hs, 1420), 0);
    assert_eq!(get_duration_from_history(&hs, 821), 2);
    assert_eq!(get_duration_from_history(&hs, 820), 0);
}

#[test]
fn history_first_match_wins() {
    let hs = vec![
        HistoryRecord { start_s: Some(0), end_s: Some(1000) },
        HistoryRecord { start_s: Some(600), end_s: Some(1060) },
    ];
    assert_eq!(get_duration_from_history(&hs, 1010), 16);
}

#[test]
fn history_incomplete_rows_skipped() {
    let hs = vec![
        HistoryRecord { start_s: None, end_s: Some(1000) },
        HistoryRecord { start_s: Some(940), end_s: None },
        HistoryRecord { start_s: Some(880), end_s: Some(1000) },
    ];
    assert_eq!(get_duration_from_history(&hs, 1000), 2);
    assert_eq!(get_duration_from_history(&Vec::new(), 1000), 0);
}

#[test]
fn aggregate_counts_and_sums_exactly() {
    let sessions = vec![
        session(7, 1000, 5000, 60, "2025-05-31"),
        session(7, 2000, 9000, 48, "2025-05-31"),
        session(7, 3000, 6000, 5, "2025-06-01"),
    ];
    let stats = aggregate_sessions(7, &sessions).unwrap();
    assert_eq!(stats.game_id, 7);
    assert_eq!(stats.session_count, 3);
    assert_eq!(stats.total_time, 113);
    assert_eq!(stats.last_played, 9000);
    assert_eq!(stats.daily_stats.entries.len(), 2);
    assert_eq!(stats.daily_stats.entries[0].date, "2025-05-31");
    assert_eq!(stats.daily_stats.entries[0].playtime, 108);
    assert_eq!(stats.daily_stats.entries[1].date, "2025-06-01");
    assert_eq!(stats.daily_stats.entries[1].playtime, 5);
}

#[test]
fn last_played_ignores_input_order() {
    let sessions = vec![
        session(1, 0, 9000, 1, "1970-01-01"),
        session(1, 0, 2000, 1, "1970-01-01"),
        session(1, 0, 5000, 1, "1970-01-01"),
    ];
    let stats = aggregate_sessions(1, &sessions).unwrap();
    assert_eq!(stats.last_played, 9000);
}

#[test]
fn aggregate_of_nothing_is_nothing() {
    assert!(aggregate_sessions(1, &Vec::new()).is_none());
}

#[test]
fn daily_stats_render_as_json_array() {
    let sessions = vec![
        session(2, 0, 100, 60, "2025-05-31"),
        session(2, 0, 200, 48, "2025-05-31"),
    ];
    let stats = aggregate_sessions(2, &sessions).unwrap();
    let rendered = daily_stats_json(&stats.daily_stats);
    assert_eq!(rendered, "[{\"date\":\"2025-05-31\",\"playtime\":108}]");
}

#[test]
fn empty_daily_stats_render_as_empty_object() {
    let empty = DailyStats::new();
    assert_eq!(daily_stats_json(&empty), "{}");
}

#[test]
fn reconstructed_session_dates_the_start() {
    let today = "2099-01-01".to_string();
    let s = reconstruct_session(5, 1748649600 + 3600, 60, &today);
    assert_eq!(s.start_time, 1748649600);
    assert_eq!(s.end_time, 1748653200);
    assert_eq!(s.duration, 60);
    assert_eq!(s.date, "2025-05-31");
}

#[test]
fn unrepresentable_start_falls_back_to_today() {
    let today = "2099-01-01".to_string();
    let s = reconstruct_session(5, i64::MAX, 10, &today);
    assert_eq!(s.start_time, i64::MAX - 600);
    assert_eq!(s.date, "2099-01-01");
}

#[test]
fn end_to_end_two_events() {
    let events = vec![
        EventRecord { time_s: Some(1000), context: Some(b"{\"playtime\": 600000}".to_vec()) },
        EventRecord { time_s: Some(1760), context: None },
    ];
    let history = vec![HistoryRecord { start_s: Some(1700), end_s: Some(1760) }];
    let today = "2099-01-01".to_string();
    let r = migrate_game_sessions_on(42, &events, &history, &today);
    assert_eq!(r.sessions.len(), 2);
    assert_eq!(r.sessions[0].game_id, 42);
    assert_eq!(r.sessions[0].duration, 10);
    assert_eq!(r.sessions[0].end_time, 1000);
    assert_eq!(r.sessions[0].start_time, 400);
    assert_eq!(r.sessions[0].date, "1970-01-01");
    assert_eq!(r.sessions[1].duration, 1);
    assert_eq!(r.sessions[1].start_time, 1700);
    assert_eq!(r.sessions[1].end_time, 1760);
    let stats = r.statistics.unwrap();
    assert_eq!(stats.total_time, 11);
    assert_eq!(stats.session_count, 2);
    assert_eq!(stats.last_played, 1760);
}

#[test]
fn zero_resolvable_durations_write_nothing() {
    let events = vec![
        EventRecord { time_s: Some(1000), context: Some(b"{}".to_vec()) },
        EventRecord { time_s: Some(5000), context: None },
        EventRecord { time_s: None, context: Some(b"{\"playtime\": 600000}".to_vec()) },
    ];
    let history = vec![HistoryRecord { start_s: Some(100000), end_s: Some(106000) }];
    let today = "2099-01-01".to_string();
    let r = migrate_game_sessions_on(9, &events, &history, &today);
    assert!(r.sessions.is_empty());
    assert!(r.statistics.is_none());
}

#[test]
fn rerun_appends_duplicates() {
    let events = vec![
        EventRecord { time_s: Some(1000), context: Some(b"{\"playtime\": 600000}".to_vec()) },
    ];
    let history: Vec<HistoryRecord> = Vec::new();
    let today = "2099-01-01".to_string();
    let first = migrate_game_sessions_on(3, &events, &history, &today);
    let second = migrate_game_sessions_on(3, &events, &history, &today);
    let mut persisted: Vec<DerivedSession> = Vec::new();
    persisted.extend(first.sessions);
    persisted.extend(second.sessions);
    assert_eq!(persisted.len(), 2);
    assert_eq!(persisted[0].start_time, persisted[1].start_time);
    assert_eq!(persisted[0].end_time, persisted[1].end_time);
    assert_eq!(persisted[0].duration, persisted[1].duration);
    assert_eq!(persisted[0].date, persisted[1].date);
    let first_stats = first.statistics.unwrap();
    let second_stats = second.statistics.unwrap();
    assert_eq!(first_stats.total_time, second_stats.total_time);
    assert_eq!(first_stats.session_count, second_stats.session_count);
    assert_eq!(first_stats.last_played, second_stats.last_played);
}

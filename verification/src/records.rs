use vstd::prelude::*;

verus! {

/// One raw play event of the source store, reduced to what the reconstruction
/// reads: the event timestamp in whole seconds since the epoch (absent when
/// the source row carried none) and the opaque context payload.
pub struct EventRecord {
    pub time_s: Option<i64>,
    pub context: Option<Vec<u8>>,
}

/// One raw history interval of the source store: start and end timestamps in
/// whole seconds since the epoch, either of which the source may lack.
#[derive(Clone, Copy)]
pub struct HistoryRecord {
    pub start_s: Option<i64>,
    pub end_s: Option<i64>,
}

/// Mathematical image of a reconstructed session.
pub ghost struct SessionView {
    pub game_id: int,
    pub start_time: int,
    pub end_time: int,
    pub duration: int,
    pub date: Seq<char>,
}

/// One reconstructed play session: start and end timestamps in whole seconds,
/// the duration in whole minutes, and the calendar date of the start.
pub struct DerivedSession {
    pub game_id: i32,
    pub start_time: i64,
    pub end_time: i64,
    pub duration: i64,
    pub date: String,
}

impl View for DerivedSession {
    type V = SessionView;

    open spec fn view(&self) -> SessionView {
        SessionView {
            game_id: self.game_id as int,
            start_time: self.start_time as int,
            end_time: self.end_time as int,
            duration: self.duration as int,
            date: self.date@,
        }
    }
}

/// The mathematical images of a sequence of sessions.
pub open spec fn views_of(s: Seq<DerivedSession>) -> Seq<SessionView> {
    s.map_values(|x: DerivedSession| x@)
}

/// Minutes played on one calendar date.
pub struct DailyEntry {
    pub date: String,
    pub playtime: i64,
}

/// Per-date playtime totals, keyed by calendar date, in order of first
/// appearance. Dates never repeat: adding to a date already present grows
/// its total instead.
pub struct DailyStats {
    pub entries: Vec<DailyEntry>,
}

impl View for DailyStats {
    type V = Seq<(Seq<char>, int)>;

    open spec fn view(&self) -> Seq<(Seq<char>, int)> {
        self.entries@.map_values(|e: DailyEntry| (e.date@, e.playtime as int))
    }
}

/// Mathematical image of a game's aggregate statistics.
pub ghost struct StatsView {
    pub game_id: int,
    pub total_time: int,
    pub session_count: int,
    pub last_played: int,
    pub daily: Seq<(Seq<char>, int)>,
}

/// Per-game aggregate over that game's reconstructed sessions. Built only
/// when at least one session exists.
pub struct DerivedStatistics {
    pub game_id: i32,
    pub total_time: i64,
    pub session_count: usize,
    pub last_played: i64,
    pub daily_stats: DailyStats,
}

impl View for DerivedStatistics {
    type V = StatsView;

    open spec fn view(&self) -> StatsView {
        StatsView {
            game_id: self.game_id as int,
            total_time: self.total_time as int,
            session_count: self.session_count as int,
            last_played: self.last_played as int,
            daily: self.daily_stats@,
        }
    }
}

} // verus!

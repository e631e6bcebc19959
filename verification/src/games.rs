use vstd::prelude::*;
use vstd::string::*;

verus! {

/// The source game row fields the transcription reads.
pub struct SourceGame {
    pub name: Option<String>,
    pub game_dir: Option<String>,
    pub save_dir: Option<String>,
    pub exe_path: Option<String>,
    pub uuid: Option<String>,
}

/// The target game row as the migration writes it, with the display fields
/// that accompany it.
pub struct NewGameRecord {
    pub id_type: String,
    pub localpath: Option<String>,
    pub savepath: Option<String>,
    pub autosave: i32,
    pub clear: i32,
    pub created_at: i64,
    pub updated_at: i64,
    pub name: Option<String>,
    pub image: String,
}

/// The image of an optional string.
pub open spec fn opt_str_view(o: Option<String>) -> Option<Seq<char>> {
    match o {
        Some(s) => Some(s@),
        None => None,
    }
}

/// The local path of a migrated game: directory and executable joined with a
/// backslash when both are present, whichever one is present otherwise.
pub open spec fn spec_localpath(
    game_dir: Option<Seq<char>>,
    exe_path: Option<Seq<char>>,
) -> Option<Seq<char>> {
    match (game_dir, exe_path) {
        (Some(g), Some(e)) => Some(g + "\\"@ + e),
        (Some(g), None) => Some(g),
        (None, e) => e,
    }
}

/// Join a game's directory and executable path into its local path.
pub fn build_localpath(game_dir: &Option<String>, exe_path: &Option<String>) -> (r: Option<
    String,
>)
    ensures
        opt_str_view(r) == spec_localpath(opt_str_view(*game_dir), opt_str_view(*exe_path)),
{
    match (game_dir, exe_path) {
        (Some(g), Some(e)) => {
            let mut s = g.clone();
            s.append("\\");
            s.append(e.as_str());
            Some(s)
        },
        (Some(g), None) => Some(g.clone()),
        (None, Some(e)) => Some(e.clone()),
        (None, None) => None,
    }
}

fn clone_opt(o: &Option<String>) -> (r: Option<String>)
    ensures
        opt_str_view(r) == opt_str_view(*o),
{
    match o {
        Some(s) => Some(s.clone()),
        None => None,
    }
}

/// Transcribe one source game row into the target row: the fixed identifier
/// scheme of migrated games, the joined local path, the save path and name
/// carried over, autosave and clear flags cleared, both bookkeeping
/// timestamps set to the processing time, and the default cover image.
pub fn transcribe_game(g: &SourceGame, now_ts: i64) -> (r: NewGameRecord)
    ensures
        r.id_type@ == "Whitecloud"@,
        opt_str_view(r.localpath) == spec_localpath(
            opt_str_view(g.game_dir),
            opt_str_view(g.exe_path),
        ),
        opt_str_view(r.savepath) == opt_str_view(g.save_dir),
        r.autosave == 0,
        r.clear == 0,
        r.created_at == now_ts,
        r.updated_at == now_ts,
        opt_str_view(r.name) == opt_str_view(g.name),
        r.image@ == "/images/default.png"@,
{
    NewGameRecord {
        id_type: String::from_str("Whitecloud"),
        localpath: build_localpath(&g.game_dir, &g.exe_path),
        savepath: clone_opt(&g.save_dir),
        autosave: 0,
        clear: 0,
        created_at: now_ts,
        updated_at: now_ts,
        name: clone_opt(&g.name),
        image: String::from_str("/images/default.png"),
    }
}

} // verus!

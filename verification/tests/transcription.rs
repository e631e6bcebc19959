use reina_migrator::config::{sqlite_file_path, Config};
use reina_migrator::games::{build_localpath, transcribe_game, SourceGame};

fn source() -> SourceGame {
    SourceGame {
        name: Some("A Game".to_string()),
        game_dir: Some("C:\\games\\a".to_string()),
        save_dir: Some("D:\\saves\\a".to_string()),
        exe_path: Some("run.exe".to_string()),
        uuid: Some("u-1".to_string()),
    }
}

#[test]
fn sqlite_url_prefixes_the_path() {
    assert_eq!(Config::sqlite_url("C:\\db.sqlite"), "sqlite:C:\\db.sqlite");
}

#[test]
fn sqlite_file_path_strips_the_scheme() {
    assert_eq!(sqlite_file_path("sqlite:C:\\db.sqlite"), "C:\\db.sqlite");
    assert_eq!(sqlite_file_path("C:\\db.sqlite"), "C:\\db.sqlite");
    assert_eq!(sqlite_file_path("sqlit"), "sqlit");
    assert_eq!(sqlite_file_path("sqlite:"), "");
}

#[test]
fn localpath_joins_with_backslash() {
    let dir = Some("C:\\games\\a".to_string());
    let exe = Some("run.exe".to_string());
    assert_eq!(build_localpath(&dir, &exe), Some("C:\\games\\a\\run.exe".to_string()));
    assert_eq!(build_localpath(&dir, &None), Some("C:\\games\\a".to_string()));
    assert_eq!(build_localpath(&None, &exe), Some("run.exe".to_string()));
    assert_eq!(build_localpath(&None, &None), None);
}

#[test]
fn transcription_maps_every_field() {
    let g = source();
    let r = transcribe_game(&g, 123456);
    assert_eq!(r.id_type, "Whitecloud");
    assert_eq!(r.localpath, Some("C:\\games\\a\\run.exe".to_string()));
    assert_eq!(r.savepath, Some("D:\\saves\\a".to_string()));
    assert_eq!(r.autosave, 0);
    assert_eq!(r.clear, 0);
    assert_eq!(r.created_at, 123456);
    assert_eq!(r.updated_at, 123456);
    assert_eq!(r.name, Some("A Game".to_string()));
    assert_eq!(r.image, "/images/default.png");
}

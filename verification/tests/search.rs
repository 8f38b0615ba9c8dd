use kazeta_bios::config::{load_theme, Config, MenuPosition, ThemeFile, ThemeFileFailure};
use kazeta_bios::save::{next_dir, search_step, start_search, SearchEntry, SearchRoot};
use kazeta_bios::ui::data::{copy_report, DataState, DialogState};

fn entry(path: &str, is_file: bool) -> SearchEntry {
    SearchEntry {
        path: path.to_string(),
        file_name: path.rsplit('/').next().unwrap().to_string(),
        is_file,
        is_dir: !is_file,
    }
}

#[test]
fn search_root_errors() {
    assert_eq!(
        start_search("/nope", SearchRoot::Missing, "kzi", 1, false).err().unwrap(),
        "Directory does not exist: /nope"
    );
    assert_eq!(
        start_search("/r", SearchRoot::Unreadable("Permission denied".to_string()), "kzi", 1, false).err().unwrap(),
        "Permission denied"
    );
}

#[test]
fn search_breadth_first_order() {
    let mut s = start_search("/r", SearchRoot::Readable, "kzi", 1, false).unwrap();
    assert_eq!(next_dir(&s).unwrap(), "/r");
    search_step(&mut s, Some(vec![entry("/r/sub", false), entry("/r/a.KZI", true), entry("/r/b.txt", true)]));
    assert_eq!(s.found, vec!["/r/a.KZI".to_string()]);
    assert_eq!(next_dir(&s).unwrap(), "/r/sub");
    // At the deepest level subdirectories are not queued.
    search_step(&mut s, Some(vec![entry("/r/sub/deeper", false), entry("/r/sub/c.kzi", true)]));
    assert_eq!(s.found, vec!["/r/a.KZI".to_string(), "/r/sub/c.kzi".to_string()]);
    assert!(next_dir(&s).is_none());
}

#[test]
fn search_skips_unreadable_and_stops_at_first() {
    let mut s = start_search("/r", SearchRoot::Readable, "kzi", 2, true).unwrap();
    search_step(&mut s, Some(vec![entry("/r/x", false), entry("/r/y", false)]));
    assert_eq!(next_dir(&s).unwrap(), "/r/x");
    search_step(&mut s, None);
    assert_eq!(next_dir(&s).unwrap(), "/r/y");
    search_step(&mut s, Some(vec![entry("/r/y/g1.kzi", true), entry("/r/y/g2.kzi", true), entry("/r/y/z", false)]));
    assert_eq!(s.found, vec!["/r/y/g1.kzi".to_string()]);
    assert!(next_dir(&s).is_none());
}

#[test]
fn copy_error_dialog_text() {
    let mut st = DataState {
        selected_memory: 0,
        scroll_offset: 0,
        media_selected: 0,
        dialog_state: DialogState::Open,
        dialogs: Vec::new(),
    };
    copy_report(&mut st, Some("disk full".to_string()), false);
    assert_eq!(st.dialogs.len(), 1);
    assert_eq!(st.dialogs[0].desc.as_deref(), Some("Failed to copy save: disk full"));
    assert_eq!(st.dialog_state, DialogState::Opening);
}

fn theme_file() -> ThemeFile {
    ThemeFile {
        menu_position: MenuPosition::Center,
        font_color: "RED".to_string(),
        cursor_color: "BLUE".to_string(),
        background_scroll_speed: "FAST".to_string(),
        color_shift_speed: "OFF".to_string(),
        bgm_track: "song.ogg".to_string(),
        logo_selection: "logo.png".to_string(),
        background_selection: "bg.png".to_string(),
        font_selection: "font.ttf".to_string(),
    }
}

#[test]
fn theme_load_messages() {
    let mut c = Config::default();
    assert_eq!(
        load_theme(&mut c, "Neon", Err(ThemeFileFailure::Read("No such file".to_string()))).unwrap_err(),
        "Could not read theme.toml: No such file"
    );
    assert_eq!(
        load_theme(&mut c, "Neon", Err(ThemeFileFailure::Parse("bad key".to_string()))).unwrap_err(),
        "Could not parse theme.toml: bad key"
    );
    assert_eq!(
        load_theme(&mut c, "Neon", Err(ThemeFileFailure::NoDataDir)).unwrap_err(),
        "Could not find user data directory."
    );
    assert!(load_theme(&mut c, "Neon", Ok(("/t/neon".to_string(), theme_file()))).is_ok());
    assert_eq!(c.font_color, "RED");
    assert_eq!(c.bgm_track.as_deref(), Some("/t/neon/song.ogg"));
    assert_eq!(c.logo_selection, "/t/neon/logo.png");
}

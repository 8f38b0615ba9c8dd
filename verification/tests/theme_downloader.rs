use kazeta_bios::ui::theme_downloader::{
    bgm_deletion_result, conversion_result, delete_result, description_without_author, is_audio_candidate, item_label,
    receive, retargeted_track, theme_description, theme_from_release, theme_list, themes_from_releases, tool_description,
    update, ConversionFailure, DownloaderMessage, DownloaderState, Fetched, ReleaseAsset, RemoteTheme, ThemeCommand,
    ThemeDownloaderState, ThemeRelease,
};
use kazeta_bios::ui::{Effect, InputState, Screen, Sound};

fn press() -> InputState {
    InputState::new()
}

fn theme(name: &str, folder: &str, installed: bool) -> RemoteTheme {
    RemoteTheme {
        name: name.to_string(),
        folder_name: folder.to_string(),
        author: "someone".to_string(),
        description: "notes".to_string(),
        download_url: format!("https://example.org/{}.zip", folder),
        is_installed: installed,
    }
}

fn release(name: &str, body: &str, assets: &[(&str, &str)]) -> ThemeRelease {
    ThemeRelease {
        name: name.to_string(),
        body: body.to_string(),
        assets: assets
            .iter()
            .map(|(n, u)| ReleaseAsset { name: n.to_string(), browser_download_url: u.to_string() })
            .collect(),
    }
}

fn listing(themes: Vec<RemoteTheme>) -> ThemeDownloaderState {
    let mut st = ThemeDownloaderState::new();
    st.screen_state = DownloaderState::DisplayingList;
    st.themes = themes;
    st
}

#[test]
fn release_with_zip_becomes_theme() {
    let r = release(
        "Soul Calibur II",
        "A theme\nAuthor: Jane Doe \nmore",
        &[("readme.txt", "u0"), ("soul_calibur_ii.zip", "u1"), ("other.zip", "u2")],
    );
    let t = theme_from_release(&r).unwrap();
    assert_eq!(t.name, "Soul Calibur II");
    assert_eq!(t.folder_name, "soul_calibur_ii");
    assert_eq!(t.author, "Jane Doe");
    assert_eq!(t.download_url, "u1");
    assert_eq!(t.description, "A theme\nAuthor: Jane Doe \nmore");
    assert!(!t.is_installed);
}

#[test]
fn release_author_unknown_and_lowercase() {
    let r = release("A", "no author here", &[("a.zip", "u")]);
    assert_eq!(theme_from_release(&r).unwrap().author, "Unknown");
    let r = release("B", "author:bob:extra", &[("b.zip", "u")]);
    assert_eq!(theme_from_release(&r).unwrap().author, "bob");
    let r = release("C", "AUTHOR:", &[("c.zip", "u")]);
    assert_eq!(theme_from_release(&r).unwrap().author, "");
}

#[test]
fn release_without_zip_is_skipped() {
    let rs = vec![
        release("A", "", &[("a.tar", "u")]),
        release("B", "", &[("b.zip", "ub")]),
        release("C", "", &[]),
        release("D", "", &[("d.zip", "ud")]),
    ];
    let ts = themes_from_releases(&rs);
    assert_eq!(ts.len(), 2);
    assert_eq!(ts[0].name, "B");
    assert_eq!(ts[1].folder_name, "d");
}

#[test]
fn theme_list_errors() {
    match theme_list(Fetched::NoResponse) {
        Err(e) => assert_eq!(e, "Failed to fetch theme list from GitHub."),
        Ok(_) => panic!("expected an error"),
    }
    match theme_list(Fetched::BadBody) {
        Err(e) => assert_eq!(e, "Failed to parse theme list from GitHub."),
        Ok(_) => panic!("expected an error"),
    }
    match theme_list(Fetched::Body(vec![release("X", "", &[("x.zip", "u")])])) {
        Ok(ts) => assert_eq!(ts.len(), 1),
        Err(_) => panic!("expected themes"),
    }
}

#[test]
fn receiving_list_marks_installed() {
    let mut st = ThemeDownloaderState::new();
    let mut screen = Screen::ThemeDownloader;
    let installed = vec!["b".to_string()];
    receive(&mut st, DownloaderMessage::ThemeList(Ok(vec![theme("A", "a", false), theme("B", "b", false)])), &installed, &mut screen);
    assert!(matches!(st.screen_state, DownloaderState::DisplayingList));
    assert!(!st.themes[0].is_installed);
    assert!(st.themes[1].is_installed);
    assert_eq!(screen, Screen::ThemeDownloader);
}

#[test]
fn install_success_reloads_themes() {
    let mut st = ThemeDownloaderState::new();
    let mut screen = Screen::ThemeDownloader;
    receive(&mut st, DownloaderMessage::InstallResult(Ok("Neon".to_string())), &vec![], &mut screen);
    match &st.screen_state {
        DownloaderState::Success(m) => assert_eq!(m, "'Neon' installed!"),
        _ => panic!("expected success"),
    }
    assert_eq!(screen, Screen::ReloadingThemes);
}

#[test]
fn idle_frame_starts_fetch() {
    let mut st = ThemeDownloaderState::new();
    let mut screen = Screen::ThemeDownloader;
    let f = update(&mut st, &press(), &mut screen, None, &vec![]);
    assert!(matches!(st.screen_state, DownloaderState::FetchingList));
    assert!(matches!(f.step.command, Some(ThemeCommand::FetchList)));
    assert!(f.step.effects.is_empty());
}

#[test]
fn select_uninstalled_theme_downloads() {
    let mut st = listing(vec![theme("A", "a", false), theme("B", "b", true)]);
    let mut screen = Screen::ThemeDownloader;
    let mut i = press();
    i.select = true;
    let f = update(&mut st, &i, &mut screen, None, &vec![]);
    match &st.screen_state {
        DownloaderState::Downloading(n) => assert_eq!(n, "A"),
        _ => panic!("expected a download"),
    }
    match f.step.command {
        Some(ThemeCommand::Download(t)) => assert_eq!(t.folder_name, "a"),
        _ => panic!("expected a download command"),
    }
    assert_eq!(f.step.effects, vec![Effect::Play(Sound::Select)]);
}

#[test]
fn select_installed_theme_asks_first() {
    let mut st = listing(vec![theme("A", "a", true)]);
    let mut screen = Screen::ThemeDownloader;
    let mut i = press();
    i.select = true;
    let f = update(&mut st, &i, &mut screen, None, &vec![]);
    assert!(matches!(st.screen_state, DownloaderState::ConfirmRedownload { selection: 1, .. }));
    assert!(f.step.command.is_none());
}

#[test]
fn delete_default_theme_is_refused() {
    let mut st = listing(vec![theme("Default", "default", true)]);
    let mut screen = Screen::ThemeDownloader;
    let mut i = press();
    i.secondary = true;
    let f = update(&mut st, &i, &mut screen, None, &vec![]);
    assert_eq!(f.step.effects, vec![Effect::Play(Sound::Reject)]);
    assert!(matches!(st.screen_state, DownloaderState::DisplayingList));
}

#[test]
fn delete_installed_theme_then_confirm() {
    let mut st = listing(vec![theme("Neon", "neon", true)]);
    let mut screen = Screen::ThemeDownloader;
    let mut i = press();
    i.secondary = true;
    update(&mut st, &i, &mut screen, None, &vec![]);
    assert!(matches!(st.screen_state, DownloaderState::ConfirmDelete { selection: 1, .. }));
    let mut flip = press();
    flip.left = true;
    update(&mut st, &flip, &mut screen, None, &vec![]);
    assert!(matches!(st.screen_state, DownloaderState::ConfirmDelete { selection: 0, .. }));
    let mut sel = press();
    sel.select = true;
    let f = update(&mut st, &sel, &mut screen, None, &vec![]);
    match f.step.command {
        Some(ThemeCommand::DeleteTheme { folder_name, display_name }) => {
            assert_eq!(folder_name, "neon");
            assert_eq!(display_name, "Neon");
        }
        _ => panic!("expected a deletion"),
    }
}

#[test]
fn flip_twice_returns_answer() {
    let mut st = listing(vec![]);
    st.screen_state = DownloaderState::ConfirmConvertToWav { selection: 1 };
    let mut screen = Screen::ThemeDownloader;
    let mut flip = press();
    flip.right = true;
    update(&mut st, &flip, &mut screen, None, &vec![]);
    update(&mut st, &flip, &mut screen, None, &vec![]);
    assert!(matches!(st.screen_state, DownloaderState::ConfirmConvertToWav { selection: 1 }));
}

#[test]
fn tool_entry_asks_for_conversion() {
    let mut st = listing(vec![]);
    let mut screen = Screen::ThemeDownloader;
    let mut i = press();
    i.down = true;
    update(&mut st, &i, &mut screen, None, &vec![]);
    assert_eq!(st.selected_index, 1);
    let mut s = press();
    s.select = true;
    update(&mut st, &s, &mut screen, None, &vec![]);
    assert!(matches!(st.screen_state, DownloaderState::ConfirmConvertToOgg { selection: 1 }));
}

#[test]
fn down_then_up_on_list() {
    let mut st = listing(vec![theme("A", "a", false), theme("B", "b", false)]);
    let mut screen = Screen::ThemeDownloader;
    let mut d = press();
    d.down = true;
    let mut u = press();
    u.up = true;
    update(&mut st, &d, &mut screen, None, &vec![]);
    assert_eq!(st.selected_index, 1);
    update(&mut st, &u, &mut screen, None, &vec![]);
    assert_eq!(st.selected_index, 0);
    assert_eq!(st.current_page, 0);
}

#[test]
fn page_right_then_left() {
    let ts: Vec<RemoteTheme> = (0..7).map(|k| theme(&format!("T{}", k), &format!("t{}", k), false)).collect();
    let mut st = listing(ts);
    st.selected_index = 2;
    let mut screen = Screen::ThemeDownloader;
    let mut r = press();
    r.right = true;
    update(&mut st, &r, &mut screen, None, &vec![]);
    assert_eq!(st.selected_index, 5);
    assert_eq!(st.current_page, 1);
    let mut l = press();
    l.left = true;
    update(&mut st, &l, &mut screen, None, &vec![]);
    assert_eq!(st.selected_index, 0);
    assert_eq!(st.current_page, 0);
}

#[test]
fn back_from_list_leaves_and_keeps_message() {
    let mut st = listing(vec![]);
    let mut screen = Screen::ThemeDownloader;
    let mut b = press();
    b.back = true;
    let f = update(&mut st, &b, &mut screen, Some(DownloaderMessage::ConversionResult(Ok("x".to_string()))), &vec![]);
    assert_eq!(screen, Screen::Extras);
    assert!(matches!(st.screen_state, DownloaderState::Idle));
    assert!(f.unread.is_some());
    assert_eq!(f.step.effects, vec![Effect::Play(Sound::Back)]);
}

#[test]
fn back_from_confirmation_returns_to_page() {
    let mut st = listing(vec![]);
    st.selected_index = 6;
    st.current_page = 0;
    st.screen_state = DownloaderState::ConfirmDeleteAllBGM { selection: 1 };
    let mut screen = Screen::ThemeDownloader;
    let mut b = press();
    b.back = true;
    update(&mut st, &b, &mut screen, None, &vec![]);
    assert!(matches!(st.screen_state, DownloaderState::DisplayingList));
    assert_eq!(st.current_page, 1);
    assert_eq!(screen, Screen::ThemeDownloader);
}

#[test]
fn deletion_outcomes() {
    let mut st = listing(vec![]);
    let mut screen = Screen::ThemeDownloader;
    delete_result(&mut st, &mut screen, "Neon", Ok(()));
    match &st.screen_state {
        DownloaderState::Success(m) => assert_eq!(m, "'Neon' deleted."),
        _ => panic!("expected success"),
    }
    assert_eq!(screen, Screen::ReloadingThemes);
    let mut screen = Screen::ThemeDownloader;
    delete_result(&mut st, &mut screen, "Neon", Err("busy".to_string()));
    match &st.screen_state {
        DownloaderState::Error(m) => assert_eq!(m, "Failed to delete: busy"),
        _ => panic!("expected an error"),
    }
}

#[test]
fn conversion_messages() {
    assert_eq!(conversion_result(".ogg", ".wav", 0, None).unwrap(), "No .ogg files found to convert.");
    assert_eq!(conversion_result(".ogg", ".wav", 3, None).unwrap(), "Successfully converted 3 file(s) to .wav!");
    assert_eq!(
        conversion_result(".wav", ".ogg", 2, Some(ConversionFailure::Launch("not found".to_string()))).unwrap_err(),
        "Is ffmpeg installed? Command failed: not found"
    );
    assert_eq!(
        conversion_result(".wav", ".ogg", 2, Some(ConversionFailure::Status("/a/b.wav".to_string()))).unwrap_err(),
        "ffmpeg failed for /a/b.wav"
    );
    assert_eq!(
        conversion_result(".wav", ".ogg", 2, Some(ConversionFailure::Remove("denied".to_string()))).unwrap_err(),
        "Failed to delete old file: denied"
    );
    assert_eq!(
        conversion_result(".wav", ".ogg", 2, Some(ConversionFailure::Settings("Failed to read theme.toml: x".to_string())))
            .unwrap_err(),
        "Failed to read theme.toml: x"
    );
}

#[test]
fn bgm_deletion_messages() {
    assert_eq!(bgm_deletion_result(0, 0, 0), "No BGM files found to delete.");
    assert_eq!(bgm_deletion_result(2, 1, 3), "Successfully deleted 3 BGM file(s)!");
}

#[test]
fn audio_candidates_skip_sfx() {
    let comps = vec!["home".to_string(), "themes".to_string(), "neon".to_string(), "bgm.ogg".to_string()];
    assert!(is_audio_candidate(Some("ogg"), &comps, ".ogg"));
    assert!(!is_audio_candidate(Some("wav"), &comps, ".ogg"));
    assert!(!is_audio_candidate(None, &comps, ".ogg"));
    let sfx = vec!["themes".to_string(), "neon_sfx".to_string(), "move.ogg".to_string()];
    assert!(!is_audio_candidate(Some("ogg"), &sfx, ".ogg"));
}

#[test]
fn track_extension_changes() {
    assert_eq!(retargeted_track(Some("music/song.ogg".to_string()), ".wav").unwrap(), "music/song.wav");
    assert!(retargeted_track(None, ".wav").is_none());
}

#[test]
fn labels_and_descriptions() {
    let st = listing(vec![theme("Neon", "neon", true), theme("Dusk", "dusk", false)]);
    assert_eq!(item_label(&st, 0), "Neon by someone [INSTALLED]");
    assert_eq!(item_label(&st, 1), "Dusk by someone");
    assert_eq!(item_label(&st, 2), "Audio Tools: Convert .OGG to .WAV");
    assert_eq!(item_label(&st, 4), "Audio Tools: Delete All BGM Tracks");
    assert_eq!(description_without_author("Great theme\n  Author: me\nEnjoy"), "Great theme\nEnjoy");
    assert_eq!(theme_description("Look <img src=\"a.png\"> here\nauthor: x").unwrap(), "Look  here");
    assert!(tool_description(1).starts_with("Converts large .wav files"));
}

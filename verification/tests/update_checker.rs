use kazeta_bios::ui::theme_downloader::ReleaseAsset;
use kazeta_bios::ui::update_checker::{
    archive_failure_message, check_result, clamp_scroll, entry_action, failure_message, release_notes, stage_report,
    update, update_asset, ArchiveFailure, CheckerMessage, EntryAction, ReleasesFetch, UpdateCheckResult,
    UpdateCheckerScreenState, UpdateCheckerState, UpdateCommand, UpdateFailure, UpdateProgressMessage, UpdateRelease,
    UpdateStage, VERSION_NUMBER,
};
use kazeta_bios::ui::{Effect, InputState, Screen, Sound};

fn rel(tag: &str, assets: &[&str]) -> UpdateRelease {
    UpdateRelease {
        tag_name: tag.to_string(),
        body: "notes".to_string(),
        assets: assets
            .iter()
            .map(|a| ReleaseAsset { name: a.to_string(), browser_download_url: format!("https://example.org/{}", a) })
            .collect(),
    }
}

#[test]
fn newer_tag_offers_update() {
    match check_result(ReleasesFetch::Releases(vec![rel("V2026.1", &["kit.zip"]), rel(VERSION_NUMBER, &[])])) {
        Ok(UpdateCheckResult::UpdateAvailable(r)) => assert_eq!(r.tag_name, "V2026.1"),
        _ => panic!("expected an update"),
    }
}

#[test]
fn same_tag_is_up_to_date() {
    assert!(matches!(check_result(ReleasesFetch::Releases(vec![rel("V2025.KAZETA+", &[])])), Ok(UpdateCheckResult::UpToDate)));
    assert!(matches!(check_result(ReleasesFetch::Releases(vec![])), Ok(UpdateCheckResult::UpToDate)));
}

#[test]
fn check_errors() {
    match check_result(ReleasesFetch::Status("403 Forbidden".to_string())) {
        Err(e) => assert_eq!(e, "GitHub API Error: 403 Forbidden"),
        _ => panic!("expected an error"),
    }
    match check_result(ReleasesFetch::Failed("timeout".to_string())) {
        Err(e) => assert_eq!(e, "Failed to fetch from GitHub: timeout"),
        _ => panic!("expected an error"),
    }
    match check_result(ReleasesFetch::BadBody("eof".to_string())) {
        Err(e) => assert_eq!(e, "Failed to parse response: eof"),
        _ => panic!("expected an error"),
    }
    match check_result(ReleasesFetch::NoClient("tls".to_string())) {
        Err(e) => assert_eq!(e, "tls"),
        _ => panic!("expected an error"),
    }
}

#[test]
fn notes_cleaned() {
    let body = "  New [release notes](https://x.y/z) here <img src=\"a.png\"/>!  ";
    assert_eq!(release_notes(body).unwrap(), "New release notes here !");
}

#[test]
fn scroll_clamped() {
    let mut st = UpdateCheckerState::new();
    st.description_scroll_offset = 9;
    clamp_scroll(&mut st, 12, 5);
    assert_eq!(st.max_description_scroll, 7);
    assert_eq!(st.description_scroll_offset, 7);
    clamp_scroll(&mut st, 12, 5);
    assert_eq!(st.description_scroll_offset, 7);
    clamp_scroll(&mut st, 3, 5);
    assert_eq!(st.max_description_scroll, 0);
    assert_eq!(st.description_scroll_offset, 0);
}

#[test]
fn first_zip_is_the_update() {
    assert_eq!(update_asset(&rel("t", &["a.txt", "kit.zip", "b.zip"])).unwrap(), 1);
    assert_eq!(update_asset(&rel("t", &["a.txt"])).unwrap_err(), "No .zip asset found in the release.");
}

#[test]
fn stage_and_failure_texts() {
    match stage_report(UpdateStage::Extracting) {
        UpdateProgressMessage::Status(t) => assert_eq!(t, "Extracting archive..."),
        _ => panic!("expected a status"),
    }
    assert_eq!(failure_message(UpdateFailure::ScriptMissing("/tmp/upgrade-to-plus.sh".to_string())), "Script not found at: /tmp/upgrade-to-plus.sh");
    assert_eq!(failure_message(UpdateFailure::ScriptStatus("exit status: 1".to_string())), "Upgrade script failed with status: exit status: 1");
    assert_eq!(failure_message(UpdateFailure::Report("sending on a closed channel".to_string())), "sending on a closed channel");
    assert_eq!(archive_failure_message(ArchiveFailure::Entry(3, "crc".to_string())), "Failed to read zip entry 3: crc");
    assert_eq!(archive_failure_message(ArchiveFailure::Open("nope".to_string())), "Failed to open zip: nope");
}

#[test]
fn archive_entries() {
    match entry_action(0, "kit/", Some("kit/"), "/tmp/") {
        Ok(EntryAction::CreateDir(d)) => assert_eq!(d, "/tmp/kit/"),
        _ => panic!("expected a folder"),
    }
    match entry_action(1, "kit/run.sh", Some("kit/run.sh"), "/tmp/") {
        Ok(EntryAction::WriteFile(d)) => assert_eq!(d, "/tmp/kit/run.sh"),
        _ => panic!("expected a file"),
    }
    match entry_action(7, "../evil", None, "/tmp/") {
        Err(e) => assert_eq!(e, "Invalid file path in zip entry 7"),
        _ => panic!("expected a refusal"),
    }
}

#[test]
fn checker_frames() {
    let mut st = UpdateCheckerState::new();
    let mut screen = Screen::UpdateChecker;
    let f = update(&mut st, &InputState::new(), &mut screen, None, None);
    assert!(matches!(st.screen_state, UpdateCheckerScreenState::Checking));
    assert!(matches!(f.step.command, Some(UpdateCommand::StartCheck)));
    let msg = CheckerMessage::CheckComplete(Ok(UpdateCheckResult::UpdateAvailable(rel("V9", &["k.zip"]))));
    st.max_description_scroll = 2;
    let mut down = InputState::new();
    down.down = true;
    let f = update(&mut st, &down, &mut screen, Some(msg), None);
    assert_eq!(st.description_scroll_offset, 1);
    assert_eq!(f.step.effects, vec![Effect::Play(Sound::CursorMove)]);
    let mut sel = InputState::new();
    sel.select = true;
    let f = update(&mut st, &sel, &mut screen, None, None);
    match &st.screen_state {
        UpdateCheckerScreenState::InProgress(t) => assert_eq!(t, "Starting update..."),
        _ => panic!("expected progress"),
    }
    assert!(matches!(f.step.command, Some(UpdateCommand::Install(_))));
    update(&mut st, &InputState::new(), &mut screen, None, Some(UpdateProgressMessage::Complete));
    assert!(matches!(st.screen_state, UpdateCheckerScreenState::UpdateComplete));
    let mut both = InputState::new();
    both.select = true;
    both.secondary = true;
    let f = update(&mut st, &both, &mut screen, None, None);
    assert!(matches!(f.step.command, Some(UpdateCommand::Shutdown)));
    let mut west = InputState::new();
    west.secondary = true;
    let f = update(&mut st, &west, &mut screen, None, None);
    assert!(matches!(f.step.command, Some(UpdateCommand::Reboot)));
}

#[test]
fn up_to_date_returns_to_menu() {
    let mut st = UpdateCheckerState::new();
    st.screen_state = UpdateCheckerScreenState::UpToDate;
    let mut screen = Screen::UpdateChecker;
    let mut sel = InputState::new();
    sel.select = true;
    update(&mut st, &sel, &mut screen, None, None);
    assert_eq!(screen, Screen::MainMenu);
    assert!(matches!(st.screen_state, UpdateCheckerScreenState::Idle));
}

#[test]
fn back_resets_checker() {
    let mut st = UpdateCheckerState::new();
    st.screen_state = UpdateCheckerScreenState::Checking;
    let mut screen = Screen::UpdateChecker;
    let mut b = InputState::new();
    b.back = true;
    let f = update(&mut st, &b, &mut screen, None, Some(UpdateProgressMessage::Complete));
    assert_eq!(screen, Screen::Extras);
    assert!(matches!(st.screen_state, UpdateCheckerScreenState::Idle));
    assert!(f.unread_progress.is_some());
}

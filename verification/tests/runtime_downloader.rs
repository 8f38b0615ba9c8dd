use kazeta_bios::ui::runtime_downloader::{
    build_runtime_list, file_deletion_result, final_report, get_zip_extracted_files, install_result, item_label,
    official_url, pack_deletion_result, pack_files, progress_report, reported_size, update, DownloaderMessage,
    DownloaderState, FileOutcome, InstallFailure, Progress, RemoteRuntime, RuntimeAsset, RuntimeCommand,
    RuntimeDownloaderState, RuntimeSource,
};
use kazeta_bios::ui::{Effect, InputState, Screen, Sound};

fn runtime(name: &str, source: RuntimeSource, installed: bool) -> RemoteRuntime {
    RemoteRuntime {
        name: name.to_string(),
        file_name: name.to_string(),
        description: "d".to_string(),
        download_url: format!("https://example.org/{}", name),
        source,
        is_installed: installed,
        is_zip: source == RuntimeSource::ThirdParty,
        size_bytes: None,
    }
}

fn asset(name: &str) -> RuntimeAsset {
    RuntimeAsset { name: name.to_string(), browser_download_url: format!("https://example.org/plus/{}", name), size_bytes: Some(10) }
}

#[test]
fn official_runtime_address() {
    assert_eq!(official_url("snes-1.0.kzr"), "https://runtimes.kazeta.org/snes-1.0.kzr");
}

#[test]
fn packs_unpack_to_known_files() {
    assert_eq!(get_zip_extracted_files("saturn-1.0.zip"), vec!["saturn-1.0.kzr".to_string(), "saturn-info.txt".to_string()]);
    assert!(get_zip_extracted_files("mystery.zip").is_empty());
}

#[test]
fn head_request_sizes() {
    assert_eq!(reported_size(true, Some("4096")), Some(4096));
    assert_eq!(reported_size(true, Some("+7")), Some(7));
    assert_eq!(reported_size(true, Some("abc")), None);
    assert_eq!(reported_size(false, Some("4096")), None);
    assert_eq!(reported_size(true, None), None);
}

#[test]
fn runtime_list_sorted_and_marked() {
    let sizes = vec![Some(1), None, Some(3), None, None, None];
    let assets = vec![asset("windows-1.1.kzr"), asset("unrelated.txt"), asset("saturn-1.0.zip"), asset("dolphin-1.0.kzr")];
    let installed = vec!["nes-1.0.kzr".to_string(), "saturn-1.0.kzr".to_string()];
    let list = build_runtime_list(&sizes, &assets, &installed).unwrap();
    let names: Vec<&str> = list.iter().map(|r| r.name.as_str()).collect();
    assert_eq!(
        names,
        vec![
            "linux-1.0.kzr",
            "megadrive-1.1.kzr",
            "nes-1.0.kzr",
            "nintendo64-1.0.kzr",
            "snes-1.0.kzr",
            "windows-1.0.kzr",
            "dolphin-1.0.kzr",
            "windows-1.1.kzr",
            "saturn-1.0.zip",
        ]
    );
    assert!(list[2].is_installed);
    assert!(list[8].is_installed && list[8].is_zip);
    assert!(!list[0].is_installed);
    assert_eq!(list[0].size_bytes, Some(1));
    assert_eq!(list[1].size_bytes, Some(3));
    assert_eq!(list[7].source, RuntimeSource::Outcaster);
    assert_eq!(list[7].description, "Kazeta+ specific runtime.");
    assert_eq!(list[8].description, "Third-party runtime pack. This will be extracted.");
    assert_eq!(list[0].download_url, "https://runtimes.kazeta.org/linux-1.0.kzr");
}

#[test]
fn runtime_list_without_release_still_has_official() {
    let list = build_runtime_list(&vec![None; 6], &vec![], &vec![]).unwrap();
    assert_eq!(list.len(), 6);
    assert!(list.iter().all(|r| r.source == RuntimeSource::Official));
}

#[test]
fn progress_reports() {
    match progress_report(50, Some(200)) {
        DownloaderMessage::DownloadProgress { progress, received_bytes } => {
            assert_eq!(progress, Some(Progress { done: 50, of: 200 }));
            assert_eq!(received_bytes, 50);
        }
        _ => panic!("expected progress"),
    }
    match progress_report(50, None) {
        DownloaderMessage::DownloadProgress { progress, .. } => assert_eq!(progress, None),
        _ => panic!("expected progress"),
    }
    match final_report(9) {
        DownloaderMessage::DownloadProgress { progress, received_bytes } => {
            assert_eq!(progress, Some(Progress { done: 1, of: 1 }));
            assert_eq!(received_bytes, 9);
        }
        _ => panic!("expected progress"),
    }
}

#[test]
fn install_messages() {
    assert_eq!(install_result("psx".to_string(), None).unwrap(), "psx");
    assert_eq!(
        install_result("psx".to_string(), Some(InstallFailure::Status("404 Not Found".to_string()))).unwrap_err(),
        "Download failed: Server returned 404 Not Found"
    );
    assert_eq!(
        install_result("psx".to_string(), Some(InstallFailure::BadZip("bad".to_string()))).unwrap_err(),
        "Invalid zip file: bad"
    );
    assert_eq!(
        install_result("psx".to_string(), Some(InstallFailure::CreateDir("ro".to_string()))).unwrap_err(),
        "Failed to create runtime dir: ro"
    );
}

#[test]
fn pack_deletion() {
    let pack = runtime("pcengine-1.0.zip", RuntimeSource::ThirdParty, true);
    let files = pack_files(&pack).unwrap();
    assert_eq!(files, vec!["pcengine-1.0.kzr".to_string(), "pcengine-info.txt".to_string()]);
    let unknown = runtime("other.zip", RuntimeSource::ThirdParty, true);
    assert_eq!(pack_files(&unknown).unwrap_err(), "Unknown zip file: other.zip");
    assert_eq!(
        pack_deletion_result("pcengine-1.0.zip", &files, &vec![FileOutcome::Missing, FileOutcome::Deleted]).unwrap(),
        "pcengine-1.0.zip"
    );
    assert_eq!(
        pack_deletion_result("pcengine-1.0.zip", &files, &vec![FileOutcome::Missing, FileOutcome::Missing]).unwrap_err(),
        "Extracted files for pcengine-1.0.zip not found."
    );
    assert_eq!(
        pack_deletion_result(
            "pcengine-1.0.zip",
            &files,
            &vec![FileOutcome::Failed("e1".to_string()), FileOutcome::Failed("e2".to_string())]
        )
        .unwrap_err(),
        "Failed to delete pcengine-info.txt: e2"
    );
}

#[test]
fn file_deletion() {
    let r = runtime("snes-1.0.kzr", RuntimeSource::Official, true);
    assert_eq!(file_deletion_result(&r, false, Ok(())).unwrap_err(), "File snes-1.0.kzr not found.");
    assert_eq!(file_deletion_result(&r, true, Ok(())).unwrap(), "snes-1.0.kzr");
    assert_eq!(file_deletion_result(&r, true, Err("busy".to_string())).unwrap_err(), "Failed to delete file: busy");
}

#[test]
fn labels() {
    assert_eq!(item_label(&runtime("nes-1.0.kzr", RuntimeSource::Official, true)), "[Official] nes-1.0.kzr [INSTALLED]");
    assert_eq!(item_label(&runtime("dolphin-1.0.kzr", RuntimeSource::Outcaster, false)), "[Kazeta+] dolphin-1.0.kzr");
    assert_eq!(item_label(&runtime("saturn-1.0.zip", RuntimeSource::ThirdParty, false)), "[Third-Party] saturn-1.0.zip");
}

fn listing(rs: Vec<RemoteRuntime>) -> RuntimeDownloaderState {
    let mut st = RuntimeDownloaderState::new();
    st.runtimes = rs;
    st.screen_state = DownloaderState::DisplayingList;
    st
}

#[test]
fn select_starts_download() {
    let mut st = listing(vec![runtime("nes-1.0.kzr", RuntimeSource::Official, false)]);
    let mut screen = Screen::RuntimeDownloader;
    let mut i = InputState::new();
    i.select = true;
    let f = update(&mut st, &i, &mut screen, None);
    match &st.screen_state {
        DownloaderState::Downloading { name, progress, received_bytes } => {
            assert_eq!(name, "nes-1.0.kzr");
            assert_eq!(*progress, Some(Progress { done: 0, of: 1 }));
            assert_eq!(*received_bytes, 0);
        }
        _ => panic!("expected a download"),
    }
    assert!(matches!(f.step.command, Some(RuntimeCommand::Download(_))));
}

#[test]
fn delete_confirmed_shows_progress() {
    let mut st = listing(vec![runtime("nes-1.0.kzr", RuntimeSource::Official, true)]);
    let mut screen = Screen::RuntimeDownloader;
    let mut i = InputState::new();
    i.secondary = true;
    let f = update(&mut st, &i, &mut screen, None);
    assert_eq!(f.step.effects, vec![Effect::Play(Sound::Select)]);
    let mut flip = InputState::new();
    flip.right = true;
    update(&mut st, &flip, &mut screen, None);
    let mut s = InputState::new();
    s.select = true;
    let f = update(&mut st, &s, &mut screen, None);
    match &st.screen_state {
        DownloaderState::Downloading { name, progress, .. } => {
            assert_eq!(name, "Deleting nes-1.0.kzr...");
            assert!(progress.is_none());
        }
        _ => panic!("expected deletion in progress"),
    }
    assert!(matches!(f.step.command, Some(RuntimeCommand::Delete(_))));
}

#[test]
fn delete_uninstalled_is_refused() {
    let mut st = listing(vec![runtime("nes-1.0.kzr", RuntimeSource::Official, false)]);
    let mut screen = Screen::RuntimeDownloader;
    let mut i = InputState::new();
    i.secondary = true;
    let f = update(&mut st, &i, &mut screen, None);
    assert_eq!(f.step.effects, vec![Effect::Play(Sound::Reject)]);
}

#[test]
fn progress_only_while_downloading() {
    let mut st = listing(vec![]);
    st.screen_state = DownloaderState::Downloading { name: "x".to_string(), progress: None, received_bytes: 0 };
    let mut screen = Screen::RuntimeDownloader;
    update(&mut st, &InputState::new(), &mut screen, Some(progress_report(5, Some(10))));
    match &st.screen_state {
        DownloaderState::Downloading { received_bytes, progress, .. } => {
            assert_eq!(*received_bytes, 5);
            assert_eq!(*progress, Some(Progress { done: 5, of: 10 }));
        }
        _ => panic!("still downloading"),
    }
    let mut other = listing(vec![]);
    update(&mut other, &InputState::new(), &mut screen, Some(progress_report(5, Some(10))));
    assert!(matches!(other.screen_state, DownloaderState::DisplayingList));
}

#[test]
fn finished_install_fetches_again() {
    let mut st = listing(vec![]);
    st.screen_state = DownloaderState::Downloading { name: "x".to_string(), progress: None, received_bytes: 0 };
    let mut screen = Screen::RuntimeDownloader;
    let f = update(&mut st, &InputState::new(), &mut screen, Some(DownloaderMessage::InstallResult(Ok("x".to_string()))));
    assert!(matches!(st.screen_state, DownloaderState::FetchingList));
    assert!(matches!(f.step.command, Some(RuntimeCommand::FetchList)));
}

#[test]
fn back_during_download_leaves() {
    let mut st = listing(vec![]);
    st.screen_state = DownloaderState::Downloading { name: "x".to_string(), progress: None, received_bytes: 0 };
    let mut screen = Screen::RuntimeDownloader;
    let mut b = InputState::new();
    b.back = true;
    update(&mut st, &b, &mut screen, None);
    assert_eq!(screen, Screen::Extras);
    assert!(matches!(st.screen_state, DownloaderState::Idle));
}

use kazeta_bios::config::{theme_choices, NamedTheme, ThemeSettings};
use kazeta_bios::ui::bluetooth::{device_added, scan_report, BluetoothMessage, DeviceTable};
use kazeta_bios::ui::main_menu::{found_game, scan_summary};

fn lines(text: &str) -> Vec<String> {
    text.lines().map(|l| l.to_string()).collect()
}

#[test]
fn kzi_lines_to_game() {
    let g = found_game(&lines("Name=Boomerang Fu\nId=boomerang\nExec=run.sh\nIcon=icon.png\nRuntime="), "/m/b.kzi").unwrap();
    assert_eq!(g.info.id, "boomerang");
    assert_eq!(g.info.name.as_deref(), Some("Boomerang Fu"));
    assert_eq!(g.info.executable, "run.sh");
    assert_eq!(g.info.icon, "icon.png");
    assert_eq!(g.info.runtime, None);
    assert_eq!(g.kzi_path, "/m/b.kzi");
    assert!(found_game(&lines("Name=No id\nId="), "/m/x.kzi").is_none());
    assert!(found_game(&lines("Name=No id"), "/m/x.kzi").is_none());
    let g = found_game(&lines("Id=x\nRuntime=linux-1.0"), "x.kzi").unwrap();
    assert_eq!(g.info.name, None);
    assert_eq!(g.info.runtime.as_deref(), Some("linux-1.0"));
    assert_eq!(g.info.executable, "");
}

#[test]
fn scan_summaries() {
    assert_eq!(scan_summary(0, 0, Some("denied".to_string())), Err("denied".to_string()));
    assert_eq!(scan_summary(2, 1, Some("denied".to_string())), Ok((2, 1)));
    assert_eq!(scan_summary(0, 0, None), Ok((0, 0)));
}

fn theme(name: &str) -> NamedTheme {
    NamedTheme {
        name: name.to_string(),
        settings: ThemeSettings {
            sfx_pack: None,
            bgm_track: None,
            logo_selection: None,
            background_selection: None,
            font_selection: None,
            menu_position: None,
            font_color: None,
            cursor_color: None,
            background_scroll_speed: None,
            color_shift_speed: None,
        },
    }
}

#[test]
fn theme_choices_sorted_with_default() {
    let r = theme_choices(&vec![theme("Neon"), theme("Dusk"), theme("Default"), theme("Neon")]);
    assert_eq!(r, vec!["Default".to_string(), "Dusk".to_string(), "Neon".to_string()]);
    assert_eq!(theme_choices(&vec![]), vec!["Default".to_string()]);
}

#[test]
fn scan_reports_only_on_change() {
    let mut t = DeviceTable::new();
    let changed = device_added(&mut t, "AA", Some("Pad".to_string()));
    match scan_report(&t, changed) {
        Some(BluetoothMessage::ScanResult(Ok(l))) => {
            assert_eq!(l.len(), 1);
            assert_eq!(l[0].mac_address, "AA");
            assert_eq!(l[0].name, "Pad");
        }
        _ => panic!("expected a device list"),
    }
    let changed = device_added(&mut t, "BB", Some(String::new()));
    assert!(scan_report(&t, changed).is_none());
}

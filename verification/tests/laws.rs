use kazeta_bios::cd_player_backend::{CdPlayerBackend, PlayerStatus};
use kazeta_bios::ui::bluetooth::{device_added, device_removed, DeviceTable};
use kazeta_bios::ui::cd_player::track_nav_exec;
use kazeta_bios::ui::data::{dialog_input, grid_move, DataState, DialogState};
use kazeta_bios::ui::dialog::create_main_dialog;
use kazeta_bios::ui::settings::{navigate, SettingsState};
use kazeta_bios::ui::{InputState, PadButton, PadEvent, Screen, UIFocus};

fn press(f: impl Fn(&mut InputState)) -> InputState {
    let mut i = InputState::new();
    f(&mut i);
    i
}

#[test]
fn press_then_release_leaves_button_up() {
    let mut s = InputState::new();
    s.up = true;
    s.apply_pad_event(PadEvent::Pressed(PadButton::South));
    assert!(s.select);
    let after_press = s;
    s.apply_pad_event(PadEvent::Released(PadButton::South));
    assert!(!s.select);
    assert!(s.up);
    let mut expected = after_press;
    expected.select = false;
    assert_eq!(s, expected);
}

#[test]
fn track_down_then_up() {
    let down = press(|i| i.down = true);
    let up = press(|i| i.up = true);
    for t in 0..7usize {
        let d = track_nav_exec(t, 7, &down);
        assert_eq!(track_nav_exec(d, 7, &up), t);
    }
    assert_eq!(track_nav_exec(3, 7, &down), 4);
}

#[test]
fn track_right_then_left() {
    let right = press(|i| i.right = true);
    let left = press(|i| i.left = true);
    // Seven tracks: the left column holds 0..4, the right one 4..7.
    assert_eq!(track_nav_exec(1, 7, &right), 5);
    assert_eq!(track_nav_exec(5, 7, &left), 1);
    for t in 0..3usize {
        let r = track_nav_exec(t, 7, &right);
        assert_eq!(track_nav_exec(r, 7, &left), t);
    }
}

fn settings(screen: Screen) -> SettingsState {
    SettingsState { screen, selection: 1, confirm_selection: 0, display_settings_changed: false }
}

#[test]
fn settings_pages_next_then_prev() {
    let next = press(|i| i.next = true);
    let prev = press(|i| i.prev = true);
    for page in [Screen::VideoSettings, Screen::AudioSettings, Screen::GuiSettings, Screen::AssetSettings] {
        let mut st = settings(page);
        navigate(&mut st, &next);
        assert_ne!(st.screen, page);
        assert_eq!(st.selection, 0);
        navigate(&mut st, &prev);
        assert_eq!(st.screen, page);
    }
}

#[test]
fn settings_four_pages_round() {
    let next = press(|i| i.next = true);
    let mut st = settings(Screen::GuiSettings);
    navigate(&mut st, &next);
    assert_eq!(st.screen, Screen::AssetSettings);
    navigate(&mut st, &next);
    assert_eq!(st.screen, Screen::VideoSettings);
    navigate(&mut st, &next);
    navigate(&mut st, &next);
    assert_eq!(st.screen, Screen::GuiSettings);
}

#[test]
fn device_added_then_removed() {
    let mut t = DeviceTable::new();
    assert!(device_added(&mut t, "AA:BB", Some("Pad".to_string())));
    assert!(!device_added(&mut t, "AA:BB", Some("Other".to_string())));
    assert!(!device_added(&mut t, "CC:DD", Some(String::new())));
    assert!(device_added(&mut t, "CC:DD", Some("Headset".to_string())));
    assert_eq!(t.devices.len(), 2);
    assert!(device_removed(&mut t, "CC:DD"));
    assert_eq!(t.devices.len(), 1);
    assert_eq!(t.devices[0].mac_address, "AA:BB");
    assert_eq!(t.devices[0].name, "Pad");
    assert!(!device_removed(&mut t, "CC:DD"));
}

fn data_with_dialog(selection: usize) -> DataState {
    let mut d = create_main_dialog(2);
    d.selection = selection;
    DataState { selected_memory: 0, scroll_offset: 0, media_selected: 0, dialog_state: DialogState::Open, dialogs: vec![d] }
}

#[test]
fn dialog_up_then_down() {
    let up = press(|i| i.up = true);
    let down = press(|i| i.down = true);
    for sel in 0..3usize {
        let mut st = data_with_dialog(sel);
        dialog_input(&mut st, &up);
        assert_eq!(st.dialogs[0].selection, (sel + 2) % 3);
        dialog_input(&mut st, &down);
        assert_eq!(st.dialogs[0].selection, sel);
    }
}

#[test]
fn dialog_up_and_down_together() {
    let both = press(|i| {
        i.up = true;
        i.down = true;
    });
    let mut st = data_with_dialog(1);
    dialog_input(&mut st, &both);
    assert_eq!(st.dialogs[0].selection, 1);
}

#[test]
fn grid_right_then_left() {
    for sel in [0usize, 5, 12, 13, 40] {
        let mut st = DataState {
            selected_memory: sel,
            scroll_offset: 0,
            media_selected: 0,
            dialog_state: DialogState::Closed,
            dialogs: Vec::new(),
        };
        let mut r = press(|i| i.right = true);
        r.ui_focus = UIFocus::Grid;
        grid_move(&mut st, &mut r, 10, 1);
        assert_eq!(st.selected_memory, sel + 1);
        let mut l = press(|i| i.left = true);
        l.ui_focus = UIFocus::Grid;
        grid_move(&mut st, &mut l, 10, 1);
        assert_eq!(st.selected_memory, sel);
        assert_eq!(st.scroll_offset, 0);
    }
}

#[test]
fn pause_then_resume_keeps_position() {
    let mut b = CdPlayerBackend::new();
    b.status = PlayerStatus::Playing;
    b.playback_start_time = Some(1_000);
    b.has_track_data = true;
    b.pause(true, 31_000);
    assert_eq!(b.status, PlayerStatus::Paused);
    assert_eq!(b.paused_elapsed_time, Some(30_000));
    assert_eq!(b.elapsed(90_000), 30_000);
    b.resume(true, 100_000);
    assert_eq!(b.status, PlayerStatus::Playing);
    assert_eq!(b.playback_start_time, Some(70_000));
    assert_eq!(b.elapsed(100_000), 30_000);
    let before = b.playback_start_time;
    b.resume(false, 200_000);
    assert_eq!(b.playback_start_time, before);
}

#[test]
fn track_cursor_stays_in_list() {
    let up = press(|i| i.up = true);
    let down = press(|i| i.down = true);
    let left = press(|i| i.left = true);
    let right = press(|i| i.right = true);
    for n in 1..9usize {
        for t in 0..n {
            for i in [&up, &down, &left, &right] {
                assert!(track_nav_exec(t, n, i) < n);
            }
        }
        assert_eq!(track_nav_exec(0, n, &up), n - 1);
        assert_eq!(track_nav_exec(n - 1, n, &down), 0);
    }
}

use kazeta_bios::config::{Config, MenuPosition};
use kazeta_bios::nav::{cycle_index, step_down_wrapping, step_up_wrapping};
use kazeta_bios::numparse::{parse_i32, parse_u32, parse_u64, parse_u8, u64_to_string, u64_to_string2};
use kazeta_bios::paths::{
    config_file_path, drive_is_internal, get_save_dir_from_drive_name, get_user_data_dir, path_join, should_exclude_path,
    trim_extension,
};
use kazeta_bios::save::{attribute_value, cart_id_from_file_name, has_save_dir, is_cart, progress_percent, size_in_tenths_of_mb};
use kazeta_bios::sorting::{sort_dedup_strings, sort_strings};
use kazeta_bios::text::{nth_piece, replace_str, trim_str};
use kazeta_bios::ui::settings::get_settings_value;
use kazeta_bios::ui::bluetooth::{forget_command, pair_command, parse_command, AgentCommand};
use kazeta_bios::ui::main_menu::{copy_logs_outcome, copy_logs_result, game_icon_queue, CartInfo, FoundGame};
use kazeta_bios::ui::screens::{join_lines, log_file_name};
use kazeta_bios::ui::wifi::{parse_networks, password_display};
use kazeta_bios::ui::{InputState, UIFocus};

#[test]
fn wrapping_steps() {
    assert_eq!(step_up_wrapping(0, 4), 3);
    assert_eq!(step_up_wrapping(2, 4), 1);
    assert_eq!(step_down_wrapping(3, 4), 0);
    assert_eq!(step_down_wrapping(step_up_wrapping(1, 4), 4), 1);
    assert_eq!(cycle_index(0, 3, true, false), 2);
    assert_eq!(cycle_index(2, 3, false, true), 0);
    assert_eq!(cycle_index(cycle_index(1, 3, false, true), 3, true, false), 1);
}

#[test]
fn menu_positions_cycle() {
    let mut p = MenuPosition::TopLeft;
    for _ in 0..5 {
        p = p.next();
    }
    assert_eq!(p, MenuPosition::TopLeft);
    assert_eq!(MenuPosition::BottomLeft.next().prev(), MenuPosition::BottomLeft);
    assert_eq!(MenuPosition::Center.name(), "Center");
    assert_eq!(MenuPosition::from_name("TopRight"), Some(MenuPosition::TopRight));
    assert_eq!(MenuPosition::from_name("Middle"), None);
}

#[test]
fn numbers() {
    assert_eq!(parse_u64("+42"), Some(42));
    assert_eq!(parse_u64("18446744073709551616"), None);
    assert_eq!(parse_u32("4294967295"), Some(4294967295));
    assert_eq!(parse_u8("256"), None);
    assert_eq!(parse_i32("-2147483648"), Some(-2147483648));
    assert_eq!(parse_i32("-"), None);
    assert_eq!(u64_to_string(0), "0");
    assert_eq!(u64_to_string(1234567), "1234567");
    assert_eq!(u64_to_string2(7), "07");
    assert_eq!(u64_to_string2(42), "42");
}

#[test]
fn text_helpers() {
    assert_eq!(trim_str("  a b \n"), "a b");
    assert_eq!(replace_str("a::b::c", "::", "/"), "a/b/c");
    assert_eq!(replace_str("abc", "", ""), "abc");
    assert_eq!(nth_piece("a: b: c: d", ": ", 2), Some("c".to_string()));
    assert_eq!(nth_piece("a: b", ": ", 2), None);
}

#[test]
fn settings_values_upper_case() {
    let mut c = Config::default();
    c.timezone = "utc+1".to_string();
    c.sfx_pack = "retro_beeps".to_string();
    c.audio_output = "straße".to_string();
    assert_eq!(get_settings_value(1, 4, &c, 0, 0, 0, 0), "UTC+1");
    assert_eq!(get_settings_value(2, 3, &c, 0, 0, 0, 0), "STRASSE");
    assert_eq!(get_settings_value(4, 1, &c, 0, 0, 0, 0), "RETRO BEEPS");
    assert_eq!(get_settings_value(2, 1, &c, 0, 70, 40, 0), "40%");
    c.bgm_track = Some("calm_night.ogg".to_string());
    assert_eq!(get_settings_value(4, 0, &c, 0, 0, 0, 0), "CALM NIGHT");
}


#[test]
fn paths() {
    assert_eq!(get_user_data_dir("/home/gamer"), "/home/gamer/.local/share/kazeta-plus");
    assert_eq!(config_file_path("/d/"), "/d/kazeta.toml");
    assert_eq!(path_join("/a", "/b"), "/b");
    assert!(drive_is_internal("internal"));
    assert!(drive_is_internal(""));
    assert!(!drive_is_internal("sdcard"));
    assert_eq!(get_save_dir_from_drive_name("internal", "/home/g", "/media"), "/home/g/.local/share/kazeta/saves/default");
    assert_eq!(get_save_dir_from_drive_name("sd", "/home/g", "/media"), "/media/sd/kazeta/saves");
    assert!(should_exclude_path("/home/g/.cache/x"));
    assert!(!should_exclude_path("/home/g/saves"));
    assert_eq!(trim_extension("game.tar.gz"), "game.tar");
    assert_eq!(trim_extension("noext"), "noext");
}

#[test]
fn saves() {
    assert!(has_save_dir("internal", false));
    assert!(!has_save_dir("sd", false));
    assert!(is_cart("sd", true));
    assert!(!is_cart("internal", true));
    let lines = vec!["Name=Celeste".to_string(), "Id=celeste".to_string()];
    assert_eq!(attribute_value(&lines, "Id"), "celeste");
    assert_eq!(attribute_value(&lines, "Icon"), "");
    assert_eq!(cart_id_from_file_name("celeste.tar"), "celeste");
    assert_eq!(cart_id_from_file_name("celeste"), "celeste");
    assert_eq!(size_in_tenths_of_mb(1048576), 10);
    assert_eq!(size_in_tenths_of_mb(1), 1);
    assert_eq!(progress_percent(50, 200), 25);
    assert_eq!(progress_percent(200, 200), 100);
}

#[test]
fn sorting() {
    let v = vec!["b".to_string(), "a".to_string(), "b".to_string()];
    assert_eq!(sort_strings(&v), vec!["a".to_string(), "b".to_string(), "b".to_string()]);
    assert_eq!(sort_dedup_strings(&v), vec!["a".to_string(), "b".to_string()]);
}

#[test]
fn bluetooth_commands() {
    assert_eq!(pair_command("AA:BB"), "pair AA:BB");
    assert_eq!(forget_command("AA:BB"), "forget AA:BB");
    match parse_command("pair AA:BB") {
        AgentCommand::Pair(m) => assert_eq!(m, "AA:BB"),
        _ => panic!("expected pair"),
    }
    match parse_command("forget") {
        AgentCommand::Forget(m) => assert_eq!(m, ""),
        _ => panic!("expected forget"),
    }
    assert!(matches!(parse_command("scan"), AgentCommand::Other));
}

#[test]
fn logs() {
    assert_eq!(log_file_name("2025-01-02_03-04-05"), "kazeta_log_2025-01-02_03-04-05.log");
    assert_eq!(join_lines(&vec!["a".to_string(), "b".to_string()]), "a\nb");
    assert_eq!(copy_logs_result(true, "copying\n/media/sd/logs\n", "").unwrap(), "/media/sd/logs");
    assert_eq!(copy_logs_result(true, "", "").unwrap(), "Log copy successful.");
    assert_eq!(copy_logs_result(false, "", " denied \n").unwrap_err(), "Log copy script failed: denied");
    assert_eq!(copy_logs_outcome(Err("not found".to_string())).unwrap_err(), "Failed to execute helper script: not found");
    assert_eq!(copy_logs_outcome(Ok((true, "x\ny".to_string(), String::new()))).unwrap(), "y");
}

#[test]
fn wifi() {
    let out = "Home:40:WPA2\nCafe:80:\nbad line\n:30:WPA\nOffice:80:WPA3\n";
    let aps = parse_networks(out);
    let names: Vec<&str> = aps.iter().map(|a| a.ssid.as_str()).collect();
    assert_eq!(names, vec!["Cafe", "Office", "Home"]);
    assert_eq!(aps[0].security, "");
    assert_eq!(password_display(&"abc".to_string(), false), "***");
    assert_eq!(password_display(&"abc".to_string(), true), "abc");
}

#[test]
fn input_starts_at_rest() {
    let i = InputState::new();
    assert!(!i.up && !i.select && !i.back);
    assert!(i.analog_was_neutral);
    assert_eq!(i.ui_focus, UIFocus::Grid);
}

#[test]
fn icons_next_to_kzi_files() {
    let game = |id: &str, kzi: &str| FoundGame {
        info: CartInfo {
            name: None,
            id: id.to_string(),
            executable: "run.sh".to_string(),
            runtime: None,
            icon: "icon.png".to_string(),
        },
        kzi_path: kzi.to_string(),
    };
    let q = game_icon_queue(&vec![game("a", "/media/sd/games/a.kzi"), game("b", "b.kzi")]).unwrap();
    assert_eq!(q[0], ("a".to_string(), "/media/sd/games/icon.png".to_string()));
    assert_eq!(q[1], ("b".to_string(), "icon.png".to_string()));
    assert!(game_icon_queue(&vec![game("c", "/")]).is_none());
    assert!(game_icon_queue(&vec![]).unwrap().is_empty());
}

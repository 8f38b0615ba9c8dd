use kazeta_bios::devices::{gcc_poll, pack_rows, resolution_parts, string_to_color, ColorName, GccMessage};
use kazeta_bios::loading::{
    after_load, bgm_starts, default_cache_key, default_step_status, find_sfx_pack_path, find_themes, loading_message,
    loading_status, random_loading_message, sfx_source, system_pack_path, total_asset_count, AssetCategory,
    LoadProgress, SfxSource, ThemeEntry, KAZETA_LOADING_MESSAGES,
};
use kazeta_bios::ui::overlay::{battery_text, debug_instruction, game_title, gcc_text, next_color_target, status_side, version_side, Side};
use kazeta_bios::config::MenuPosition;
use kazeta_bios::system::BatteryInfo;
use kazeta_bios::ui::main_menu::CartInfo;

#[test]
fn adapter_polls() {
    assert_eq!(gcc_poll(false, Some("1\n")), (true, Some(GccMessage::RateUpdate(1000))));
    assert_eq!(gcc_poll(false, Some("8")), (true, Some(GccMessage::RateUpdate(125))));
    assert_eq!(gcc_poll(true, Some("0")), (true, None));
    assert_eq!(gcc_poll(false, Some("x")), (false, None));
    let (c, m) = gcc_poll(true, None);
    assert_eq!((c, m), (false, Some(GccMessage::Disconnected)));
    assert_eq!(gcc_poll(c, None), (false, None));
}

#[test]
fn frame_rows() {
    let data: Vec<u8> = (0..24).collect();
    let rows = pack_rows(&data, 12, 2, 2);
    assert_eq!(rows, vec![0, 1, 2, 3, 4, 5, 6, 7, 12, 13, 14, 15, 16, 17, 18, 19]);
    assert_eq!(rows.len(), 2 * 2 * 4);
    assert!(pack_rows(&data, 12, 2, 0).is_empty());
}

#[test]
fn colors_and_resolution() {
    assert_eq!(string_to_color("RED"), ColorName::Red);
    assert_eq!(string_to_color("PURPLE"), ColorName::Violet);
    assert_eq!(string_to_color("teal"), ColorName::White);
    assert_eq!(resolution_parts("1280x800"), Some(("1280".to_string(), "800".to_string())));
    assert_eq!(resolution_parts("1x2x3"), Some(("1".to_string(), "2x3".to_string())));
    assert_eq!(resolution_parts("auto"), None);
}

#[test]
fn loading_texts() {
    assert_eq!(loading_message(2), "KAZETA IS CZECH FOR 'CASSETTE'.");
    let m = random_loading_message();
    assert!(KAZETA_LOADING_MESSAGES.contains(&m));
    assert_eq!(total_asset_count(2, 1, 3, 4), 17);
    assert_eq!(default_step_status(0), "LOADING DEFAULT BACKGROUND...");
    assert_eq!(default_step_status(6), "LOADING DEFAULT SFX...");
    assert_eq!(loading_status(AssetCategory::Logo, "kazeta.png"), "LOADING LOGO: kazeta.png");
    assert_eq!(loading_status(AssetCategory::Font, "x.ttf"), "LOADING FONTS...");
    assert_eq!(default_cache_key(AssetCategory::Logo), "Kazeta+ (Default)");
    assert_eq!(default_cache_key(AssetCategory::Background), "Default");
}

#[test]
fn progress_counts() {
    let p = LoadProgress { loaded: 3, total: 10 };
    assert_eq!(after_load(p, AssetCategory::Font, false).loaded, 4);
    let p = LoadProgress { loaded: 3, total: 10 };
    assert_eq!(after_load(p, AssetCategory::Music, false).loaded, 3);
    let p = LoadProgress { loaded: 3, total: 10 };
    assert_eq!(after_load(p, AssetCategory::Background, true).loaded, 4);
}

#[test]
fn themes_and_packs() {
    assert_eq!(find_themes(&vec!["neon".to_string()]), vec!["Default".to_string(), "neon".to_string()]);
    let themes = vec![
        vec![ThemeEntry { name: "retro_sfx".to_string(), path: "/t/a/retro_sfx".to_string(), is_dir: false }],
        vec![
            ThemeEntry { name: "other".to_string(), path: "/t/b/other".to_string(), is_dir: true },
            ThemeEntry { name: "retro_sfx".to_string(), path: "/t/b/retro_sfx".to_string(), is_dir: true },
        ],
    ];
    assert_eq!(find_sfx_pack_path(&themes, "retro_sfx"), Some("/t/b/retro_sfx".to_string()));
    assert_eq!(find_sfx_pack_path(&themes, "none"), None);
    assert_eq!(system_pack_path("retro"), "../sfx/retro");
}

#[test]
fn sound_sources() {
    assert_eq!(sfx_source("Default", true, true), SfxSource::BuiltIn);
    assert_eq!(sfx_source("retro", true, true), SfxSource::Theme);
    assert_eq!(sfx_source("retro", false, true), SfxSource::System);
    assert_eq!(sfx_source("retro", false, false), SfxSource::BuiltIn);
    assert!(bgm_starts("song.ogg", true));
    assert!(!bgm_starts("OFF", true));
    assert!(!bgm_starts("song.ogg", false));
}

#[test]
fn overlay_texts() {
    assert_eq!(battery_text(&BatteryInfo { percentage: "80".to_string(), status: "Charging".to_string() }), "BATTERY: 80% +");
    assert_eq!(battery_text(&BatteryInfo { percentage: "100".to_string(), status: "Full".to_string() }), "BATTERY: 100% \u{2713}");
    assert_eq!(battery_text(&BatteryInfo { percentage: "5".to_string(), status: "Unknown".to_string() }), "BATTERY: 5%  ");
    assert_eq!(gcc_text(1000), "GCC: 1000Hz");
    assert_eq!(status_side(MenuPosition::TopRight), Side::Left);
    assert_eq!(status_side(MenuPosition::Center), Side::Right);
    assert_eq!(version_side(MenuPosition::BottomRight), Side::Left);
    assert_eq!(debug_instruction(None), "PRESS A TO SAVE LOG (OR B TO EXIT)");
    assert_eq!(debug_instruction(Some("LOG SAVED")), "LOG SAVED");
    assert_eq!(next_color_target(5), 0);
    assert_eq!(next_color_target(2), 3);
    let cart = CartInfo { name: None, id: "game-id".to_string(), executable: "x".to_string(), runtime: None, icon: "i".to_string() };
    assert_eq!(game_title(&cart), "game-id");
}

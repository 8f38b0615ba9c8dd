//! The texts drawn over every screen (clock, battery, adapter rate,
//! version) and on which side they go, the title under the game grid, the
//! hint of the debug screen, and the colours the background cycles
//! through.
use vstd::prelude::*;
use crate::config::MenuPosition;
use crate::system::BatteryInfo;
use crate::ui::main_menu::CartInfo;

verus! {

/// A side of the screen.
#[derive(PartialEq, Eq, Structural, Clone, Copy, Debug)]
pub enum Side {
    Left,
    Right,
}

/// The clock, battery and adapter lines go to the left when the menu is at
/// the top right, and to the right otherwise.
pub fn status_side(menu: MenuPosition) -> (s: Side)
    ensures
        s == (if menu == MenuPosition::TopRight { Side::Left } else { Side::Right }),
{
    match menu {
        MenuPosition::TopRight => Side::Left,
        _ => Side::Right,
    }
}

/// The version goes to the left when the menu is at the bottom right, and
/// to the right otherwise.
pub fn version_side(menu: MenuPosition) -> (s: Side)
    ensures
        s == (if menu == MenuPosition::BottomRight { Side::Left } else { Side::Right }),
{
    match menu {
        MenuPosition::BottomRight => Side::Left,
        _ => Side::Right,
    }
}

/// The sign shown for a battery state: `+` charging, `-` discharging, a
/// tick when full, a space otherwise.
pub open spec fn status_symbol(status: Seq<char>) -> Seq<char> {
    if status == "Charging"@ {
        "+"@
    } else if status == "Discharging"@ {
        "-"@
    } else if status == "Full"@ {
        "\u{2713}"@
    } else {
        " "@
    }
}

/// `BATTERY: p% s`, with `s` as `status_symbol` gives it.
pub fn battery_text(info: &BatteryInfo) -> (r: String)
    ensures
        r@ == "BATTERY: "@ + info.percentage@ + "% "@ + status_symbol(info.status@),
{
    let sym = if crate::text::str_eq(info.status.as_str(), "Charging") {
        "+"
    } else if crate::text::str_eq(info.status.as_str(), "Discharging") {
        "-"
    } else if crate::text::str_eq(info.status.as_str(), "Full") {
        "\u{2713}"
    } else {
        " "
    };
    let head = crate::ui::theme_downloader::message_text("BATTERY: ", info.percentage.as_str(), "% ");
    let mut r = String::from_str(head.as_str());
    r.append(sym);
    r
}

/// `GCC: nHz`.
pub fn gcc_text(rate: u32) -> (r: String)
    ensures
        r@ == "GCC: "@ + crate::numparse::dec_digits(rate as nat) + "Hz"@,
{
    let n = crate::numparse::u64_to_string(rate as u64);
    crate::ui::theme_downloader::message_text("GCC: ", n.as_str(), "Hz")
}

/// The title shown under the game grid: the game's name, or its id.
pub fn game_title(cart: &CartInfo) -> (r: &str)
    ensures
        r@ == (match cart.name {
            Some(n) => n@,
            None => cart.id@,
        }),
{
    match &cart.name {
        Some(n) => n.as_str(),
        None => cart.id.as_str(),
    }
}

/// The hint at the bottom of the debug screen: the passing message, if
/// any, or how to save the log.
pub fn debug_instruction(flash: Option<&str>) -> (r: &str)
    ensures
        r@ == (match flash {
            Some(f) => f@,
            None => "PRESS A TO SAVE LOG (OR B TO EXIT)"@,
        }),
{
    match flash {
        Some(f) => f,
        None => "PRESS A TO SAVE LOG (OR B TO EXIT)",
    }
}

/// The number of colours the background cycles through.
pub const COLOR_TARGET_COUNT: usize = 6;

/// The colour the background moves to once it has reached `target`.
pub fn next_color_target(target: usize) -> (r: usize)
    requires
        target < COLOR_TARGET_COUNT,
    ensures
        r == (target + 1) % (COLOR_TARGET_COUNT as int),
        r < COLOR_TARGET_COUNT,
{
    (target + 1) % COLOR_TARGET_COUNT
}

} // verus!

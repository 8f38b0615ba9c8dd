//! The extras menu: network, controllers, downloads, the CD player and
//! updates.
use vstd::prelude::*;
use crate::ui::{Effect, Sound, InputState, Screen, only_if};

verus! {

/// The entries of the extras menu.
pub const EXTRAS_MENU_OPTIONS: [&'static str; 6] = [
    "CONNECT TO WI-FI",
    "PAIR BLUETOOTH CONTROLLER",
    "GET NEW THEMES",
    "DOWNLOAD RUNTIMES",
    "CD PLAYER",
    "CHECK FOR UPDATES",
];

/// The screen option `sel` opens.
pub open spec fn extras_target(sel: int) -> Option<Screen> {
    if sel == 0 {
        Some(Screen::Wifi)
    } else if sel == 1 {
        Some(Screen::Bluetooth)
    } else if sel == 2 {
        Some(Screen::ThemeDownloader)
    } else if sel == 3 {
        Some(Screen::RuntimeDownloader)
    } else if sel == 4 {
        Some(Screen::CdPlayer)
    } else if sel == 5 {
        Some(Screen::UpdateChecker)
    } else {
        None
    }
}

/// The highlighted option after the up and down presses (both wrap).
pub open spec fn extras_cursor(sel: int, up: bool, down: bool) -> int {
    let n = EXTRAS_MENU_OPTIONS@.len() as int;
    let s1 = if up {
        if sel == 0 { n - 1 } else { sel - 1 }
    } else {
        sel
    };
    if down { (s1 + 1) % n } else { s1 }
}


/// One frame of input on the extras menu: up/down move the highlight
/// (wrapping), back returns to the main menu, select opens the highlighted
/// extra.
pub fn update(screen: &mut Screen, selection: &mut usize, input: &InputState) -> (effects: Vec<Effect>)
    requires
        *old(selection) < usize::MAX,
    ensures
        *final(selection) == extras_cursor(*old(selection) as int, input.up, input.down),
        *final(screen) == (if input.select && extras_target(*final(selection) as int) is Some {
            extras_target(*final(selection) as int)->0
        } else if input.back {
            Screen::MainMenu
        } else {
            *old(screen)
        }),
        effects@ == only_if(input.up, seq![Effect::Transition, Effect::Play(Sound::CursorMove)]) + only_if(
            input.down,
            seq![Effect::Transition, Effect::Play(Sound::CursorMove)],
        ) + only_if(input.back, seq![Effect::Play(Sound::Back)]) + only_if(
            input.select,
            seq![Effect::Play(Sound::Select)],
        ),
{
    let n = EXTRAS_MENU_OPTIONS.len();
    let mut effects: Vec<Effect> = Vec::new();
    if input.up {
        *selection = if *selection == 0 {
            n - 1
        } else {
            *selection - 1
        };
        effects.push(Effect::Transition);
        effects.push(Effect::Play(Sound::CursorMove));
    }
    let ghost e1 = effects@;
    if input.down {
        *selection = (*selection + 1) % n;
        effects.push(Effect::Transition);
        effects.push(Effect::Play(Sound::CursorMove));
    }
    let ghost e2 = effects@;
    if input.back {
        *screen = Screen::MainMenu;
        effects.push(Effect::Play(Sound::Back));
    }
    let ghost e3 = effects@;
    if input.select {
        effects.push(Effect::Play(Sound::Select));
        let sel = *selection;
        if sel == 0 {
            *screen = Screen::Wifi;
        } else if sel == 1 {
            *screen = Screen::Bluetooth;
        } else if sel == 2 {
            *screen = Screen::ThemeDownloader;
        } else if sel == 3 {
            *screen = Screen::RuntimeDownloader;
        } else if sel == 4 {
            *screen = Screen::CdPlayer;
        } else if sel == 5 {
            *screen = Screen::UpdateChecker;
        }
    }
    proof {
        assert(e1 =~= only_if(input.up, seq![Effect::Transition, Effect::Play(Sound::CursorMove)]));
        assert(e2 =~= e1 + only_if(input.down, seq![Effect::Transition, Effect::Play(Sound::CursorMove)]));
        assert(e3 =~= e2 + only_if(input.back, seq![Effect::Play(Sound::Back)]));
        assert(effects@ =~= e3 + only_if(input.select, seq![Effect::Play(Sound::Select)]));
    }
    effects
}

} // verus!

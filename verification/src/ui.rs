//! The screens of the BIOS, the input state that drives them, and the
//! feedback a screen asks for (sounds, cursor animations, shakes).
use vstd::prelude::*;

pub mod about;
pub mod bluetooth;
pub mod cd_player;
pub mod data;
pub mod dialog;
pub mod extras_menu;
pub mod main_menu;
pub mod overlay;
pub mod screens;
pub mod settings;
pub mod runtime_downloader;
pub mod theme_downloader;
pub mod update_checker;
pub mod wifi;

verus! {

/// The screens of the BIOS.
#[derive(PartialEq, Eq, Structural, Clone, Copy, Debug)]
pub enum Screen {
    MainMenu,
    SaveData,
    GameSelection,
    Debug,
    FadingOut,
    About,
    Extras,
    VideoSettings,
    AudioSettings,
    GuiSettings,
    AssetSettings,
    ConfirmReset,
    ResetComplete,
    Wifi,
    Bluetooth,
    ThemeDownloader,
    RuntimeDownloader,
    CdPlayer,
    UpdateChecker,
    ReloadingThemes,
}

/// Which part of the save data screen has the cursor.
#[derive(PartialEq, Eq, Structural, Clone, Copy, Debug)]
pub enum UIFocus {
    Grid,
    StorageLeft,
    StorageRight,
}

/// The sound effects of the interface.
#[derive(PartialEq, Eq, Structural, Clone, Copy, Debug)]
pub enum Sound {
    CursorMove,
    Select,
    Reject,
    Back,
}

/// What can be shaken to show that an action is refused.
#[derive(PartialEq, Eq, Structural, Clone, Copy, Debug)]
pub enum ShakeTarget {
    PlayOption,
    CopyLogOption,
    UnmountOption,
    LeftArrow,
    RightArrow,
    Dialog,
}

/// Feedback a screen asks for, in the order it asks.
#[derive(PartialEq, Eq, Structural, Clone, Copy, Debug)]
pub enum Effect {
    /// Restart the cursor animation.
    Transition,
    Play(Sound),
    Shake(ShakeTarget),
    /// Move the selected icon from the grid into the dialog.
    DialogIn,
    /// Move the icon from the dialog back to the grid.
    DialogOut,
}

/// `s` when `b` holds, and nothing otherwise.
pub open spec fn only_if<T>(b: bool, s: Seq<T>) -> Seq<T> {
    if b {
        s
    } else {
        Seq::empty()
    }
}

/// The effects of a cursor move: the cursor animation and its sound.
pub open spec fn cursor_moved() -> Seq<Effect> {
    seq![Effect::Transition, Effect::Play(Sound::CursorMove)]
}

/// The buttons pressed this frame, and where the cursor of the save data
/// screen is.
#[derive(PartialEq, Eq, Structural, Clone, Copy, Debug)]
pub struct InputState {
    pub up: bool,
    pub down: bool,
    pub left: bool,
    pub right: bool,
    pub select: bool,
    pub next: bool,
    pub prev: bool,
    pub cycle: bool,
    pub back: bool,
    pub secondary: bool,
    pub analog_was_neutral: bool,
    pub ui_focus: UIFocus,
}

/// Icons per row of the save data grid.
pub const GRID_WIDTH: usize = 13;

/// Rows of the save data grid.
pub const GRID_HEIGHT: usize = 5;

/// The index in the list of saves of the grid cell `selected_memory`, with
/// the grid scrolled down by `scroll_offset` rows.
pub fn get_memory_index(selected_memory: usize, scroll_offset: usize) -> (r: usize)
    requires
        selected_memory + GRID_WIDTH * scroll_offset <= usize::MAX,
    ensures
        r == selected_memory + GRID_WIDTH * scroll_offset,
{
    selected_memory + GRID_WIDTH * scroll_offset
}

/// No button pressed, the stick at rest, the cursor on the grid.
pub open spec fn initial_input() -> InputState {
    InputState {
        up: false,
        down: false,
        left: false,
        right: false,
        select: false,
        next: false,
        prev: false,
        cycle: false,
        back: false,
        secondary: false,
        analog_was_neutral: true,
        ui_focus: UIFocus::Grid,
    }
}

/// The keys the keyboard reports as pressed this frame.
#[derive(PartialEq, Eq, Structural, Clone, Copy, Debug)]
pub struct KeyPresses {
    pub up: bool,
    pub down: bool,
    pub left: bool,
    pub right: bool,
    pub enter: bool,
    pub right_bracket: bool,
    pub left_bracket: bool,
    pub backspace: bool,
    pub tab: bool,
}

/// The gamepad buttons the BIOS listens to.
#[derive(PartialEq, Eq, Structural, Clone, Copy, Debug)]
pub enum PadButton {
    DPadUp,
    DPadDown,
    DPadLeft,
    DPadRight,
    South,
    East,
    West,
    RightTrigger,
    LeftTrigger,
    Other,
}

/// A gamepad button event.
#[derive(PartialEq, Eq, Structural, Clone, Copy, Debug)]
pub enum PadEvent {
    Pressed(PadButton),
    Released(PadButton),
    Other,
}

impl InputState {
    /// Nothing pressed, the cursor on the grid.
    pub fn new() -> (r: InputState)
        ensures
            r == initial_input(),
    {
        InputState {
            up: false,
            down: false,
            left: false,
            right: false,
            select: false,
            next: false,
            prev: false,
            cycle: false,
            back: false,
            secondary: false,
            analog_was_neutral: true,
            ui_focus: UIFocus::Grid,
        }
    }

    /// Takes this frame's keyboard presses: arrows move, Enter selects,
    /// `]` and `[` page, Backspace goes back, Tab cycles.
    pub fn update_keyboard(&mut self, keys: KeyPresses)
        ensures
            final(self).up == keys.up,
            final(self).down == keys.down,
            final(self).left == keys.left,
            final(self).right == keys.right,
            final(self).select == keys.enter,
            final(self).next == keys.right_bracket,
            final(self).prev == keys.left_bracket,
            final(self).back == keys.backspace,
            final(self).cycle == keys.tab,
            final(self).secondary == old(self).secondary,
            final(self).analog_was_neutral == old(self).analog_was_neutral,
            final(self).ui_focus == old(self).ui_focus,
    {
        self.up = keys.up;
        self.down = keys.down;
        self.left = keys.left;
        self.right = keys.right;
        self.select = keys.enter;
        self.next = keys.right_bracket;
        self.prev = keys.left_bracket;
        self.back = keys.backspace;
        self.cycle = keys.tab;
    }

    /// Applies one gamepad event: a press sets the button's flag, a release
    /// clears it (d-pad, South = select, East = back, West = secondary,
    /// triggers = next/previous).
    pub fn apply_pad_event(&mut self, ev: PadEvent)
        ensures
            *final(self) == pad_event_spec(*old(self), ev),
    {
        match ev {
            PadEvent::Pressed(b) => self.set_button(b, true),
            PadEvent::Released(b) => self.set_button(b, false),
            PadEvent::Other => {},
        }
    }

    /// Sets the flag of one button.
    pub fn set_button(&mut self, b: PadButton, v: bool)
        ensures
            *final(self) == set_button(*old(self), b, v),
    {
        *self = with_button(*self, b, v);
    }

    /// Applies the left stick of one gamepad, already compared with the dead
    /// zone: a direction past it counts as a press only when the stick was
    /// at rest the frame before; whether it is at rest now is remembered.
    pub fn apply_stick(&mut self, up: bool, down: bool, left: bool, right: bool, neutral: bool)
        ensures
            final(self).up == (old(self).up || (old(self).analog_was_neutral && up)),
            final(self).down == (old(self).down || (old(self).analog_was_neutral && down)),
            final(self).left == (old(self).left || (old(self).analog_was_neutral && left)),
            final(self).right == (old(self).right || (old(self).analog_was_neutral && right)),
            final(self).analog_was_neutral == neutral,
            final(self).select == old(self).select,
            final(self).back == old(self).back,
            final(self).next == old(self).next,
            final(self).prev == old(self).prev,
            final(self).cycle == old(self).cycle,
            final(self).secondary == old(self).secondary,
            final(self).ui_focus == old(self).ui_focus,
    {
        if self.analog_was_neutral {
            self.up = self.up || up;
            self.down = self.down || down;
            self.left = self.left || left;
            self.right = self.right || right;
        }
        self.analog_was_neutral = neutral;
    }
}

/// The input state after one gamepad event.
pub open spec fn pad_event_spec(s: InputState, ev: PadEvent) -> InputState {
    match ev {
        PadEvent::Other => s,
        PadEvent::Pressed(b) => set_button(s, b, true),
        PadEvent::Released(b) => set_button(s, b, false),
    }
}

/// The input with the flag of one button set to `v`.
pub open spec fn set_button(s: InputState, b: PadButton, v: bool) -> InputState {
    match b {
        PadButton::DPadUp => InputState { up: v, ..s },
        PadButton::DPadDown => InputState { down: v, ..s },
        PadButton::DPadLeft => InputState { left: v, ..s },
        PadButton::DPadRight => InputState { right: v, ..s },
        PadButton::South => InputState { select: v, ..s },
        PadButton::East => InputState { back: v, ..s },
        PadButton::West => InputState { secondary: v, ..s },
        PadButton::RightTrigger => InputState { next: v, ..s },
        PadButton::LeftTrigger => InputState { prev: v, ..s },
        PadButton::Other => s,
    }
}

/// The input state with one button's flag set.
pub fn with_button(s: InputState, b: PadButton, v: bool) -> (r: InputState)
    ensures
        r == set_button(s, b, v),
{
    match b {
        PadButton::DPadUp => InputState { up: v, ..s },
        PadButton::DPadDown => InputState { down: v, ..s },
        PadButton::DPadLeft => InputState { left: v, ..s },
        PadButton::DPadRight => InputState { right: v, ..s },
        PadButton::South => InputState { select: v, ..s },
        PadButton::East => InputState { back: v, ..s },
        PadButton::West => InputState { secondary: v, ..s },
        PadButton::RightTrigger => InputState { next: v, ..s },
        PadButton::LeftTrigger => InputState { prev: v, ..s },
        PadButton::Other => s,
    }
}

/// A press followed by the release of the same button leaves that button
/// up and every other input as it was after the press.
pub proof fn law_press_then_release(s: InputState, b: PadButton)
    ensures
        pad_event_spec(pad_event_spec(s, PadEvent::Pressed(b)), PadEvent::Released(b))
            == set_button(s, b, false),
{
}

} // verus!

//! The four settings pages (video, audio, GUI customization, custom assets):
//! their option lists, the value shown beside each option, and what a frame
//! of input does to the settings.
use vstd::prelude::*;
use crate::config::{Config, NamedTheme, theme_lookup, theme_switched, switch_theme, find_theme};
use crate::nav::{cycle, index_or_zero, first_index, str_views, cycle_name, cycle_choice, cycle_index, position_in_names};
use crate::sorting::views;
use crate::text::{chars_of, string_from, to_upper, upper_of, replace_char, replace_char_chars};
use crate::numparse::dec_digits;
use crate::paths::{trim_ext, trim_extension};
use crate::ui::{Screen, Sound, InputState, only_if};

verus! {

/// The options of the video page.
pub const VIDEO_SETTINGS: [&'static str; 7] = [
    "RESET SETTINGS",
    "RESOLUTION",
    "USE FULLSCREEN",
    "SHOW SPLASH SCREEN",
    "TIME ZONE",
    "BRIGHTNESS",
    "AUDIO SETTINGS",
];

/// The options of the audio page.
pub const AUDIO_SETTINGS: [&'static str; 6] = [
    "MASTER VOLUME",
    "BGM VOLUME",
    "SFX VOLUME",
    "AUDIO OUTPUT",
    "VIDEO SETTINGS",
    "GUI CUSTOMIZATION",
];

/// The options of the interface page.
pub const GUI_CUSTOMIZATION_SETTINGS: [&'static str; 8] = [
    "THEME",
    "MAIN MENU POSITION",
    "FONT COLOR",
    "CURSOR COLOR",
    "BACKGROUND SCROLLING",
    "COLOR GRADIENT SHIFTING",
    "AUDIO SETTINGS",
    "CUSTOM ASSETS SETTINGS",
];

/// The options of the custom asset page.
pub const CUSTOM_ASSET_SETTINGS: [&'static str; 6] = [
    "BACKGROUND MUSIC",
    "SOUND PACK",
    "LOGO",
    "BACKGROUND",
    "FONT TYPE",
    "GUI CUSTOMIZATION SETTINGS",
];

/// The font colours to choose from.
pub const FONT_COLORS: [&'static str; 8] = [
    "WHITE",
    "PINK",
    "RED",
    "ORANGE",
    "YELLOW",
    "GREEN",
    "BLUE",
    "PURPLE",
];

/// The window resolutions to choose from.
pub const RESOLUTIONS: [&'static str; 7] = [
    "640x360",
    "1280x720",
    "1280x800",
    "1920x1080",
    "1920x1200",
    "2560x1440",
    "3840x2160",
];

/// The background scroll speeds.
pub const SCROLL_SPEEDS: [&'static str; 4] = ["OFF", "SLOW", "NORMAL", "FAST"];

/// The colour shift speeds.
pub const COLOR_SHIFT_SPEEDS: [&'static str; 4] = ["OFF", "SLOW", "NORMAL", "FAST"];

/// The time zones to choose from, as offsets from UTC.
pub const TIMEZONES: [&'static str; 25] = [
    "UTC-12", "UTC-11", "UTC-10", "UTC-9", "UTC-8", "UTC-7", "UTC-6",
    "UTC-5", "UTC-4", "UTC-3", "UTC-2", "UTC-1", "UTC", "UTC+1",
    "UTC+2", "UTC+3", "UTC+4", "UTC+5", "UTC+6", "UTC+7", "UTC+8",
    "UTC+9", "UTC+10", "UTC+11", "UTC+12",
];

/// An audio output found by `wpctl status`.
pub struct AudioSink {
    pub id: u32,
    pub name: String,
}

/// Where the settings pages stand: the screen, the highlighted option, the
/// highlighted answer of the reset confirmation, and whether a change needs
/// a restart.
#[derive(PartialEq, Eq, Structural, Clone, Copy, Debug)]
pub struct SettingsState {
    pub screen: Screen,
    pub selection: usize,
    pub confirm_selection: usize,
    pub display_settings_changed: bool,
}

/// The choices the pages cycle through.
pub struct SettingsChoices {
    pub themes: Vec<String>,
    pub loaded_themes: Vec<NamedTheme>,
    pub sound_packs: Vec<String>,
    pub bgm: Vec<String>,
    pub logos: Vec<String>,
    pub backgrounds: Vec<String>,
    pub fonts: Vec<String>,
    pub sinks: Vec<AudioSink>,
}

/// What the settings pages ask the rest of the BIOS to do, in order.
#[derive(Clone, Debug, PartialEq, Eq)]
pub enum SettingsAction {
    Play(Sound),
    /// Write the settings to `kazeta.toml`.
    SaveConfig,
    /// Resize the window to the configured resolution.
    ApplyResolution,
    /// Set the brightness 10% lower (`false`) or higher (`true`), then read it back.
    StepBrightness(bool),
    /// Set the system volume 10% lower or higher, then read it back.
    StepSystemVolume(bool),
    /// Lower or raise the music volume by a tenth, within 0 and 1.
    StepBgmVolume(bool),
    /// Give the playing music the configured music volume.
    ApplyBgmVolume,
    /// Lower or raise the effects volume by a tenth, within 0 and 1.
    StepSfxVolume(bool),
    /// Make the sink with this id the default output, and remember the choice.
    SetDefaultSink(u32),
    /// Play this music track (`"OFF"` stops the music).
    PlayBgm(String),
    /// Use the sound effects of this loaded theme.
    UseThemeSounds(String),
    /// Load this sound pack.
    ReloadSfxPack(String),
}

/// A settings action with its strings as character sequences.
pub enum ActionView {
    Play(Sound),
    SaveConfig,
    ApplyResolution,
    StepBrightness(bool),
    StepSystemVolume(bool),
    StepBgmVolume(bool),
    ApplyBgmVolume,
    StepSfxVolume(bool),
    SetDefaultSink(u32),
    PlayBgm(Seq<char>),
    UseThemeSounds(Seq<char>),
    ReloadSfxPack(Seq<char>),
}

impl View for SettingsAction {
    type V = ActionView;

    open spec fn view(&self) -> ActionView {
        match self {
            SettingsAction::Play(s) => ActionView::Play(*s),
            SettingsAction::SaveConfig => ActionView::SaveConfig,
            SettingsAction::ApplyResolution => ActionView::ApplyResolution,
            SettingsAction::StepBrightness(b) => ActionView::StepBrightness(*b),
            SettingsAction::StepSystemVolume(b) => ActionView::StepSystemVolume(*b),
            SettingsAction::StepBgmVolume(b) => ActionView::StepBgmVolume(*b),
            SettingsAction::ApplyBgmVolume => ActionView::ApplyBgmVolume,
            SettingsAction::StepSfxVolume(b) => ActionView::StepSfxVolume(*b),
            SettingsAction::SetDefaultSink(i) => ActionView::SetDefaultSink(*i),
            SettingsAction::PlayBgm(s) => ActionView::PlayBgm(s@),
            SettingsAction::UseThemeSounds(s) => ActionView::UseThemeSounds(s@),
            SettingsAction::ReloadSfxPack(s) => ActionView::ReloadSfxPack(s@),
        }
    }
}

/// The actions by their views.
pub open spec fn action_views(acts: Seq<SettingsAction>) -> Seq<ActionView> {
    acts.map_values(|a: SettingsAction| a@)
}

/// The page number of a settings screen: 1 video, 2 audio, 3 GUI, 4 assets;
/// 0 for any other screen.
pub open spec fn page_of(s: Screen) -> int {
    match s {
        Screen::VideoSettings => 1,
        Screen::AudioSettings => 2,
        Screen::GuiSettings => 3,
        Screen::AssetSettings => 4,
        _ => 0,
    }
}

/// One of the four settings pages.
pub open spec fn is_settings_screen(s: Screen) -> bool {
    1 <= page_of(s) <= 4
}

/// How many options a page has.
pub open spec fn page_len(p: int) -> int {
    if p == 1 {
        VIDEO_SETTINGS@.len() as int
    } else if p == 2 {
        AUDIO_SETTINGS@.len() as int
    } else if p == 3 {
        GUI_CUSTOMIZATION_SETTINGS@.len() as int
    } else if p == 4 {
        CUSTOM_ASSET_SETTINGS@.len() as int
    } else {
        0
    }
}

/// The page after this one: video, audio, GUI, assets, and back to video.
/// Any other screen stays.
pub open spec fn next_page(s: Screen) -> Screen {
    match s {
        Screen::VideoSettings => Screen::AudioSettings,
        Screen::AudioSettings => Screen::GuiSettings,
        Screen::GuiSettings => Screen::AssetSettings,
        Screen::AssetSettings => Screen::VideoSettings,
        _ => s,
    }
}

/// The page before this one.
pub open spec fn prev_page(s: Screen) -> Screen {
    match s {
        Screen::VideoSettings => Screen::AssetSettings,
        Screen::AudioSettings => Screen::VideoSettings,
        Screen::GuiSettings => Screen::AudioSettings,
        Screen::AssetSettings => Screen::GuiSettings,
        _ => s,
    }
}

/// Paging forward and then back returns to the same screen, and so does
/// paging back and then forward.
pub proof fn law_page_next_prev(s: Screen)
    ensures
        prev_page(next_page(s)) == s,
        next_page(prev_page(s)) == s,
{
}

/// Paging forward four times returns to the same page.
pub proof fn law_four_pages_round(s: Screen)
    ensures
        next_page(next_page(next_page(next_page(s)))) == s,
{
}

/// The option highlighted after the up, down and paging presses.
pub open spec fn nav_selection(st: SettingsState, i: InputState) -> int {
    let n = page_len(page_of(st.screen));
    let s1: int = if i.up {
        if st.selection == 0 {
            n - 1
        } else {
            st.selection - 1
        }
    } else {
        st.selection as int
    };
    let s2 = if i.down {
        (s1 + 1) % n
    } else {
        s1
    };
    if i.next || i.prev {
        0
    } else {
        s2
    }
}

/// The screen after the back and paging presses.
pub open spec fn nav_screen(st: SettingsState, i: InputState) -> Screen {
    let s1 = if i.back {
        Screen::MainMenu
    } else {
        st.screen
    };
    let s2 = if i.next {
        next_page(s1)
    } else {
        s1
    };
    if i.prev {
        prev_page(s2)
    } else {
        s2
    }
}

/// The page and highlighted option after the navigation presses.
pub open spec fn nav_state(st: SettingsState, i: InputState) -> SettingsState {
    SettingsState { screen: nav_screen(st, i), selection: nav_selection(st, i) as usize, ..st }
}


/// The sounds of the up, down, back and paging presses.
pub open spec fn nav_sounds(i: InputState) -> Seq<ActionView> {
    only_if(i.up, seq![ActionView::Play(Sound::CursorMove)])
        + only_if(i.down, seq![ActionView::Play(Sound::CursorMove)])
        + only_if(i.back, seq![ActionView::Play(Sound::Back)])
        + only_if(i.next, seq![ActionView::Play(Sound::Select)])
        + only_if(i.prev, seq![ActionView::Play(Sound::Select)])
}

fn play(v: &mut Vec<SettingsAction>, s: Sound)
    ensures
        action_views(final(v)@) == action_views(old(v)@).push(ActionView::Play(s)),
{
    v.push(SettingsAction::Play(s));
    proof {
        assert(action_views(final(v)@) =~= action_views(old(v)@).push(ActionView::Play(s)));
    }
}

fn push_action(v: &mut Vec<SettingsAction>, a: SettingsAction)
    ensures
        action_views(final(v)@) == action_views(old(v)@).push(a@),
{
    v.push(a);
    proof {
        assert(action_views(final(v)@) =~= action_views(old(v)@).push(a@));
    }
}

fn page_length(s: Screen) -> (n: usize)
    requires
        is_settings_screen(s),
    ensures
        n == page_len(page_of(s)),
        n > 0,
{
    match s {
        Screen::VideoSettings => VIDEO_SETTINGS.len(),
        Screen::AudioSettings => AUDIO_SETTINGS.len(),
        Screen::GuiSettings => GUI_CUSTOMIZATION_SETTINGS.len(),
        _ => CUSTOM_ASSET_SETTINGS.len(),
    }
}

fn next_page_exec(s: Screen) -> (r: Screen)
    ensures
        r == next_page(s),
{
    match s {
        Screen::VideoSettings => Screen::AudioSettings,
        Screen::AudioSettings => Screen::GuiSettings,
        Screen::GuiSettings => Screen::AssetSettings,
        Screen::AssetSettings => Screen::VideoSettings,
        other => other,
    }
}

fn prev_page_exec(s: Screen) -> (r: Screen)
    ensures
        r == prev_page(s),
{
    match s {
        Screen::VideoSettings => Screen::AssetSettings,
        Screen::AudioSettings => Screen::VideoSettings,
        Screen::GuiSettings => Screen::AudioSettings,
        Screen::AssetSettings => Screen::GuiSettings,
        other => other,
    }
}

fn nav_sounds_exec(input: &InputState) -> (acts: Vec<SettingsAction>)
    ensures
        action_views(acts@) == nav_sounds(*input),
{
    let mut acts: Vec<SettingsAction> = Vec::new();
    let ghost a0 = action_views(acts@);
    if input.up {
        play(&mut acts, Sound::CursorMove);
    }
    let ghost a1 = action_views(acts@);
    if input.down {
        play(&mut acts, Sound::CursorMove);
    }
    let ghost a2 = action_views(acts@);
    if input.back {
        play(&mut acts, Sound::Back);
    }
    let ghost a3 = action_views(acts@);
    if input.next {
        play(&mut acts, Sound::Select);
    }
    let ghost a4 = action_views(acts@);
    if input.prev {
        play(&mut acts, Sound::Select);
    }
    proof {
        assert(a0 =~= Seq::<ActionView>::empty());
        assert(a1 =~= only_if(input.up, seq![ActionView::Play(Sound::CursorMove)]));
        assert(a2 =~= a1 + only_if(input.down, seq![ActionView::Play(Sound::CursorMove)]));
        assert(a3 =~= a2 + only_if(input.back, seq![ActionView::Play(Sound::Back)]));
        assert(a4 =~= a3 + only_if(input.next, seq![ActionView::Play(Sound::Select)]));
        assert(action_views(acts@) =~= a4 + only_if(input.prev, seq![ActionView::Play(Sound::Select)]));
    }
    acts
}

/// The up, down, back and paging presses of one frame.
pub fn navigate(st: &mut SettingsState, input: &InputState) -> (acts: Vec<SettingsAction>)
    requires
        is_settings_screen(old(st).screen),
        old(st).selection < usize::MAX,
    ensures
        *final(st) == nav_state(*old(st), *input),
        action_views(acts@) == nav_sounds(*input),
{
    let n = page_length(st.screen);
    let mut sel = st.selection;
    if input.up {
        sel = if sel == 0 {
            n - 1
        } else {
            sel - 1
        };
    }
    if input.down {
        sel = (sel + 1) % n;
    }
    let mut screen = st.screen;
    if input.back {
        screen = Screen::MainMenu;
    }
    if input.next {
        sel = 0;
        screen = next_page_exec(screen);
    }
    if input.prev {
        sel = 0;
        screen = prev_page_exec(screen);
    }
    st.selection = sel;
    st.screen = screen;
    nav_sounds_exec(input)
}

/// Nothing changes and nothing is asked.
pub open spec fn unchanged(s0: SettingsState, s1: SettingsState, c0: Config, c1: Config, acts: Seq<SettingsAction>) -> bool {
    s1 == s0 && c1 == c0 && acts.len() == 0
}

/// A select press that opens another page at its first option.
pub open spec fn opens_page(
    i: InputState,
    target: Screen,
    s0: SettingsState,
    s1: SettingsState,
    c0: Config,
    c1: Config,
    acts: Seq<SettingsAction>,
) -> bool {
    if i.select {
        s1 == SettingsState { screen: target, selection: 0, ..s0 } && c1 == c0 && action_views(acts)
            == seq![ActionView::Play(Sound::Select)]
    } else {
        unchanged(s0, s1, c0, c1, acts)
    }
}

/// The entry of a fixed list reached by left/right from `current`.
pub open spec fn cycled(names: Seq<&str>, current: Seq<char>, left: bool, right: bool) -> Seq<char> {
    names[cycle(index_or_zero(str_views(names), current), names.len() as int, left, right)]@
}

/// A left press steps one way and a right press the other, each followed by
/// the cursor sound.
pub open spec fn stepped(left: bool, right: bool, down: ActionView, up: ActionView) -> Seq<ActionView> {
    only_if(left, seq![down, ActionView::Play(Sound::CursorMove)]) + only_if(
        right,
        seq![up, ActionView::Play(Sound::CursorMove)],
    )
}

/// Save the settings and play the cursor sound.
pub open spec fn saved_with_cursor() -> Seq<ActionView> {
    seq![ActionView::SaveConfig, ActionView::Play(Sound::CursorMove)]
}

/// What an option of the video page does.
pub open spec fn video_row(
    sel: int,
    i: InputState,
    s0: SettingsState,
    s1: SettingsState,
    c0: Config,
    c1: Config,
    acts: Seq<SettingsAction>,
) -> bool {
    let lr = i.left || i.right;
    if sel == 0 {
        if i.select {
            s1 == SettingsState { screen: Screen::ConfirmReset, confirm_selection: 1, ..s0 } && c1 == c0
                && action_views(acts) == seq![ActionView::Play(Sound::Select)]
        } else {
            unchanged(s0, s1, c0, c1, acts)
        }
    } else if sel == 1 {
        if lr {
            s1 == s0 && c1 == Config { resolution: c1.resolution, ..c0 } && c1.resolution@ == cycled(
                RESOLUTIONS@,
                c0.resolution@,
                i.left,
                i.right,
            ) && action_views(acts) == seq![
                ActionView::SaveConfig,
                ActionView::ApplyResolution,
                ActionView::Play(Sound::CursorMove),
            ]
        } else {
            unchanged(s0, s1, c0, c1, acts)
        }
    } else if sel == 2 {
        if lr {
            s1 == SettingsState { display_settings_changed: true, ..s0 } && c1 == Config {
                fullscreen: !c0.fullscreen,
                ..c0
            } && action_views(acts) == saved_with_cursor()
        } else {
            unchanged(s0, s1, c0, c1, acts)
        }
    } else if sel == 3 {
        if lr {
            s1 == s0 && c1 == Config { show_splash_screen: !c0.show_splash_screen, ..c0 }
                && action_views(acts) == saved_with_cursor()
        } else {
            unchanged(s0, s1, c0, c1, acts)
        }
    } else if sel == 4 {
        match first_index(str_views(TIMEZONES@), c0.timezone@) {
            Some(k) => if lr {
                s1 == s0 && c1 == Config { timezone: c1.timezone, ..c0 } && c1.timezone@
                    == TIMEZONES@[cycle(k, TIMEZONES@.len() as int, i.left, i.right)]@
                    && action_views(acts) == seq![
                    ActionView::Play(Sound::CursorMove),
                    ActionView::SaveConfig,
                ]
            } else {
                unchanged(s0, s1, c0, c1, acts)
            },
            None => unchanged(s0, s1, c0, c1, acts),
        }
    } else if sel == 5 {
        s1 == s0 && c1 == c0 && action_views(acts) == stepped(
            i.left,
            i.right,
            ActionView::StepBrightness(false),
            ActionView::StepBrightness(true),
        )
    } else if sel == 6 {
        opens_page(i, Screen::AudioSettings, s0, s1, c0, c1, acts)
    } else {
        unchanged(s0, s1, c0, c1, acts)
    }
}

fn stepped_exec(left: bool, right: bool, down: SettingsAction, up: SettingsAction) -> (acts: Vec<SettingsAction>)
    ensures
        action_views(acts@) == stepped(left, right, down@, up@),
{
    let mut acts: Vec<SettingsAction> = Vec::new();
    if left {
        push_action(&mut acts, down);
        play(&mut acts, Sound::CursorMove);
    }
    let ghost a1 = action_views(acts@);
    if right {
        push_action(&mut acts, up);
        play(&mut acts, Sound::CursorMove);
    }
    proof {
        assert(a1 =~= only_if(left, seq![down@, ActionView::Play(Sound::CursorMove)]));
        assert(action_views(acts@) =~= a1 + only_if(right, seq![up@, ActionView::Play(Sound::CursorMove)]));
    }
    acts
}

fn select_opens(st: &mut SettingsState, input: &InputState, target: Screen) -> (acts: Vec<SettingsAction>)
    ensures
        input.select ==> *final(st) == (SettingsState { screen: target, selection: 0, ..*old(st) })
            && action_views(acts@) == seq![ActionView::Play(Sound::Select)],
        !input.select ==> *final(st) == *old(st) && acts.len() == 0,
{
    let mut acts: Vec<SettingsAction> = Vec::new();
    if input.select {
        st.screen = target;
        st.selection = 0;
        play(&mut acts, Sound::Select);
        proof {
            assert(action_views(acts@) =~= seq![ActionView::Play(Sound::Select)]);
        }
    }
    acts
}

fn saved_with_cursor_exec() -> (acts: Vec<SettingsAction>)
    ensures
        action_views(acts@) == saved_with_cursor(),
{
    let mut acts: Vec<SettingsAction> = Vec::new();
    push_action(&mut acts, SettingsAction::SaveConfig);
    play(&mut acts, Sound::CursorMove);
    assert(action_views(acts@) =~= saved_with_cursor());
    acts
}

/// One frame of input on the video page, at option `sel`.
pub fn video_update(sel: usize, st: &mut SettingsState, input: &InputState, config: &mut Config) -> (acts: Vec<SettingsAction>)
    ensures
        video_row(sel as int, *input, *old(st), *final(st), *old(config), *final(config), acts@),
{
    let lr = input.left || input.right;
    if sel == 0 {
        let mut acts: Vec<SettingsAction> = Vec::new();
        if input.select {
            play(&mut acts, Sound::Select);
            st.confirm_selection = 1;
            st.screen = Screen::ConfirmReset;
            assert(action_views(acts@) =~= seq![ActionView::Play(Sound::Select)]);
        }
        acts
    } else if sel == 1 {
        let mut acts: Vec<SettingsAction> = Vec::new();
        if lr {
            let k = cycle_name(&RESOLUTIONS, config.resolution.as_str(), input.left, input.right);
            config.resolution = String::from_str(RESOLUTIONS[k]);
            push_action(&mut acts, SettingsAction::SaveConfig);
            push_action(&mut acts, SettingsAction::ApplyResolution);
            play(&mut acts, Sound::CursorMove);
            assert(action_views(acts@) =~= seq![
                ActionView::SaveConfig,
                ActionView::ApplyResolution,
                ActionView::Play(Sound::CursorMove),
            ]);
        }
        acts
    } else if sel == 2 {
        if lr {
            config.fullscreen = !config.fullscreen;
            st.display_settings_changed = true;
            saved_with_cursor_exec()
        } else {
            Vec::new()
        }
    } else if sel == 3 {
        if lr {
            config.show_splash_screen = !config.show_splash_screen;
            saved_with_cursor_exec()
        } else {
            Vec::new()
        }
    } else if sel == 4 {
        let mut acts: Vec<SettingsAction> = Vec::new();
        match position_in_names(&TIMEZONES, config.timezone.as_str()) {
            Some(k) => {
                if lr {
                    let j = cycle_index(k, TIMEZONES.len(), input.left, input.right);
                    config.timezone = String::from_str(TIMEZONES[j]);
                    play(&mut acts, Sound::CursorMove);
                    push_action(&mut acts, SettingsAction::SaveConfig);
                    assert(action_views(acts@) =~= seq![
                        ActionView::Play(Sound::CursorMove),
                        ActionView::SaveConfig,
                    ]);
                }
            },
            None => {},
        }
        acts
    } else if sel == 5 {
        stepped_exec(
            input.left,
            input.right,
            SettingsAction::StepBrightness(false),
            SettingsAction::StepBrightness(true),
        )
    } else if sel == 6 {
        select_opens(st, input, Screen::AudioSettings)
    } else {
        Vec::new()
    }
}

/// The names of the audio outputs.
pub open spec fn sink_names(s: Seq<AudioSink>) -> Seq<Seq<char>> {
    s.map_values(|k: AudioSink| k.name@)
}

/// Position of the first output with this name, or 0 when there is none.
pub fn sink_position(sinks: &Vec<AudioSink>, name: &str) -> (r: usize)
    ensures
        r == index_or_zero(sink_names(sinks@), name@),
{
    let ghost v = sink_names(sinks@);
    proof {
        crate::nav::lemma_index_or_zero_first(v, name@);
    }
    let mut i: usize = 0;
    while i < sinks.len()
        invariant
            0 <= i <= sinks.len(),
            v == sink_names(sinks@),
            forall|j: int| 0 <= j < i ==> v[j] != name@,
            index_or_zero(v, name@) == match first_index(v, name@) {
                Some(k) => k,
                None => 0,
            },
        decreases sinks.len() - i,
    {
        if crate::text::str_eq(sinks[i].name.as_str(), name) {
            proof {
                assert(v[i as int] == name@);
                crate::nav::lemma_first_exists(v, name@, i as int);
                let k = choose|k: int|
                    0 <= k < v.len() && v[k] == name@ && forall|j: int| 0 <= j < k ==> v[j] != name@;
                if k < i {
                } else if k > i {
                    assert(v[i as int] != name@);
                }
            }
            return i;
        }
        i = i + 1;
    }
    0
}

/// What an option of the audio page does.
pub open spec fn audio_row(
    sel: int,
    i: InputState,
    sinks: Seq<AudioSink>,
    s0: SettingsState,
    s1: SettingsState,
    c0: Config,
    c1: Config,
    acts: Seq<SettingsAction>,
) -> bool {
    let lr = i.left || i.right;
    if sel == 0 {
        s1 == s0 && c1 == c0 && action_views(acts) == stepped(
            i.left,
            i.right,
            ActionView::StepSystemVolume(false),
            ActionView::StepSystemVolume(true),
        )
    } else if sel == 1 {
        if lr {
            s1 == s0 && c1 == c0 && action_views(acts) == only_if(
                i.left,
                seq![ActionView::StepBgmVolume(false)],
            ) + only_if(i.right, seq![ActionView::StepBgmVolume(true)]) + seq![
                ActionView::ApplyBgmVolume,
                ActionView::SaveConfig,
                ActionView::Play(Sound::CursorMove),
            ]
        } else {
            unchanged(s0, s1, c0, c1, acts)
        }
    } else if sel == 2 {
        if lr {
            s1 == s0 && c1 == c0 && action_views(acts) == only_if(
                i.left,
                seq![ActionView::StepSfxVolume(false)],
            ) + only_if(i.right, seq![ActionView::StepSfxVolume(true)]) + saved_with_cursor()
        } else {
            unchanged(s0, s1, c0, c1, acts)
        }
    } else if sel == 3 {
        let cur = index_or_zero(sink_names(sinks), c0.audio_output@);
        let new = cycle(cur, sinks.len() as int, i.left, i.right);
        if sinks.len() > 0 && new != cur {
            s1 == s0 && c1 == Config { audio_output: c1.audio_output, ..c0 } && c1.audio_output@
                == sinks[new].name@ && action_views(acts) == seq![
                ActionView::SetDefaultSink(sinks[new].id),
                ActionView::Play(Sound::CursorMove),
            ]
        } else {
            unchanged(s0, s1, c0, c1, acts)
        }
    } else if sel == 4 {
        opens_page(i, Screen::VideoSettings, s0, s1, c0, c1, acts)
    } else if sel == 5 {
        opens_page(i, Screen::GuiSettings, s0, s1, c0, c1, acts)
    } else {
        unchanged(s0, s1, c0, c1, acts)
    }
}

fn volume_steps(left: bool, right: bool, down: SettingsAction, up: SettingsAction) -> (acts: Vec<SettingsAction>)
    ensures
        action_views(acts@) == only_if(left, seq![down@]) + only_if(right, seq![up@]),
{
    let mut acts: Vec<SettingsAction> = Vec::new();
    if left {
        push_action(&mut acts, down);
    }
    let ghost a1 = action_views(acts@);
    if right {
        push_action(&mut acts, up);
    }
    proof {
        assert(a1 =~= only_if(left, seq![down@]));
        assert(action_views(acts@) =~= a1 + only_if(right, seq![up@]));
    }
    acts
}

fn sink_update(input: &InputState, config: &mut Config, sinks: &Vec<AudioSink>) -> (acts: Vec<SettingsAction>)
    ensures
        ({
            let cur = index_or_zero(sink_names(sinks@), old(config).audio_output@);
            let new = cycle(cur, sinks.len() as int, input.left, input.right);
            if sinks.len() > 0 && new != cur {
                *final(config) == (Config { audio_output: final(config).audio_output, ..*old(config) })
                    && final(config).audio_output@ == sinks@[new].name@ && action_views(acts@) == seq![
                    ActionView::SetDefaultSink(sinks@[new].id),
                    ActionView::Play(Sound::CursorMove),
                ]
            } else {
                *final(config) == *old(config) && acts.len() == 0
            }
        }),
{
    let mut acts: Vec<SettingsAction> = Vec::new();
    if sinks.len() > 0 {
        let cur = sink_position(sinks, config.audio_output.as_str());
        proof {
            crate::nav::lemma_index_or_zero_first(sink_names(sinks@), config.audio_output@);
        }
        let new = cycle_index(cur, sinks.len(), input.left, input.right);
        if new != cur {
            config.audio_output = sinks[new].name.clone();
            push_action(&mut acts, SettingsAction::SetDefaultSink(sinks[new].id));
            play(&mut acts, Sound::CursorMove);
            assert(action_views(acts@) =~= seq![
                ActionView::SetDefaultSink(sinks@[new as int].id),
                ActionView::Play(Sound::CursorMove),
            ]);
        }
    }
    acts
}

fn bgm_volume_update(input: &InputState) -> (acts: Vec<SettingsAction>)
    ensures
        action_views(acts@) == only_if(input.left, seq![ActionView::StepBgmVolume(false)]) + only_if(
            input.right,
            seq![ActionView::StepBgmVolume(true)],
        ) + seq![
            ActionView::ApplyBgmVolume,
            ActionView::SaveConfig,
            ActionView::Play(Sound::CursorMove),
        ],
{
    let mut acts = volume_steps(
        input.left,
        input.right,
        SettingsAction::StepBgmVolume(false),
        SettingsAction::StepBgmVolume(true),
    );
    let ghost a0 = action_views(acts@);
    push_action(&mut acts, SettingsAction::ApplyBgmVolume);
    push_action(&mut acts, SettingsAction::SaveConfig);
    play(&mut acts, Sound::CursorMove);
    assert(action_views(acts@) =~= a0 + seq![
        ActionView::ApplyBgmVolume,
        ActionView::SaveConfig,
        ActionView::Play(Sound::CursorMove),
    ]);
    acts
}

fn sfx_volume_update(input: &InputState) -> (acts: Vec<SettingsAction>)
    ensures
        action_views(acts@) == only_if(input.left, seq![ActionView::StepSfxVolume(false)]) + only_if(
            input.right,
            seq![ActionView::StepSfxVolume(true)],
        ) + saved_with_cursor(),
{
    let mut acts = volume_steps(
        input.left,
        input.right,
        SettingsAction::StepSfxVolume(false),
        SettingsAction::StepSfxVolume(true),
    );
    let ghost a0 = action_views(acts@);
    push_action(&mut acts, SettingsAction::SaveConfig);
    play(&mut acts, Sound::CursorMove);
    assert(action_views(acts@) =~= a0 + saved_with_cursor());
    acts
}

/// One frame of input on the audio page, at option `sel`.
pub fn audio_update(
    sel: usize,
    st: &mut SettingsState,
    input: &InputState,
    config: &mut Config,
    sinks: &Vec<AudioSink>,
) -> (acts: Vec<SettingsAction>)
    ensures
        audio_row(sel as int, *input, sinks@, *old(st), *final(st), *old(config), *final(config), acts@),
{
    let lr = input.left || input.right;
    if sel == 0 {
        stepped_exec(
            input.left,
            input.right,
            SettingsAction::StepSystemVolume(false),
            SettingsAction::StepSystemVolume(true),
        )
    } else if sel == 1 {
        if lr {
            bgm_volume_update(input)
        } else {
            Vec::new()
        }
    } else if sel == 2 {
        if lr {
            sfx_volume_update(input)
        } else {
            Vec::new()
        }
    } else if sel == 3 {
        sink_update(input, config, sinks)
    } else if sel == 4 {
        select_opens(st, input, Screen::VideoSettings)
    } else if sel == 5 {
        select_opens(st, input, Screen::GuiSettings)
    } else {
        Vec::new()
    }
}

/// The music track the settings name, or `"OFF"`.
pub open spec fn track_or_off(c: Config) -> Seq<char> {
    match c.bgm_track {
        Some(t) => t@,
        None => "OFF"@,
    }
}

/// The theme reached by left/right from the current one.
pub open spec fn cycled_theme(themes: Seq<String>, current: Seq<char>, left: bool, right: bool) -> Seq<char> {
    themes[cycle(index_or_zero(views(themes), current), themes.len() as int, left, right)]@
}

/// What an option of the GUI customization page does.
pub open spec fn gui_row(
    sel: int,
    i: InputState,
    themes: Seq<String>,
    loaded: Seq<NamedTheme>,
    s0: SettingsState,
    s1: SettingsState,
    c0: Config,
    c1: Config,
    acts: Seq<SettingsAction>,
) -> bool {
    let lr = i.left || i.right;
    if sel == 0 {
        let name = cycled_theme(themes, c0.theme@, i.left, i.right);
        let found = theme_lookup(loaded, name);
        if lr && themes.len() > 0 && c0.theme@ != name {
            s1 == s0 && theme_switched(c0, c1, name, found) && action_views(acts) == only_if(
                found is Some,
                seq![ActionView::UseThemeSounds(name)],
            ) + seq![
                ActionView::PlayBgm(track_or_off(c1)),
                ActionView::Play(Sound::CursorMove),
                ActionView::SaveConfig,
            ]
        } else {
            unchanged(s0, s1, c0, c1, acts)
        }
    } else if sel == 1 {
        let p1 = if i.left {
            c0.menu_position.spec_prev()
        } else {
            c0.menu_position
        };
        let p2 = if i.right {
            p1.spec_next()
        } else {
            p1
        };
        s1 == s0 && c1 == Config { menu_position: p2, ..c0 } && action_views(acts) == only_if(
            i.left,
            saved_with_cursor(),
        ) + only_if(i.right, saved_with_cursor())
    } else if sel == 2 {
        if lr {
            s1 == s0 && c1 == Config { font_color: c1.font_color, ..c0 } && c1.font_color@ == cycled(
                FONT_COLORS@,
                c0.font_color@,
                i.left,
                i.right,
            ) && action_views(acts) == saved_with_cursor()
        } else {
            unchanged(s0, s1, c0, c1, acts)
        }
    } else if sel == 3 {
        if lr {
            s1 == s0 && c1 == Config { cursor_color: c1.cursor_color, ..c0 } && c1.cursor_color@
                == cycled(FONT_COLORS@, c0.cursor_color@, i.left, i.right) && action_views(acts)
                == saved_with_cursor()
        } else {
            unchanged(s0, s1, c0, c1, acts)
        }
    } else if sel == 4 {
        if lr {
            s1 == s0 && c1 == Config { background_scroll_speed: c1.background_scroll_speed, ..c0 }
                && c1.background_scroll_speed@ == cycled(
                SCROLL_SPEEDS@,
                c0.background_scroll_speed@,
                i.left,
                i.right,
            ) && action_views(acts) == saved_with_cursor()
        } else {
            unchanged(s0, s1, c0, c1, acts)
        }
    } else if sel == 5 {
        if lr {
            s1 == s0 && c1 == Config { color_shift_speed: c1.color_shift_speed, ..c0 }
                && c1.color_shift_speed@ == cycled(
                COLOR_SHIFT_SPEEDS@,
                c0.color_shift_speed@,
                i.left,
                i.right,
            ) && action_views(acts) == saved_with_cursor()
        } else {
            unchanged(s0, s1, c0, c1, acts)
        }
    } else if sel == 6 {
        opens_page(i, Screen::AudioSettings, s0, s1, c0, c1, acts)
    } else if sel == 7 {
        opens_page(i, Screen::AssetSettings, s0, s1, c0, c1, acts)
    } else {
        unchanged(s0, s1, c0, c1, acts)
    }
}

/// Left/right on the theme option: switch to the neighbouring theme, use its
/// sounds, play its music, and save.
fn theme_update(input: &InputState, config: &mut Config, choices: &SettingsChoices) -> (acts: Vec<SettingsAction>)
    ensures
        ({
            let name = cycled_theme(choices.themes@, old(config).theme@, input.left, input.right);
            let found = theme_lookup(choices.loaded_themes@, name);
            if (input.left || input.right) && choices.themes.len() > 0 && old(config).theme@ != name {
                theme_switched(*old(config), *final(config), name, found) && action_views(acts@)
                    == only_if(found is Some, seq![ActionView::UseThemeSounds(name)]) + seq![
                    ActionView::PlayBgm(track_or_off(*final(config))),
                    ActionView::Play(Sound::CursorMove),
                    ActionView::SaveConfig,
                ]
            } else {
                *final(config) == *old(config) && acts.len() == 0
            }
        }),
{
    let mut acts: Vec<SettingsAction> = Vec::new();
    if !(input.left || input.right) || choices.themes.len() == 0 {
        return acts;
    }
    let k = cycle_choice(&choices.themes, config.theme.as_str(), input.left, input.right);
    let name = choices.themes[k].as_str();
    let found = find_theme(&choices.loaded_themes, name);
    let changed = switch_theme(config, name, found);
    if !changed {
        return acts;
    }
    let ghost a0 = action_views(acts@);
    match found {
        Some(_) => push_action(&mut acts, SettingsAction::UseThemeSounds(String::from_str(name))),
        None => {},
    }
    let ghost a1 = action_views(acts@);
    let track = match &config.bgm_track {
        Some(t) => t.clone(),
        None => String::from_str("OFF"),
    };
    push_action(&mut acts, SettingsAction::PlayBgm(track));
    play(&mut acts, Sound::CursorMove);
    push_action(&mut acts, SettingsAction::SaveConfig);
    proof {
        assert(a1 =~= only_if(found is Some, seq![ActionView::UseThemeSounds(name@)]));
        assert(action_views(acts@) =~= a1 + seq![
            ActionView::PlayBgm(track_or_off(*config)),
            ActionView::Play(Sound::CursorMove),
            ActionView::SaveConfig,
        ]);
    }
    acts
}

fn named_cycle(field: &mut String, names: &[&str], left: bool, right: bool) -> (acts: Vec<SettingsAction>)
    requires
        names.len() > 0,
    ensures
        final(field)@ == cycled(names@, old(field)@, left, right),
        action_views(acts@) == saved_with_cursor(),
{
    let k = cycle_name(names, field.as_str(), left, right);
    *field = String::from_str(names[k]);
    saved_with_cursor_exec()
}

/// One frame of input on the GUI customization page, at option `sel`.
pub fn gui_update(
    sel: usize,
    st: &mut SettingsState,
    input: &InputState,
    config: &mut Config,
    choices: &SettingsChoices,
) -> (acts: Vec<SettingsAction>)
    ensures
        gui_row(
            sel as int,
            *input,
            choices.themes@,
            choices.loaded_themes@,
            *old(st),
            *final(st),
            *old(config),
            *final(config),
            acts@,
        ),
{
    let lr = input.left || input.right;
    if sel == 0 {
        theme_update(input, config, choices)
    } else if sel == 1 {
        let mut acts: Vec<SettingsAction> = Vec::new();
        if input.left {
            config.menu_position = config.menu_position.prev();
            push_action(&mut acts, SettingsAction::SaveConfig);
            play(&mut acts, Sound::CursorMove);
        }
        let ghost a1 = action_views(acts@);
        if input.right {
            config.menu_position = config.menu_position.next();
            push_action(&mut acts, SettingsAction::SaveConfig);
            play(&mut acts, Sound::CursorMove);
        }
        proof {
            assert(a1 =~= only_if(input.left, saved_with_cursor()));
            assert(action_views(acts@) =~= a1 + only_if(input.right, saved_with_cursor()));
        }
        acts
    } else if sel == 2 {
        if lr {
            named_cycle(&mut config.font_color, &FONT_COLORS, input.left, input.right)
        } else {
            Vec::new()
        }
    } else if sel == 3 {
        if lr {
            named_cycle(&mut config.cursor_color, &FONT_COLORS, input.left, input.right)
        } else {
            Vec::new()
        }
    } else if sel == 4 {
        if lr {
            named_cycle(&mut config.background_scroll_speed, &SCROLL_SPEEDS, input.left, input.right)
        } else {
            Vec::new()
        }
    } else if sel == 5 {
        if lr {
            named_cycle(&mut config.color_shift_speed, &COLOR_SHIFT_SPEEDS, input.left, input.right)
        } else {
            Vec::new()
        }
    } else if sel == 6 {
        select_opens(st, input, Screen::AudioSettings)
    } else if sel == 7 {
        select_opens(st, input, Screen::AssetSettings)
    } else {
        Vec::new()
    }
}

/// The entry of a list of choices reached by left/right from `current`.
pub open spec fn cycled_choice(list: Seq<String>, current: Seq<char>, left: bool, right: bool) -> Seq<char> {
    list[cycle(index_or_zero(views(list), current), list.len() as int, left, right)]@
}

/// What an option of the custom assets page does.
pub open spec fn asset_row(
    sel: int,
    i: InputState,
    ch: SettingsChoices,
    s0: SettingsState,
    s1: SettingsState,
    c0: Config,
    c1: Config,
    acts: Seq<SettingsAction>,
) -> bool {
    let lr = i.left || i.right;
    if sel == 0 {
        if lr {
            let t = cycled_choice(ch.bgm@, track_or_off(c0), i.left, i.right);
            s1 == s0 && c1 == Config { bgm_track: c1.bgm_track, ..c0 } && (if t == "OFF"@ {
                c1.bgm_track is None
            } else {
                c1.bgm_track matches Some(x) && x@ == t
            }) && action_views(acts) == seq![
                ActionView::PlayBgm(t),
                ActionView::SaveConfig,
                ActionView::Play(Sound::CursorMove),
            ]
        } else {
            unchanged(s0, s1, c0, c1, acts)
        }
    } else if sel == 1 {
        let p = cycled_choice(ch.sound_packs@, c0.sfx_pack@, i.left, i.right);
        if lr && c0.sfx_pack@ != p {
            s1 == s0 && c1 == Config { sfx_pack: c1.sfx_pack, ..c0 } && c1.sfx_pack@ == p
                && action_views(acts) == seq![ActionView::ReloadSfxPack(p), ActionView::SaveConfig]
        } else {
            unchanged(s0, s1, c0, c1, acts)
        }
    } else if sel == 2 {
        if lr {
            s1 == s0 && c1 == Config { logo_selection: c1.logo_selection, ..c0 } && c1.logo_selection@
                == cycled_choice(ch.logos@, c0.logo_selection@, i.left, i.right) && action_views(acts)
                == saved_with_cursor()
        } else {
            unchanged(s0, s1, c0, c1, acts)
        }
    } else if sel == 3 {
        if lr {
            s1 == s0 && c1 == Config { background_selection: c1.background_selection, ..c0 }
                && c1.background_selection@ == cycled_choice(
                ch.backgrounds@,
                c0.background_selection@,
                i.left,
                i.right,
            ) && action_views(acts) == saved_with_cursor()
        } else {
            unchanged(s0, s1, c0, c1, acts)
        }
    } else if sel == 4 {
        if lr {
            s1 == s0 && c1 == Config { font_selection: c1.font_selection, ..c0 } && c1.font_selection@
                == cycled_choice(ch.fonts@, c0.font_selection@, i.left, i.right) && action_views(acts)
                == saved_with_cursor()
        } else {
            unchanged(s0, s1, c0, c1, acts)
        }
    } else if sel == 5 {
        opens_page(i, Screen::GuiSettings, s0, s1, c0, c1, acts)
    } else {
        unchanged(s0, s1, c0, c1, acts)
    }
}

/// The lists an option cycles through are not empty where a left/right
/// press reaches them.
pub open spec fn choices_cover(page: int, sel: int, i: InputState, ch: SettingsChoices) -> bool {
    (page == 4 && (i.left || i.right)) ==> {
        &&& sel == 0 ==> ch.bgm.len() > 0
        &&& sel == 1 ==> ch.sound_packs.len() > 0
        &&& sel == 2 ==> ch.logos.len() > 0
        &&& sel == 3 ==> ch.backgrounds.len() > 0
        &&& sel == 4 ==> ch.fonts.len() > 0
    }
}

fn choice_cycle(field: &mut String, list: &Vec<String>, left: bool, right: bool) -> (acts: Vec<SettingsAction>)
    requires
        list.len() > 0,
    ensures
        final(field)@ == cycled_choice(list@, old(field)@, left, right),
        action_views(acts@) == saved_with_cursor(),
{
    let k = cycle_choice(list, field.as_str(), left, right);
    *field = list[k].clone();
    saved_with_cursor_exec()
}

/// One frame of input on the custom assets page, at option `sel`.
pub fn asset_update(
    sel: usize,
    st: &mut SettingsState,
    input: &InputState,
    config: &mut Config,
    choices: &SettingsChoices,
) -> (acts: Vec<SettingsAction>)
    requires
        choices_cover(4, sel as int, *input, *choices),
    ensures
        asset_row(sel as int, *input, *choices, *old(st), *final(st), *old(config), *final(config), acts@),
{
    let lr = input.left || input.right;
    if sel == 0 {
        let mut acts: Vec<SettingsAction> = Vec::new();
        if lr {
            let current = match &config.bgm_track {
                Some(t) => t.clone(),
                None => String::from_str("OFF"),
            };
            let k = cycle_choice(&choices.bgm, current.as_str(), input.left, input.right);
            let t = &choices.bgm[k];
            push_action(&mut acts, SettingsAction::PlayBgm(t.clone()));
            if crate::text::str_eq(t.as_str(), "OFF") {
                config.bgm_track = None;
            } else {
                config.bgm_track = Some(t.clone());
            }
            push_action(&mut acts, SettingsAction::SaveConfig);
            play(&mut acts, Sound::CursorMove);
            assert(action_views(acts@) =~= seq![
                ActionView::PlayBgm(t@),
                ActionView::SaveConfig,
                ActionView::Play(Sound::CursorMove),
            ]);
        }
        acts
    } else if sel == 1 {
        let mut acts: Vec<SettingsAction> = Vec::new();
        if lr {
            let k = cycle_choice(&choices.sound_packs, config.sfx_pack.as_str(), input.left, input.right);
            let p = &choices.sound_packs[k];
            if !crate::text::str_eq(config.sfx_pack.as_str(), p.as_str()) {
                config.sfx_pack = p.clone();
                push_action(&mut acts, SettingsAction::ReloadSfxPack(p.clone()));
                push_action(&mut acts, SettingsAction::SaveConfig);
                assert(action_views(acts@) =~= seq![
                    ActionView::ReloadSfxPack(p@),
                    ActionView::SaveConfig,
                ]);
            }
        }
        acts
    } else if sel == 2 {
        if lr {
            choice_cycle(&mut config.logo_selection, &choices.logos, input.left, input.right)
        } else {
            Vec::new()
        }
    } else if sel == 3 {
        if lr {
            choice_cycle(&mut config.background_selection, &choices.backgrounds, input.left, input.right)
        } else {
            Vec::new()
        }
    } else if sel == 4 {
        if lr {
            choice_cycle(&mut config.font_selection, &choices.fonts, input.left, input.right)
        } else {
            Vec::new()
        }
    } else if sel == 5 {
        select_opens(st, input, Screen::GuiSettings)
    } else {
        Vec::new()
    }
}

/// What the option `sel` of page `page` does.
pub open spec fn row_done(
    page: int,
    sel: int,
    i: InputState,
    ch: SettingsChoices,
    s0: SettingsState,
    s1: SettingsState,
    c0: Config,
    c1: Config,
    acts: Seq<SettingsAction>,
) -> bool {
    if page == 1 {
        video_row(sel, i, s0, s1, c0, c1, acts)
    } else if page == 2 {
        audio_row(sel, i, ch.sinks@, s0, s1, c0, c1, acts)
    } else if page == 3 {
        gui_row(sel, i, ch.themes@, ch.loaded_themes@, s0, s1, c0, c1, acts)
    } else {
        asset_row(sel, i, ch, s0, s1, c0, c1, acts)
    }
}

/// Whether `update` may be called: the screen is a settings page, the
/// selection can step, and the lists reached are not empty.
pub open spec fn update_ready(st: SettingsState, i: InputState, ch: SettingsChoices) -> bool {
    &&& is_settings_screen(st.screen)
    &&& st.selection < usize::MAX
    &&& choices_cover(page_of(st.screen), nav_selection(st, i), i, ch)
}

/// One frame of input on a settings page. First the up/down presses move
/// the highlight (wrapping), back returns to the main menu, and the paging
/// presses turn to the next or previous page at its first option; then the
/// highlighted option of the page the frame started on reacts to left,
/// right and select. Returns what the rest of the BIOS must do, in order.
pub fn update(
    st: &mut SettingsState,
    input: &InputState,
    config: &mut Config,
    choices: &SettingsChoices,
) -> (acts: Vec<SettingsAction>)
    requires
        update_ready(*old(st), *input, *choices),
    ensures
        acts@.len() >= nav_sounds(*input).len(),
        action_views(acts@).take(nav_sounds(*input).len() as int) == nav_sounds(*input),
        row_done(
            page_of(old(st).screen),
            nav_selection(*old(st), *input),
            *input,
            *choices,
            nav_state(*old(st), *input),
            *final(st),
            *old(config),
            *final(config),
            acts@.skip(nav_sounds(*input).len() as int),
        ),
{
    let page = st.screen;
    let mut acts = navigate(st, input);
    let ghost nav = acts@;
    let sel = st.selection;
    let rest = match page {
        Screen::VideoSettings => video_update(sel, st, input, config),
        Screen::AudioSettings => audio_update(sel, st, input, config, &choices.sinks),
        Screen::GuiSettings => gui_update(sel, st, input, config, choices),
        _ => asset_update(sel, st, input, config, choices),
    };
    let ghost r = rest@;
    let mut rest = rest;
    acts.append(&mut rest);
    proof {
        assert(acts@ == nav + r);
        assert(acts@.skip(nav.len() as int) =~= r);
        assert(action_views(acts@).take(nav.len() as int) =~= action_views(nav));
    }
    acts
}

/// Tests what `update` requires.
pub fn update_ready_exec(st: &SettingsState, input: &InputState, choices: &SettingsChoices) -> (b: bool)
    ensures
        b == update_ready(*st, *input, *choices),
{
    let page = match st.screen {
        Screen::VideoSettings => 1u8,
        Screen::AudioSettings => 2u8,
        Screen::GuiSettings => 3u8,
        Screen::AssetSettings => 4u8,
        _ => 0u8,
    };
    if page == 0 || st.selection == usize::MAX {
        return false;
    }
    let mut probe = *st;
    let _ = navigate(&mut probe, input);
    let sel = probe.selection;
    if page == 4 && (input.left || input.right) {
        if sel == 0 {
            choices.bgm.len() > 0
        } else if sel == 1 {
            choices.sound_packs.len() > 0
        } else if sel == 2 {
            choices.logos.len() > 0
        } else if sel == 3 {
            choices.backgrounds.len() > 0
        } else if sel == 4 {
            choices.fonts.len() > 0
        } else {
            true
        }
    } else {
        true
    }
}

/// `ON` or `OFF`.
pub open spec fn on_off(b: bool) -> Seq<char> {
    if b {
        "ON"@
    } else {
        "OFF"@
    }
}

/// A percentage as the pages show it.
pub open spec fn percent(p: nat) -> Seq<char> {
    dec_digits(p) + "%"@
}

/// A name shown upper-case, with its underscores as spaces.
pub open spec fn shown_name(s: Seq<char>) -> Seq<char> {
    upper_of(replace_char(s, '_', ' '))
}

/// The value shown beside option `index` of page `page`; the volumes and
/// the brightness come as whole percentages.
pub open spec fn settings_value(
    page: int,
    index: int,
    c: Config,
    system_volume: nat,
    brightness: nat,
    bgm_volume: nat,
    sfx_volume: nat,
) -> Seq<char> {
    if page == 1 {
        if index == 0 {
            "CONFIRM"@
        } else if index == 1 {
            c.resolution@
        } else if index == 2 {
            on_off(c.fullscreen)
        } else if index == 3 {
            on_off(c.show_splash_screen)
        } else if index == 4 {
            upper_of(c.timezone@)
        } else if index == 5 {
            percent(brightness)
        } else if index == 6 {
            "->"@
        } else {
            ""@
        }
    } else if page == 2 {
        if index == 0 {
            percent(system_volume)
        } else if index == 1 {
            percent(bgm_volume)
        } else if index == 2 {
            percent(sfx_volume)
        } else if index == 3 {
            upper_of(c.audio_output@)
        } else if index == 4 {
            "<-"@
        } else if index == 5 {
            "->"@
        } else {
            ""@
        }
    } else if page == 3 {
        if index == 0 {
            shown_name(c.theme@)
        } else if index == 1 {
            upper_of(c.menu_position.spec_name())
        } else if index == 2 {
            c.font_color@
        } else if index == 3 {
            c.cursor_color@
        } else if index == 4 {
            c.background_scroll_speed@
        } else if index == 5 {
            c.color_shift_speed@
        } else if index == 6 {
            "<-"@
        } else if index == 7 {
            "->"@
        } else {
            ""@
        }
    } else if page == 4 {
        if index == 0 {
            shown_name(trim_ext(track_or_off(c)))
        } else if index == 1 {
            shown_name(c.sfx_pack@)
        } else if index == 2 {
            shown_name(trim_ext(c.logo_selection@))
        } else if index == 3 {
            shown_name(trim_ext(c.background_selection@))
        } else if index == 4 {
            shown_name(trim_ext(c.font_selection@))
        } else if index == 5 {
            "<-"@
        } else {
            ""@
        }
    } else {
        ""@
    }
}

fn percent_exec(p: u32) -> (r: String)
    ensures
        r@ == percent(p as nat),
{
    let mut r = crate::numparse::u64_to_string(p as u64);
    r.append("%");
    r
}

fn on_off_exec(b: bool) -> (r: String)
    ensures
        r@ == on_off(b),
{
    if b {
        String::from_str("ON")
    } else {
        String::from_str("OFF")
    }
}

fn shown_name_exec(s: &str) -> (r: String)
    ensures
        r@ == shown_name(s@),
{
    let cs = chars_of(s);
    let replaced = replace_char_chars(cs.as_slice(), '_', ' ');
    let t = string_from(replaced.as_slice());
    to_upper(t.as_str())
}

fn shown_file_name(s: &str) -> (r: String)
    ensures
        r@ == shown_name(trim_ext(s@)),
{
    let t = trim_extension(s);
    shown_name_exec(t.as_str())
}

/// On the video page the fullscreen row shows `ON` exactly when the game
/// runs full screen and `OFF` otherwise, and the splash row likewise for
/// the splash screen; the confirm row always shows `CONFIRM`, the
/// resolution row the resolution and the brightness row the brightness in
/// percent. On the audio page the first three rows show the system, music
/// and effects volumes in percent, in that order.
pub proof fn law_video_page_values(c: Config, sv: nat, br: nat, bgm: nat, sfx: nat)
    ensures
        settings_value(1, 2, c, sv, br, bgm, sfx) == (if c.fullscreen { "ON"@ } else { "OFF"@ }),
        settings_value(1, 3, c, sv, br, bgm, sfx) == (if c.show_splash_screen { "ON"@ } else { "OFF"@ }),
        settings_value(1, 0, c, sv, br, bgm, sfx) == "CONFIRM"@,
        settings_value(1, 1, c, sv, br, bgm, sfx) == c.resolution@,
        c.fullscreen ==> settings_value(1, 2, c, sv, br, bgm, sfx) != settings_value(1, 2, Config { fullscreen: false, ..c }, sv, br, bgm, sfx),
        settings_value(1, 5, c, sv, br, bgm, sfx) == crate::numparse::dec_digits(br) + "%"@,
        settings_value(2, 0, c, sv, br, bgm, sfx) == crate::numparse::dec_digits(sv) + "%"@,
        settings_value(2, 1, c, sv, br, bgm, sfx) == crate::numparse::dec_digits(bgm) + "%"@,
        settings_value(2, 2, c, sv, br, bgm, sfx) == crate::numparse::dec_digits(sfx) + "%"@,
{
    reveal_strlit("ON");
    reveal_strlit("OFF");
    assert("ON"@ != "OFF"@) by {
        assert("ON"@.len() != "OFF"@.len());
    }
}

/// The text shown on the right of option `index` of page `page`.
pub fn get_settings_value(
    page: usize,
    index: usize,
    config: &Config,
    system_volume: u32,
    brightness: u32,
    bgm_volume: u32,
    sfx_volume: u32,
) -> (r: String)
    ensures
        r@ == settings_value(
            page as int,
            index as int,
            *config,
            system_volume as nat,
            brightness as nat,
            bgm_volume as nat,
            sfx_volume as nat,
        ),
{
    if page == 1 {
        if index == 0 {
            String::from_str("CONFIRM")
        } else if index == 1 {
            config.resolution.clone()
        } else if index == 2 {
            on_off_exec(config.fullscreen)
        } else if index == 3 {
            on_off_exec(config.show_splash_screen)
        } else if index == 4 {
            to_upper(config.timezone.as_str())
        } else if index == 5 {
            percent_exec(brightness)
        } else if index == 6 {
            String::from_str("->")
        } else {
            String::from_str("")
        }
    } else if page == 2 {
        if index == 0 {
            percent_exec(system_volume)
        } else if index == 1 {
            percent_exec(bgm_volume)
        } else if index == 2 {
            percent_exec(sfx_volume)
        } else if index == 3 {
            to_upper(config.audio_output.as_str())
        } else if index == 4 {
            String::from_str("<-")
        } else if index == 5 {
            String::from_str("->")
        } else {
            String::from_str("")
        }
    } else if page == 3 {
        if index == 0 {
            shown_name_exec(config.theme.as_str())
        } else if index == 1 {
            let n = config.menu_position.name();
            to_upper(n.as_str())
        } else if index == 2 {
            config.font_color.clone()
        } else if index == 3 {
            config.cursor_color.clone()
        } else if index == 4 {
            config.background_scroll_speed.clone()
        } else if index == 5 {
            config.color_shift_speed.clone()
        } else if index == 6 {
            String::from_str("<-")
        } else if index == 7 {
            String::from_str("->")
        } else {
            String::from_str("")
        }
    } else if page == 4 {
        if index == 0 {
            let track = match &config.bgm_track {
                Some(t) => t.clone(),
                None => String::from_str("OFF"),
            };
            shown_file_name(track.as_str())
        } else if index == 1 {
            shown_name_exec(config.sfx_pack.as_str())
        } else if index == 2 {
            shown_file_name(config.logo_selection.as_str())
        } else if index == 3 {
            shown_file_name(config.background_selection.as_str())
        } else if index == 4 {
            shown_file_name(config.font_selection.as_str())
        } else if index == 5 {
            String::from_str("<-")
        } else {
            String::from_str("")
        }
    } else {
        String::from_str("")
    }
}


/// The audio output kept at start-up: the configured one when it is among
/// the outputs found, otherwise `Auto`.
pub fn validated_audio_output(sinks: &Vec<AudioSink>, configured: &str) -> (r: String)
    ensures
        sink_names(sinks@).contains(configured@) ==> r@ == configured@,
        !sink_names(sinks@).contains(configured@) ==> r@ == "Auto"@,
{
    let mut i: usize = 0;
    while i < sinks.len()
        invariant
            0 <= i <= sinks@.len(),
            forall|k: int| 0 <= k < i ==> sink_names(sinks@)[k] != configured@,
        decreases sinks.len() - i,
    {
        if crate::text::str_eq(sinks[i].name.as_str(), configured) {
            assert(sink_names(sinks@)[i as int] == configured@);
            return String::from_str(configured);
        }
        i = i + 1;
    }
    String::from_str("Auto")
}

} // verus!

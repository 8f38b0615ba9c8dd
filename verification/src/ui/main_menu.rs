//! The main menu: its options, what a frame of input does there, and what
//! follows a search for cartridges.
use vstd::prelude::*;
use crate::ui::{Effect, Sound, ShakeTarget, InputState, UIFocus, Screen, only_if, cursor_moved};
use crate::nav::{wrap_up, wrap_down, step_up_wrapping, step_down_wrapping};
use crate::numparse::{dec_digits, u64_to_string};

verus! {

/// The entries of the main menu.
pub const MAIN_MENU_OPTIONS: [&'static str; 7] = [
    "DATA",
    "PLAY",
    "COPY SESSION LOGS",
    "UNMOUNT CARTRIDGE",
    "SETTINGS",
    "EXTRAS",
    "ABOUT",
];

/// The highlighted option and which options a connected cartridge enables.
#[derive(PartialEq, Eq, Structural, Clone, Copy, Debug)]
pub struct MainMenuState {
    pub selection: usize,
    pub play_option_enabled: bool,
    pub copy_logs_option_enabled: bool,
}

/// Outside work the main menu asks for.
#[derive(PartialEq, Eq, Structural, Clone, Copy, Debug)]
pub enum MenuCommand {
    /// Load the saves again when the data screen opens.
    RefreshMemories,
    /// Clear the log and search for cartridges; report with `after_scan`.
    ScanCartridges,
    /// Copy the session logs to the SD card; report with `logs_copied_message`.
    CopyLogs,
    /// Unmount the cartridge in the background and stop watching for it.
    Unmount,
}

/// What a frame on the main menu decides.
pub struct MenuOutcome {
    pub effects: Vec<Effect>,
    pub command: Option<MenuCommand>,
    /// A message to show for a while.
    pub flash: Option<String>,
}



/// The highlighted option after the up and down presses (both wrap).
pub open spec fn menu_cursor(sel: int, i: InputState) -> int {
    let n = MAIN_MENU_OPTIONS@.len() as int;
    let s1 = if i.up { wrap_up(sel, n) } else { sel };
    if i.down { wrap_down(s1, n) } else { s1 }
}

/// The screen an option without conditions opens.
pub open spec fn menu_target(sel: int) -> Option<Screen> {
    if sel == 0 {
        Some(Screen::SaveData)
    } else if sel == 4 {
        Some(Screen::VideoSettings)
    } else if sel == 5 {
        Some(Screen::Extras)
    } else if sel == 6 {
        Some(Screen::About)
    } else {
        None
    }
}

/// What selecting an option that needs a cartridge does: with one, it is
/// accepted; without, it is refused and shaken.
pub open spec fn needs_cart(cart: bool, shake: ShakeTarget) -> Seq<Effect> {
    if cart {
        seq![Effect::Play(Sound::Select)]
    } else {
        seq![Effect::Play(Sound::Reject), Effect::Shake(shake)]
    }
}

/// What selecting option `sel` does, given whether a cartridge is
/// connected: the feedback, the outside work, the flash message, the screen
/// and the input state after it.
pub open spec fn option_chosen(
    sel: int,
    cart: bool,
    s0: Screen,
    i0: InputState,
    effects: Seq<Effect>,
    command: Option<MenuCommand>,
    flash: Option<String>,
    s1: Screen,
    i1: InputState,
) -> bool {
    if menu_target(sel) is Some {
        &&& effects == seq![Effect::Play(Sound::Select)]
        &&& s1 == menu_target(sel)->0
        &&& flash is None
        &&& sel == 0 ==> command == Some(MenuCommand::RefreshMemories) && i1 == (InputState {
            ui_focus: UIFocus::Grid,
            ..i0
        })
        &&& sel != 0 ==> command is None && i1 == i0
    } else {
        &&& s1 == s0
        &&& i1 == i0
        &&& sel == 1 ==> effects == needs_cart(cart, ShakeTarget::PlayOption) && command == (if cart {
            Some(MenuCommand::ScanCartridges)
        } else {
            None
        }) && flash is None
        &&& sel == 2 ==> effects == needs_cart(cart, ShakeTarget::CopyLogOption) && command == (if cart {
            Some(MenuCommand::CopyLogs)
        } else {
            None
        }) && flash is None
        &&& sel == 3 ==> effects == needs_cart(cart, ShakeTarget::UnmountOption) && command == (if cart {
            Some(MenuCommand::Unmount)
        } else {
            None
        }) && (if cart {
            flash matches Some(m) && m@ == "CARTRIDGE UNMOUNTED SAFELY"@
        } else {
            flash is None
        })
        &&& (sel < 0 || sel > 6) ==> effects.len() == 0 && command is None && flash is None
    }
}

/// Selecting an option opens the screen its label names: `DATA` the save
/// data screen, `SETTINGS` the (first, video) settings page, `EXTRAS` the
/// extras and `ABOUT` the about screen, each with the select sound. The
/// options that need a cartridge (`PLAY`, `COPY SESSION LOGS`,
/// `UNMOUNT CARTRIDGE`) leave the screen as it is.
pub proof fn law_menu_labels(
    sel: int,
    cart: bool,
    s0: Screen,
    i0: InputState,
    effects: Seq<Effect>,
    command: Option<MenuCommand>,
    flash: Option<String>,
    s1: Screen,
    i1: InputState,
)
    requires
        0 <= sel < MAIN_MENU_OPTIONS@.len(),
        option_chosen(sel, cart, s0, i0, effects, command, flash, s1, i1),
    ensures
        MAIN_MENU_OPTIONS@[sel]@ == "DATA"@ ==> s1 == Screen::SaveData && effects == seq![Effect::Play(Sound::Select)],
        MAIN_MENU_OPTIONS@[sel]@ == "SETTINGS"@ ==> s1 == Screen::VideoSettings && effects == seq![Effect::Play(Sound::Select)],
        MAIN_MENU_OPTIONS@[sel]@ == "EXTRAS"@ ==> s1 == Screen::Extras && effects == seq![Effect::Play(Sound::Select)],
        MAIN_MENU_OPTIONS@[sel]@ == "ABOUT"@ ==> s1 == Screen::About && effects == seq![Effect::Play(Sound::Select)],
        MAIN_MENU_OPTIONS@[sel]@ == "DATA"@ ==> command == Some(MenuCommand::RefreshMemories),
        MAIN_MENU_OPTIONS@[sel]@ == "PLAY"@ ==> s1 == s0 && command == (if cart {
            Some(MenuCommand::ScanCartridges)
        } else {
            None
        }),
        MAIN_MENU_OPTIONS@[sel]@ == "COPY SESSION LOGS"@ ==> s1 == s0 && command == (if cart {
            Some(MenuCommand::CopyLogs)
        } else {
            None
        }),
        MAIN_MENU_OPTIONS@[sel]@ == "UNMOUNT CARTRIDGE"@ ==> s1 == s0 && command == (if cart {
            Some(MenuCommand::Unmount)
        } else {
            None
        }),
        (MAIN_MENU_OPTIONS@[sel]@ == "PLAY"@ || MAIN_MENU_OPTIONS@[sel]@ == "COPY SESSION LOGS"@
            || MAIN_MENU_OPTIONS@[sel]@ == "UNMOUNT CARTRIDGE"@) ==> (cart <==> effects == seq![
            Effect::Play(Sound::Select),
        ]) && (!cart ==> effects.len() == 2 && effects[0] == Effect::Play(Sound::Reject)),
{
    reveal_strlit("DATA");
    reveal_strlit("PLAY");
    reveal_strlit("COPY SESSION LOGS");
    reveal_strlit("UNMOUNT CARTRIDGE");
    reveal_strlit("SETTINGS");
    reveal_strlit("EXTRAS");
    reveal_strlit("ABOUT");
    assert(MAIN_MENU_OPTIONS@[0] == "DATA");
    assert(MAIN_MENU_OPTIONS@[1] == "PLAY");
    assert(MAIN_MENU_OPTIONS@[2] == "COPY SESSION LOGS");
    assert(MAIN_MENU_OPTIONS@[3] == "UNMOUNT CARTRIDGE");
    assert(MAIN_MENU_OPTIONS@[4] == "SETTINGS");
    assert(MAIN_MENU_OPTIONS@[5] == "EXTRAS");
    assert(MAIN_MENU_OPTIONS@[6] == "ABOUT");
    assert("PLAY"@[0] != "DATA"@[0]);
    assert("DATA"@ != "PLAY"@);
    assert("COPY SESSION LOGS"@[0] != "UNMOUNT CARTRIDGE"@[0]);
    assert("COPY SESSION LOGS"@ != "UNMOUNT CARTRIDGE"@);
    let labels = seq!["DATA"@, "PLAY"@, "COPY SESSION LOGS"@, "UNMOUNT CARTRIDGE"@, "SETTINGS"@, "EXTRAS"@, "ABOUT"@];
    assert(labels[0].len() == 4 && labels[1].len() == 4 && labels[2].len() == 17 && labels[3].len() == 17);
    assert(labels[4].len() == 8 && labels[5].len() == 6 && labels[6].len() == 5);
    assert(MAIN_MENU_OPTIONS@[sel]@ == labels[sel]);
}

fn choose_option(sel: usize, cart: bool, screen: &mut Screen, input: &mut InputState) -> (r: MenuOutcome)
    ensures
        option_chosen(sel as int, cart, *old(screen), *old(input), r.effects@, r.command, r.flash, *final(screen), *final(input)),
{
    let mut effects: Vec<Effect> = Vec::new();
    let mut command: Option<MenuCommand> = None;
    let mut flash: Option<String> = None;
    if sel == 0 {
        command = Some(MenuCommand::RefreshMemories);
        *screen = Screen::SaveData;
        input.ui_focus = UIFocus::Grid;
        effects.push(Effect::Play(Sound::Select));
    } else if sel == 1 || sel == 2 || sel == 3 {
        if cart {
            effects.push(Effect::Play(Sound::Select));
            if sel == 1 {
                command = Some(MenuCommand::ScanCartridges);
            } else if sel == 2 {
                command = Some(MenuCommand::CopyLogs);
            } else {
                flash = Some(String::from_str("CARTRIDGE UNMOUNTED SAFELY"));
                command = Some(MenuCommand::Unmount);
            }
        } else {
            effects.push(Effect::Play(Sound::Reject));
            if sel == 1 {
                effects.push(Effect::Shake(ShakeTarget::PlayOption));
            } else if sel == 2 {
                effects.push(Effect::Shake(ShakeTarget::CopyLogOption));
            } else {
                effects.push(Effect::Shake(ShakeTarget::UnmountOption));
            }
        }
    } else if sel == 4 {
        *screen = Screen::VideoSettings;
        effects.push(Effect::Play(Sound::Select));
    } else if sel == 5 {
        *screen = Screen::Extras;
        effects.push(Effect::Play(Sound::Select));
    } else if sel == 6 {
        *screen = Screen::About;
        effects.push(Effect::Play(Sound::Select));
    }
    proof {
        if sel == 1 || sel == 2 || sel == 3 {
            if cart {
                assert(effects@ =~= seq![Effect::Play(Sound::Select)]);
            } else if sel == 1 {
                assert(effects@ =~= needs_cart(false, ShakeTarget::PlayOption));
            } else if sel == 2 {
                assert(effects@ =~= needs_cart(false, ShakeTarget::CopyLogOption));
            } else {
                assert(effects@ =~= needs_cart(false, ShakeTarget::UnmountOption));
            }
        } else if sel <= 6 {
            assert(effects@ =~= seq![Effect::Play(Sound::Select)]);
        }
    }
    MenuOutcome { effects, command, flash }
}

/// One frame of input on the main menu. The cartridge enables playing,
/// copying the logs and unmounting. Up/down move the highlight (wrapping);
/// select opens the data screen (with the cursor on the grid and the saves
/// to be loaded again), the settings, the extras or the about screen, or,
/// with a cartridge, starts a search for games, copies the logs, or
/// unmounts the cartridge; without one these are refused.
pub fn update(st: &mut MainMenuState, screen: &mut Screen, input: &mut InputState, cart_connected: bool) -> (r: MenuOutcome)
    requires
        old(st).selection < usize::MAX,
    ensures
        final(st).play_option_enabled == cart_connected,
        final(st).copy_logs_option_enabled == cart_connected,
        final(st).selection == menu_cursor(old(st).selection as int, *old(input)),
        ({
            let moves = only_if(old(input).up, cursor_moved()) + only_if(old(input).down, cursor_moved());
            &&& r.effects@.len() >= moves.len()
            &&& r.effects@.take(moves.len() as int) == moves
            &&& if old(input).select {
                option_chosen(
                    final(st).selection as int,
                    cart_connected,
                    *old(screen),
                    *old(input),
                    r.effects@.skip(moves.len() as int),
                    r.command,
                    r.flash,
                    *final(screen),
                    *final(input),
                )
            } else {
                &&& r.effects@ == moves
                &&& r.command is None
                &&& r.flash is None
                &&& *final(screen) == *old(screen)
                &&& *final(input) == *old(input)
            }
        }),
{
    st.play_option_enabled = cart_connected;
    st.copy_logs_option_enabled = cart_connected;
    let n = MAIN_MENU_OPTIONS.len();
    let mut effects: Vec<Effect> = Vec::new();
    if input.up {
        st.selection = step_up_wrapping(st.selection, n);
        effects.push(Effect::Transition);
        effects.push(Effect::Play(Sound::CursorMove));
    }
    let ghost e1 = effects@;
    if input.down {
        st.selection = step_down_wrapping(st.selection, n);
        effects.push(Effect::Transition);
        effects.push(Effect::Play(Sound::CursorMove));
    }
    let ghost moves = effects@;
    proof {
        assert(e1 =~= only_if(input.up, cursor_moved()));
        assert(moves =~= e1 + only_if(input.down, cursor_moved()));
    }
    if input.select {
        let mut chosen = choose_option(st.selection, cart_connected, screen, input);
        let ghost rest = chosen.effects@;
        effects.append(&mut chosen.effects);
        proof {
            assert(effects@.take(moves.len() as int) =~= moves);
            assert(effects@.skip(moves.len() as int) =~= rest);
        }
        MenuOutcome { effects, command: chosen.command, flash: chosen.flash }
    } else {
        proof {
            assert(effects@.take(moves.len() as int) =~= moves);
        }
        MenuOutcome { effects, command: None, flash: None }
    }
}

/// The fields of a cartridge's `.kzi` file that the BIOS uses.
pub struct CartInfo {
    pub name: Option<String>,
    pub id: String,
    pub executable: String,
    pub runtime: Option<String>,
    pub icon: String,
}

/// A cartridge found by the search, with the path of its `.kzi` file.
pub struct FoundGame {
    pub info: CartInfo,
    pub kzi_path: String,
}

/// An attribute of a `.kzi` file, `None` when it is missing or empty.
pub open spec fn optional_attribute(lines: Seq<Seq<char>>, key: Seq<char>) -> Option<Seq<char>> {
    let v = crate::save::attribute_value_spec(lines, key);
    if v.len() == 0 {
        None
    } else {
        Some(v)
    }
}

fn optional_attribute_exec(lines: &Vec<String>, key: &str) -> (r: Option<String>)
    ensures
        crate::patterns::opt_view(r) == optional_attribute(crate::sorting::views(lines@), key@),
{
    let v = crate::save::attribute_value(lines, key);
    if v.as_str().unicode_len() == 0 {
        None
    } else {
        Some(v)
    }
}

/// The game a `.kzi` file at `path` describes, from its lines: none when
/// its `Id` is missing or empty; otherwise its `Id`, `Exec` and `Icon`
/// (empty when missing) and its `Name` and `Runtime` (none when missing or
/// empty).
pub fn found_game(lines: &Vec<String>, path: &str) -> (r: Option<FoundGame>)
    ensures
        ({
            let v = crate::sorting::views(lines@);
            let id = crate::save::attribute_value_spec(v, "Id"@);
            &&& r is None <==> id.len() == 0
            &&& r matches Some(g) ==> {
                &&& g.info.id@ == id
                &&& crate::patterns::opt_view(g.info.name) == optional_attribute(v, "Name"@)
                &&& g.info.executable@ == crate::save::attribute_value_spec(v, "Exec"@)
                &&& crate::patterns::opt_view(g.info.runtime) == optional_attribute(v, "Runtime"@)
                &&& g.info.icon@ == crate::save::attribute_value_spec(v, "Icon"@)
                &&& g.kzi_path@ == path@
            }
        }),
{
    let id = crate::save::attribute_value(lines, "Id");
    if id.as_str().unicode_len() == 0 {
        return None;
    }
    let name = optional_attribute_exec(lines, "Name");
    let executable = crate::save::attribute_value(lines, "Exec");
    let runtime = optional_attribute_exec(lines, "Runtime");
    let icon = crate::save::attribute_value(lines, "Icon");
    Some(FoundGame { info: CartInfo { name, id, executable, runtime, icon }, kzi_path: String::from_str(path) })
}

/// What a search over the mounted drives amounts to: the last error of a
/// drive when no `.kzi` file was found at all, otherwise how many files
/// were found and how many of them are games.
pub fn scan_summary(files: usize, games: usize, last_error: Option<String>) -> (r: Result<(usize, usize), String>)
    ensures
        match last_error {
            Some(e) => if files == 0 {
                r == Err::<(usize, usize), String>(e)
            } else {
                r == Ok::<(usize, usize), String>((files, games))
            },
            None => r == Ok::<(usize, usize), String>((files, games)),
        },
{
    match last_error {
        Some(e) => if files == 0 {
            Err(e)
        } else {
            Ok((files, games))
        },
        None => Ok((files, games)),
    }
}

/// What follows a search for cartridges.
pub struct ScanOutcome {
    pub screen: Screen,
    /// Lines to add to the log.
    pub logs: Vec<String>,
    pub effects: Vec<Effect>,
    /// Exactly one game: restart the session into it.
    pub restart: bool,
    /// Several games: let the player choose, from the first.
    pub choose: bool,
}

/// The log line of a failed search.
pub open spec fn scan_error_line(e: Seq<char>) -> Seq<char> {
    "[Error] Error scanning for cartridges: "@ + e
}

/// The log line of a search that found files but no readable game.
pub open spec fn none_parsed_line(files: nat) -> Seq<char> {
    "[Info] Found "@ + dec_digits(files) + " potential game file(s), but none could be parsed."@
}

/// What follows a search that found `files` `.kzi` files of which `games`
/// could be read, or failed with a message: a failure or no game opens the
/// debug screen with the reason in the log; one game restarts the session
/// into it; several open the game selection.
pub fn after_scan(scan: Result<(usize, usize), String>) -> (r: ScanOutcome)
    ensures
        match scan {
            Err(e) => r.screen == Screen::Debug && r.logs@.len() == 1 && r.logs@[0]@ == scan_error_line(e@)
                && r.effects@.len() == 0 && !r.restart && !r.choose,
            Ok((files, games)) => if games == 0 {
                r.screen == Screen::Debug && r.logs@.len() == 2 && r.logs@[0]@ == none_parsed_line(files as nat)
                    && r.logs@[1]@ == "--- ERRORS ---"@ && r.effects@.len() == 0 && !r.restart && !r.choose
            } else if games == 1 {
                r.screen == Screen::FadingOut && r.logs@.len() == 0 && r.effects@ == seq![Effect::Play(Sound::Select)]
                    && r.restart && !r.choose
            } else {
                r.screen == Screen::GameSelection && r.logs@.len() == 0 && r.effects@.len() == 0 && !r.restart
                    && r.choose
            },
        },
{
    let mut logs: Vec<String> = Vec::new();
    let mut effects: Vec<Effect> = Vec::new();
    match scan {
        Err(e) => {
            let mut line = String::from_str("[Error] Error scanning for cartridges: ");
            line.append(e.as_str());
            logs.push(line);
            ScanOutcome { screen: Screen::Debug, logs, effects, restart: false, choose: false }
        },
        Ok((files, games)) => {
            if games == 0 {
                let mut line = String::from_str("[Info] Found ");
                let n = u64_to_string(files as u64);
                line.append(n.as_str());
                line.append(" potential game file(s), but none could be parsed.");
                logs.push(line);
                logs.push(String::from_str("--- ERRORS ---"));
                ScanOutcome { screen: Screen::Debug, logs, effects, restart: false, choose: false }
            } else if games == 1 {
                effects.push(Effect::Play(Sound::Select));
                assert(effects@ =~= seq![Effect::Play(Sound::Select)]);
                ScanOutcome { screen: Screen::FadingOut, logs, effects, restart: true, choose: false }
            } else {
                ScanOutcome { screen: Screen::GameSelection, logs, effects, restart: false, choose: true }
            }
        },
    }
}

/// Name for what `Path::parent` gives back for a path.
pub uninterp spec fn parent_of(p: Seq<char>) -> Option<Seq<char>>;

/// `Path::parent`: the path without its last component, or `None` for a
/// root or an empty path. The result depends on the path alone and is given
/// a name; nothing more is claimed.
#[verifier::external_body]
fn path_parent(p: &str) -> (r: Option<String>)
    ensures
        match r {
            Some(d) => parent_of(p@) == Some(d@),
            None => parent_of(p@) is None,
        },
{
    match std::path::Path::new(p).parent() {
        Some(d) => Some(d.to_string_lossy().into_owned()),
        None => None,
    }
}

/// The icons to load for the game selection: each game's id with its icon
/// file, next to its `.kzi` file. `None` when a `.kzi` path has no parent.
pub fn game_icon_queue(games: &Vec<FoundGame>) -> (r: Option<Vec<(String, String)>>)
    ensures
        r is None <==> exists|k: int| 0 <= k < games.len() && parent_of(#[trigger] games@[k].kzi_path@) is None,
        r matches Some(v) ==> v.len() == games.len() && forall|k: int|
            0 <= k < games.len() ==> (#[trigger] v@[k]).0@ == games@[k].info.id@ && v@[k].1@
                == crate::paths::join(parent_of(games@[k].kzi_path@)->0, games@[k].info.icon@),
{
    let mut v: Vec<(String, String)> = Vec::new();
    let mut i: usize = 0;
    while i < games.len()
        invariant
            0 <= i <= games.len(),
            v.len() == i,
            forall|k: int| 0 <= k < i ==> parent_of(#[trigger] games@[k].kzi_path@) is Some,
            forall|k: int|
                0 <= k < i ==> (#[trigger] v@[k]).0@ == games@[k].info.id@ && v@[k].1@
                    == crate::paths::join(parent_of(games@[k].kzi_path@)->0, games@[k].info.icon@),
        decreases games.len() - i,
    {
        match path_parent(games[i].kzi_path.as_str()) {
            Some(dir) => {
                let icon = crate::paths::path_join(dir.as_str(), games[i].info.icon.as_str());
                v.push((games[i].info.id.clone(), icon));
            },
            None => {
                return None;
            },
        }
        i = i + 1;
    }
    Some(v)
}

/// The part of `t` after its last newline.
pub open spec fn after_last_newline(t: Seq<char>) -> Seq<char> {
    match crate::text::rfind_char(t, '\n') {
        Some(i) => t.skip(i + 1),
        None => t,
    }
}

/// The last of `str::lines()`: lines end at `\n`, a line so ended loses a
/// `\r` before it, and a final `\n` opens no new line; an empty text has no
/// lines.
pub open spec fn last_line(s: Seq<char>) -> Option<Seq<char>> {
    if s.len() == 0 {
        None
    } else if s.last() == '\n' {
        let seg = after_last_newline(s.drop_last());
        Some(if seg.len() > 0 && seg.last() == '\r' { seg.drop_last() } else { seg })
    } else {
        Some(after_last_newline(s))
    }
}

fn after_last_newline_exec(t: &[char]) -> (r: Vec<char>)
    ensures
        r@ == after_last_newline(t@),
{
    proof {
        crate::text::lemma_rfind_char(t@, '\n');
    }
    let found = crate::paths::rfind_char_exec(t, '\n');
    match found {
        Some(i) => {
            assert(i < t.len());
            crate::text::slice_to_vec(t, i + 1, t.len())
        },
        None => crate::text::slice_to_vec(t, 0, t.len()),
    }
}

/// The outcome of the script that copies the session logs: on success the
/// last line it printed (the destination), or a stock message when it
/// printed nothing; on failure its trimmed error output.
pub fn copy_logs_result(success: bool, stdout: &str, stderr: &str) -> (r: Result<String, String>)
    ensures
        success ==> (r matches Ok(p) && p@ == (match last_line(stdout@) {
            Some(l) => l,
            None => "Log copy successful."@,
        })),
        !success ==> (r matches Err(e) && e@ == "Log copy script failed: "@ + crate::text::trim(stderr@)),
{
    if success {
        let cs = crate::text::chars_of(stdout);
        if cs.len() == 0 {
            return Ok(String::from_str("Log copy successful."));
        }
        let last = if cs[cs.len() - 1] == '\n' {
            let body = crate::text::slice_to_vec(cs.as_slice(), 0, cs.len() - 1);
            let seg = after_last_newline_exec(body.as_slice());
            if seg.len() > 0 && seg[seg.len() - 1] == '\r' {
                crate::text::slice_to_vec(seg.as_slice(), 0, seg.len() - 1)
            } else {
                seg
            }
        } else {
            after_last_newline_exec(cs.as_slice())
        };
        proof {
            assert(cs@.subrange(0, cs.len() - 1) == cs@.drop_last());
        }
        Ok(crate::text::string_from(last.as_slice()))
    } else {
        let mut e = String::from_str("Log copy script failed: ");
        let t = crate::text::trim_str(stderr);
        e.append(t.as_str());
        Err(e)
    }
}

/// The outcome of starting the script that copies the session logs: when
/// it could not be started, `Failed to execute helper script: ` and the
/// error; otherwise `copy_logs_result` on its exit status, output and error
/// output.
pub fn copy_logs_outcome(run: Result<(bool, String, String), String>) -> (r: Result<String, String>)
    ensures
        match run {
            Err(e) => r matches Err(m) && m@ == "Failed to execute helper script: "@ + e@,
            Ok((success, out, err)) => {
                &&& success ==> (r matches Ok(p) && p@ == (match last_line(out@) {
                    Some(l) => l,
                    None => "Log copy successful."@,
                }))
                &&& !success ==> (r matches Err(e) && e@ == "Log copy script failed: "@ + crate::text::trim(err@))
            },
        },
{
    match run {
        Err(e) => {
            let mut m = String::from_str("Failed to execute helper script: ");
            m.append(e.as_str());
            Err(m)
        },
        Ok((success, out, err)) => copy_logs_result(success, out.as_str(), err.as_str()),
    }
}

/// The flash message after copying the logs.
pub fn logs_copied_message(r: &Result<String, String>) -> (m: String)
    ensures
        match r {
            Ok(p) => m@ == "LOGS COPIED TO "@ + p@,
            Err(e) => m@ == "ERROR: "@ + e@,
        },
{
    match r {
        Ok(p) => {
            let mut m = String::from_str("LOGS COPIED TO ");
            m.append(p.as_str());
            m
        },
        Err(e) => {
            let mut m = String::from_str("ERROR: ");
            m.append(e.as_str());
            m
        },
    }
}

} // verus!

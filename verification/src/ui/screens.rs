//! The smaller screens of the main loop: choosing among several games, the
//! debug log, and the reset confirmation.
use vstd::prelude::*;
use crate::ui::{Effect, Sound, InputState, Screen, only_if};

verus! {

/// Games per row of the game selection.
pub const GAME_GRID_WIDTH: usize = 5;


/// What a frame on the game selection decides.
pub struct GameChoice {
    pub effects: Vec<Effect>,
    /// Launch the game at this index.
    pub launch: Option<usize>,
}

/// The highlighted game after the arrow presses, in a grid of five per row:
/// each move happens only when it stays among the games.
pub open spec fn game_cursor(sel: int, games: int, i: InputState) -> (int, Seq<Effect>) {
    let w = GAME_GRID_WIDTH as int;
    let m = seq![Effect::Play(Sound::CursorMove)];
    let l = i.left && sel > 0;
    let s1 = if l { sel - 1 } else { sel };
    let r = i.right && s1 < games - 1;
    let s2 = if r { s1 + 1 } else { s1 };
    let u = i.up && s2 >= w;
    let s3 = if u { s2 - w } else { s2 };
    let d = i.down && s3 + w < games;
    let s4 = if d { s3 + w } else { s3 };
    (s4, only_if(l, m) + only_if(r, m) + only_if(u, m) + only_if(d, m))
}

/// One frame on the game selection: the arrows move the highlight, back
/// returns to the main menu, select launches the highlighted game.
pub fn game_selection_update(selection: &mut usize, screen: &mut Screen, games: usize, input: &InputState) -> (r: GameChoice)
    requires
        *old(selection) < games,
        games + GAME_GRID_WIDTH <= usize::MAX,
    ensures
        ({
            let (sel, moves) = game_cursor(*old(selection) as int, games as int, *input);
            let launch = input.select && sel < games;
            &&& *final(selection) == sel
            &&& r.effects@ == moves + only_if(input.back, seq![Effect::Play(Sound::Back)]) + only_if(
                launch,
                seq![Effect::Play(Sound::Select)],
            )
            &&& r.launch == (if launch { Some(sel as usize) } else { None })
            &&& *final(screen) == (if input.back { Screen::MainMenu } else { *old(screen) })
        }),
        *final(selection) < games,
{
    let w = GAME_GRID_WIDTH;
    let mut effects: Vec<Effect> = Vec::new();
    if input.left && *selection > 0 {
        *selection = *selection - 1;
        effects.push(Effect::Play(Sound::CursorMove));
    }
    let ghost e1 = effects@;
    if input.right && *selection < games - 1 {
        *selection = *selection + 1;
        effects.push(Effect::Play(Sound::CursorMove));
    }
    let ghost e2 = effects@;
    if input.up && *selection >= w {
        *selection = *selection - w;
        effects.push(Effect::Play(Sound::CursorMove));
    }
    let ghost e3 = effects@;
    if input.down && *selection + w < games {
        *selection = *selection + w;
        effects.push(Effect::Play(Sound::CursorMove));
    }
    let ghost e4 = effects@;
    if input.back {
        *screen = Screen::MainMenu;
        effects.push(Effect::Play(Sound::Back));
    }
    let ghost e5 = effects@;
    let mut launch: Option<usize> = None;
    if input.select && *selection < games {
        effects.push(Effect::Play(Sound::Select));
        launch = Some(*selection);
    }
    proof {
        let m = seq![Effect::Play(Sound::CursorMove)];
        let (sel, moves) = game_cursor(*old(selection) as int, games as int, *input);
        assert(e4 =~= moves);
        assert(e5 =~= e4 + only_if(input.back, seq![Effect::Play(Sound::Back)]));
        assert(effects@ =~= e5 + only_if(input.select && sel < games, seq![Effect::Play(Sound::Select)]));
    }
    GameChoice { effects, launch }
}

/// What a frame on the debug screen decides.
pub struct DebugStep {
    pub effects: Vec<Effect>,
    /// Save the log to a file.
    pub save_log: bool,
    /// Stop the running game.
    pub kill_game: bool,
}

/// One frame on the debug screen: up/down scroll the log (down stops at the
/// last line), select saves the log, back stops the game and returns to the
/// main menu with the log scrolled back to the top.
pub fn debug_update(offset: &mut usize, screen: &mut Screen, messages: usize, input: &InputState) -> (r: DebugStep)
    ensures
        ({
            let o1 = if input.up && *old(offset) > 0 { *old(offset) - 1 } else { *old(offset) as int };
            let last = if messages > 0 { messages - 1 } else { 0 };
            let o2 = if input.down && o1 < last { o1 + 1 } else { o1 };
            &&& *final(offset) == (if input.back { 0 } else { o2 })
            &&& *final(screen) == (if input.back { Screen::MainMenu } else { *old(screen) })
            &&& r.save_log == input.select
            &&& r.kill_game == input.back
            &&& r.effects@ == only_if(input.back, seq![Effect::Play(Sound::Back)])
        }),
{
    if input.up && *offset > 0 {
        *offset = *offset - 1;
    }
    let last = if messages > 0 {
        messages - 1
    } else {
        0
    };
    if input.down && *offset < last {
        *offset = *offset + 1;
    }
    let mut effects: Vec<Effect> = Vec::new();
    if input.back {
        *screen = Screen::MainMenu;
        effects.push(Effect::Play(Sound::Back));
        *offset = 0;
    }
    assert(effects@ =~= only_if(input.back, seq![Effect::Play(Sound::Back)]));
    DebugStep { effects, save_log: input.select, kill_game: input.back }
}

/// The name of a saved log: `kazeta_log_<timestamp>.log`.
pub fn log_file_name(timestamp: &str) -> (r: String)
    ensures
        r@ == "kazeta_log_"@ + timestamp@ + ".log"@,
{
    let mut r = String::from_str("kazeta_log_");
    r.append(timestamp);
    r.append(".log");
    r
}

/// The log lines joined with newlines, as saved to the file.
pub open spec fn joined(lines: Seq<Seq<char>>) -> Seq<char>
    decreases lines.len(),
{
    if lines.len() == 0 {
        Seq::empty()
    } else if lines.len() == 1 {
        lines[0]
    } else {
        joined(lines.drop_last()) + "\n"@ + lines.last()
    }
}

/// `lines.join("\n")`.
pub fn join_lines(lines: &Vec<String>) -> (r: String)
    ensures
        r@ == joined(crate::sorting::views(lines@)),
{
    let ghost v = crate::sorting::views(lines@);
    let mut r = String::new();
    assert(v.take(0) =~= Seq::<Seq<char>>::empty());
    let mut i: usize = 0;
    while i < lines.len()
        invariant
            0 <= i <= lines.len(),
            v == crate::sorting::views(lines@),
            r@ == joined(v.take(i as int)),
        decreases lines.len() - i,
    {
        proof {
            assert(v.take(i + 1).drop_last() =~= v.take(i as int));
            assert(v.take(i + 1).last() == lines@[i as int]@);
        }
        if i > 0 {
            r.append("\n");
        }
        r.append(lines[i].as_str());
        proof {
            if i == 0 {
                assert(r@ =~= lines@[0]@);
            }
        }
        i = i + 1;
    }
    assert(v.take(lines.len() as int) =~= v);
    r
}

/// The flash message after saving the log.
pub fn log_saved_message(r: &Result<String, String>) -> (m: String)
    ensures
        match r {
            Ok(f) => m@ == "LOG SAVED TO "@ + f@,
            Err(e) => m@ == "ERROR SAVING LOG: "@ + e@,
        },
{
    match r {
        Ok(f) => {
            let mut m = String::from_str("LOG SAVED TO ");
            m.append(f.as_str());
            m
        },
        Err(e) => {
            let mut m = String::from_str("ERROR SAVING LOG: ");
            m.append(e.as_str());
            m
        },
    }
}

/// What a frame on the reset confirmation decides.
pub struct ResetStep {
    pub effects: Vec<Effect>,
    /// Delete the settings file.
    pub delete_config: bool,
}

/// One frame on the reset confirmation (answer 0 is YES, 1 is NO):
/// left/right flip the answer, back returns to the video settings, select
/// with YES deletes the settings and says the reset is done, select with NO
/// returns to the video settings.
pub fn confirm_reset_update(answer: &mut usize, screen: &mut Screen, input: &InputState) -> (r: ResetStep)
    requires
        *old(answer) <= 1,
    ensures
        *final(answer) == (if input.left || input.right { 1 - *old(answer) } else { *old(answer) as int }),
        r.delete_config == (input.select && *final(answer) == 0),
        *final(screen) == (if input.select {
            if *final(answer) == 0 { Screen::ResetComplete } else { Screen::VideoSettings }
        } else if input.back {
            Screen::VideoSettings
        } else {
            *old(screen)
        }),
        r.effects@ == only_if(input.left || input.right, seq![Effect::Play(Sound::CursorMove)]) + only_if(
            input.back,
            seq![Effect::Play(Sound::Back)],
        ) + only_if(input.select, seq![Effect::Play(if *final(answer) == 0 { Sound::Select } else { Sound::Back })]),
        *final(answer) <= 1,
{
    let mut effects: Vec<Effect> = Vec::new();
    if input.left || input.right {
        *answer = 1 - *answer;
        effects.push(Effect::Play(Sound::CursorMove));
    }
    let ghost e1 = effects@;
    if input.back {
        *screen = Screen::VideoSettings;
        effects.push(Effect::Play(Sound::Back));
    }
    let ghost e2 = effects@;
    let mut delete_config = false;
    if input.select {
        if *answer == 0 {
            delete_config = true;
            *screen = Screen::ResetComplete;
            effects.push(Effect::Play(Sound::Select));
        } else {
            *screen = Screen::VideoSettings;
            effects.push(Effect::Play(Sound::Back));
        }
    }
    proof {
        assert(e1 =~= only_if(input.left || input.right, seq![Effect::Play(Sound::CursorMove)]));
        assert(e2 =~= e1 + only_if(input.back, seq![Effect::Play(Sound::Back)]));
        assert(effects@ =~= e2 + only_if(input.select, seq![Effect::Play(if *answer == 0 { Sound::Select } else { Sound::Back })]));
    }
    ResetStep { effects, delete_config }
}

/// On the "reset done" message, select or back restarts the session.
pub fn reset_complete_update(input: &InputState) -> (restart: bool)
    ensures
        restart == (input.select || input.back),
{
    input.select || input.back
}

} // verus!

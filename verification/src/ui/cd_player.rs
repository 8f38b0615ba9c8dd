//! The CD player screen: the two-column track list, play/pause, seeking,
//! and advancing when a track ends.
use vstd::prelude::*;
use crate::cd_player_backend::{
    CdPlayerBackend, TocTrack, PlayerStatus, toc_ordered, can_seek, seek_target, after_seek, after_pause, after_resume,
    after_stop_internal,
};
use crate::ui::{Effect, Sound, InputState, Screen, only_if};
use crate::numparse::{dec_digits2, u64_to_string2};

verus! {

/// The screen's own state.
#[derive(PartialEq, Eq, Structural, Clone, Copy, Debug)]
pub struct CdPlayerUiState {
    pub selected_track: usize,
    /// The drive was scanned since the screen was entered.
    pub is_initialized: bool,
}

impl CdPlayerUiState {
    /// The player screen before its first frame.
    pub fn new() -> (r: CdPlayerUiState)
        ensures
            r.selected_track == 0,
            !r.is_initialized,
    {
        CdPlayerUiState { selected_track: 0, is_initialized: false }
    }
}

/// Outside work the CD player screen asks for.
#[derive(PartialEq, Eq, Structural, Clone, Copy, Debug)]
pub enum CdCommand {
    /// Read the drive's table of contents in the background.
    Scan,
    /// Load and play this track in the background.
    Play(usize),
    /// Stop the audio output.
    StopOutput,
    /// Pause the audio output.
    PauseOutput,
    /// Resume the audio output.
    ResumeOutput,
    /// Restart the output at this many milliseconds into the track, paused or not.
    SeekOutput(u64, bool),
    /// Resume the background music of the theme.
    ResumeBgm,
}

/// What a frame on the CD player decides.
pub struct CdStep {
    pub effects: Vec<Effect>,
    pub commands: Vec<CdCommand>,
}

/// How far one seek press moves, in milliseconds.
pub const SEEK_STEP: u64 = 15000;

/// The highlighted track after the arrow presses, in a list of `n` tracks
/// laid out in two columns (the left one takes the odd track): up/down move
/// within and across the columns and wrap at the ends; left/right jump
/// between the columns, clamped to the last track.
pub open spec fn track_nav(t: int, n: int, i: InputState) -> int {
    let split = (n + 1) / 2;
    let v1 = if i.up {
        if t == 0 {
            n - 1
        } else if t == split {
            split - 1
        } else {
            t - 1
        }
    } else {
        t
    };
    let v2 = if i.down {
        if t == n - 1 {
            0
        } else if t == split - 1 {
            split
        } else {
            v1 + 1
        }
    } else {
        v1
    };
    let v3 = if i.left && t >= split {
        v2 - split
    } else {
        v2
    };
    if i.right && t < split {
        if v3 + split >= n {
            n - 1
        } else {
            v3 + split
        }
    } else {
        v3
    }
}

/// The presses stay within the numbers the cursor can hold.
pub open spec fn track_nav_defined(t: int, n: int, i: InputState) -> bool {
    let split = (n + 1) / 2;
    let v1 = if i.up {
        if t == 0 {
            n - 1
        } else if t == split {
            split - 1
        } else {
            t - 1
        }
    } else {
        t
    };
    let v2 = if i.down {
        if t == n - 1 {
            0
        } else if t == split - 1 {
            split
        } else {
            v1 + 1
        }
    } else {
        v1
    };
    &&& 0 < n < usize::MAX
    &&& 0 <= t < usize::MAX
    &&& (i.left && t >= split) ==> v2 >= split
    &&& (i.right && t < split) ==> (if i.left && t >= split { v2 - split } else { v2 }) + split <= usize::MAX
}

/// The arrow presses on the track list.
pub fn track_nav_exec(t: usize, n: usize, input: &InputState) -> (r: usize)
    requires
        track_nav_defined(t as int, n as int, *input),
    ensures
        r == track_nav(t as int, n as int, *input),
{
    let split = (n + 1) / 2;
    let mut new_track = t;
    if input.up {
        if t == 0 {
            new_track = n - 1;
        } else if t == split {
            new_track = split - 1;
        } else {
            new_track = new_track - 1;
        }
    }
    if input.down {
        if t == n - 1 {
            new_track = 0;
        } else if t == split - 1 {
            new_track = split;
        } else {
            new_track = new_track + 1;
        }
    }
    if input.left {
        if t >= split {
            new_track = new_track - split;
        }
    }
    if input.right {
        if t < split {
            new_track = new_track + split;
            if new_track >= n {
                new_track = n - 1;
            }
        }
    }
    new_track
}

/// Down and then up, in two frames, return to the same track.
pub proof fn law_track_down_then_up(t: int, n: int, down: InputState, up: InputState)
    requires
        0 <= t < n,
        down.down && !down.up && !down.left && !down.right,
        up.up && !up.down && !up.left && !up.right,
    ensures
        track_nav(track_nav(t, n, down), n, up) == t,
{
}

/// Right and then left, in two frames, return to the same track of the left
/// column when the right column has a track beside it.
pub proof fn law_track_right_then_left(t: int, n: int, right: InputState, left: InputState)
    requires
        0 <= t < (n + 1) / 2,
        t + (n + 1) / 2 < n,
        right.right && !right.up && !right.left && !right.down,
        left.left && !left.up && !left.down && !left.right,
    ensures
        track_nav(track_nav(t, n, right), n, left) == t,
{
}

/// At most one of the arrows is pressed.
pub open spec fn one_arrow(i: InputState) -> bool {
    (if i.up { 1int } else { 0 }) + (if i.down { 1int } else { 0 }) + (if i.left { 1int } else { 0 }) + (if i.right {
        1int
    } else {
        0
    }) <= 1
}

/// With at most one arrow pressed the highlight stays on a track of the
/// list; up from the first track wraps to the last, down from the last
/// wraps to the first, and right never passes the last track.
pub proof fn law_track_in_range(t: int, n: int, i: InputState)
    requires
        0 <= t < n,
        one_arrow(i),
    ensures
        0 <= track_nav(t, n, i) < n,
        i.up && t == 0 ==> track_nav(t, n, i) == n - 1,
        i.down && t == n - 1 ==> track_nav(t, n, i) == 0,
        !i.up && !i.down && !i.left && !i.right ==> track_nav(t, n, i) == t,
{
}

/// The number of tracks of the disc in the player.
pub open spec fn track_count(b: CdPlayerBackend) -> int {
    match b.toc {
        Some(t) => t.tracks@.len() as int,
        None => 0,
    }
}

/// Clock values of a frame: a non-negative now, and start and pause times
/// within about 35 years of milliseconds.
pub open spec fn small_clock(t: int) -> bool {
    -0x4_0000_0000_0000 <= t <= 0x4_0000_0000_0000
}

/// What `update` needs: small clock values, an ordered table of contents,
/// and arrow presses that stay within the cursor's numbers.
pub open spec fn cd_update_ready(ui: CdPlayerUiState, b: CdPlayerBackend, i: InputState, now: i64, sink_empty: bool) -> bool {
    &&& 0 <= now && small_clock(now as int)
    &&& b.playback_start_time matches Some(s) ==> small_clock(s as int)
    &&& b.paused_elapsed_time matches Some(p) ==> small_clock(p as int)
    &&& b.track_duration <= 0x4000_0000
    &&& b.toc matches Some(t) ==> toc_ordered(t)
    &&& b.current_track < usize::MAX
    &&& track_count(b) > 0 ==> track_nav_defined(
        (if b.status == PlayerStatus::Playing && sink_empty && b.current_track + 1 < track_count(b) {
            b.current_track + 1
        } else {
            ui.selected_track as int
        }),
        track_count(b),
        i,
    )
}


/// A seek press: the player after it, the output command, and whether an
/// output exists afterwards.
pub open spec fn seek_press(b: CdPlayerBackend, forward: bool, now: i64) -> (CdPlayerBackend, Seq<CdCommand>) {
    (
        after_seek(b, SEEK_STEP as int, forward, now),
        only_if(
            can_seek(b),
            seq![CdCommand::SeekOutput(seek_target(b, SEEK_STEP as int, forward, now) as u64, b.status == PlayerStatus::Paused)],
        ),
    )
}

/// The seek presses of a frame: the player after them, the output
/// commands, and whether an output exists afterwards.
pub open spec fn seeks_part(b: CdPlayerBackend, i: InputState, now: i64, sink: bool) -> (CdPlayerBackend, Seq<CdCommand>, bool) {
    let (b2, c2) = if i.next { seek_press(b, true, now) } else { (b, Seq::empty()) };
    let sink2 = sink || (i.next && can_seek(b));
    let (b3, c3) = if i.prev { seek_press(b2, false, now) } else { (b2, Seq::empty()) };
    (b3, c2 + c3, sink2 || (i.prev && can_seek(b2)))
}

/// The select press on track `t`: pause or resume it when it is the one
/// loaded, otherwise play it.
pub open spec fn select_part(b: CdPlayerBackend, t: int, now: i64, sink: bool) -> (CdPlayerBackend, Seq<Effect>, Seq<CdCommand>) {
    let same = b.current_track == t;
    if b.status == PlayerStatus::Playing && same {
        (after_pause(b, sink, now), Seq::empty(), only_if(sink, seq![CdCommand::PauseOutput]))
    } else if b.status == PlayerStatus::Paused && same {
        (after_resume(b, sink, now), Seq::empty(), only_if(sink, seq![CdCommand::ResumeOutput]))
    } else {
        (b, seq![Effect::Play(Sound::Select)], seq![CdCommand::Play(t as usize)])
    }
}

/// The track list part of a frame, on a disc with tracks.
pub open spec fn list_frame(
    u: CdPlayerUiState,
    b: CdPlayerBackend,
    i: InputState,
    now: i64,
    sink: bool,
) -> (CdPlayerUiState, CdPlayerBackend, Seq<Effect>, Seq<CdCommand>) {
    let t1 = track_nav(u.selected_track as int, track_count(b), i);
    let u1 = CdPlayerUiState { selected_track: t1 as usize, ..u };
    let e1 = only_if(t1 != u.selected_track, seq![Effect::Play(Sound::CursorMove)]);
    let (b3, c3, sink3) = seeks_part(b, i, now, sink);
    if i.select {
        let (b4, e4, c4) = select_part(b3, t1, now, sink3);
        (u1, b4, e1 + e4, c3 + c4)
    } else {
        (u1, b3, e1, c3)
    }
}

/// A frame on the track list, with at most one arrow pressed, keeps the
/// highlight on a track: up from the first wraps to the last, down from the
/// last wraps to the first, and the cursor sound plays exactly when the
/// highlight moved.
pub proof fn law_track_list_frame(u: CdPlayerUiState, b: CdPlayerBackend, i: InputState, now: i64, sink: bool)
    requires
        0 < track_count(b) <= usize::MAX,
        u.selected_track < track_count(b),
        one_arrow(i),
    ensures
        ({
            let (u1, b1, e, c) = list_frame(u, b, i, now, sink);
            let n = track_count(b);
            &&& u1.selected_track < n
            &&& i.up && u.selected_track == 0 ==> u1.selected_track == n - 1
            &&& i.down && u.selected_track == n - 1 ==> u1.selected_track == 0
            &&& e.contains(Effect::Play(Sound::CursorMove)) <==> u1.selected_track != u.selected_track
            &&& !i.select ==> e == only_if(u1.selected_track != u.selected_track, seq![Effect::Play(Sound::CursorMove)])
        }),
{
    let n = track_count(b);
    let t = u.selected_track as int;
    law_track_in_range(t, n, i);
    let t1 = track_nav(t, n, i);
    let (u1, b1, e, c) = list_frame(u, b, i, now, sink);
    let e1 = only_if(t1 != t, seq![Effect::Play(Sound::CursorMove)]);
    assert(u1.selected_track == t1);
    if i.select {
        let (b3, c3, sink3) = seeks_part(b, i, now, sink);
        let (b4, e4, c4) = select_part(b3, t1, now, sink3);
        assert(e == e1 + e4);
        assert(!e4.contains(Effect::Play(Sound::CursorMove))) by {
            if e4.len() > 0 {
                assert(e4 == seq![Effect::Play(Sound::Select)]);
            }
        }
        if t1 != t {
            assert(e[0] == Effect::Play(Sound::CursorMove));
        } else {
            assert(e =~= e4);
        }
    } else {
        if t1 != t {
            assert(e[0] == Effect::Play(Sound::CursorMove));
        }
    }
}

/// The end of a playing track: the next one plays, or after the last the
/// player stops. Returns the screen state, the player, whether an output
/// remains, and the commands.
pub open spec fn finish_part(u0: CdPlayerUiState, b0: CdPlayerBackend, sink_empty: bool, has_sink: bool) -> (
    CdPlayerUiState,
    CdPlayerBackend,
    bool,
    Seq<CdCommand>,
) {
    let fin = b0.status == PlayerStatus::Playing && sink_empty;
    let adv = fin && b0.current_track + 1 < track_count(b0);
    if adv {
        (
            CdPlayerUiState { selected_track: (b0.current_track + 1) as usize, ..u0 },
            b0,
            has_sink,
            seq![CdCommand::Play((b0.current_track + 1) as usize)],
        )
    } else if fin {
        (
            u0,
            CdPlayerBackend { status: PlayerStatus::Stopped, track_duration: 0, ..after_stop_internal(b0) },
            false,
            seq![CdCommand::StopOutput],
        )
    } else {
        (u0, b0, has_sink, Seq::empty())
    }
}

/// The back press: stop, leave for the extras, scan again next time.
pub open spec fn back_part(u: CdPlayerUiState, b: CdPlayerBackend, s: Screen, back: bool, sink: bool) -> (
    CdPlayerUiState,
    CdPlayerBackend,
    Screen,
    Seq<Effect>,
    Seq<CdCommand>,
    bool,
) {
    if back {
        (
            CdPlayerUiState { is_initialized: false, ..u },
            CdPlayerBackend { status: PlayerStatus::Stopped, ..after_stop_internal(b) },
            Screen::Extras,
            seq![Effect::Play(Sound::Back)],
            seq![CdCommand::StopOutput, CdCommand::ResumeBgm],
            false,
        )
    } else {
        (u, b, s, Seq::empty(), Seq::empty(), sink)
    }
}

/// One whole frame on the CD player: the screen state, the player, the
/// screen, the feedback and the outside work after it.
pub open spec fn cd_frame(
    u0: CdPlayerUiState,
    b0: CdPlayerBackend,
    i: InputState,
    s0: Screen,
    now: i64,
    sink_empty: bool,
    has_sink: bool,
) -> (CdPlayerUiState, CdPlayerBackend, Screen, Seq<Effect>, Seq<CdCommand>) {
    let (u1, b1, sink1, c1) = finish_part(u0, b0, sink_empty, has_sink);
    if !u1.is_initialized {
        (CdPlayerUiState { is_initialized: true, ..u1 }, b1, s0, Seq::empty(), c1.push(CdCommand::Scan))
    } else if b1.status == PlayerStatus::Scanning || b1.status == PlayerStatus::Loading {
        (u1, b1, s0, Seq::empty(), c1)
    } else {
        let (u2, b2, s2, e2, c2, sink2) = back_part(u1, b1, s0, i.back, sink1);
        if track_count(b2) == 0 {
            (u2, b2, s2, e2, c1 + c2)
        } else {
            let (u3, b3, e3, c3) = list_frame(u2, b2, i, now, sink2);
            (u3, b3, s2, e2 + e3, c1 + c2 + c3)
        }
    }
}

fn finish_update(ui: &mut CdPlayerUiState, backend: &mut CdPlayerBackend, sink_empty: bool, has_sink: bool) -> (r: (bool, Vec<CdCommand>))
    requires
        old(backend).current_track < usize::MAX,
    ensures
        (*final(ui), *final(backend), r.0, r.1@) == finish_part(*old(ui), *old(backend), sink_empty, has_sink),
{
    let mut commands: Vec<CdCommand> = Vec::new();
    let mut sink = has_sink;
    if backend.status == PlayerStatus::Playing && sink_empty {
        let n = match &backend.toc {
            Some(t) => t.tracks.len(),
            None => 0,
        };
        let next = backend.current_track + 1;
        if next < n {
            ui.selected_track = next;
            push_cmd(&mut commands, CdCommand::Play(next));
            assert(commands@ =~= seq![CdCommand::Play(next)]);
        } else {
            backend.stop_internal();
            backend.status = PlayerStatus::Stopped;
            backend.track_duration = 0;
            sink = false;
            push_cmd(&mut commands, CdCommand::StopOutput);
            assert(commands@ =~= seq![CdCommand::StopOutput]);
        }
    }
    (sink, commands)
}

fn back_update(
    ui: &mut CdPlayerUiState,
    backend: &mut CdPlayerBackend,
    screen: &mut Screen,
    back: bool,
    sink: bool,
) -> (r: (Vec<Effect>, Vec<CdCommand>, bool))
    ensures
        (*final(ui), *final(backend), *final(screen), r.0@, r.1@, r.2) == back_part(*old(ui), *old(backend), *old(screen), back, sink),
{
    let mut effects: Vec<Effect> = Vec::new();
    let mut commands: Vec<CdCommand> = Vec::new();
    if back {
        backend.stop();
        *screen = Screen::Extras;
        effects.push(Effect::Play(Sound::Back));
        push_cmd(&mut commands, CdCommand::StopOutput);
        push_cmd(&mut commands, CdCommand::ResumeBgm);
        ui.is_initialized = false;
        assert(effects@ =~= seq![Effect::Play(Sound::Back)]);
        assert(commands@ =~= seq![CdCommand::StopOutput, CdCommand::ResumeBgm]);
        (effects, commands, false)
    } else {
        (effects, commands, sink)
    }
}

fn push_cmd(v: &mut Vec<CdCommand>, c: CdCommand)
    ensures
        final(v)@ == old(v)@.push(c),
{
    v.push(c);
}

fn seek_exec(backend: &mut CdPlayerBackend, forward: bool, now: i64) -> (r: (bool, Vec<CdCommand>))
    requires
        0 <= now && small_clock(now as int),
        old(backend).playback_start_time matches Some(s) ==> -0x8_0000_0000_0000 <= s <= 0x4_0000_0000_0000,
        old(backend).paused_elapsed_time matches Some(p) ==> p <= 0x8_0000_0000_0000,
        old(backend).track_duration <= 0x4000_0000,
    ensures
        (*final(backend), r.1@) == seek_press(*old(backend), forward, now),
        r.0 == can_seek(*old(backend)),
        final(backend).playback_start_time matches Some(s) ==> -0x8_0000_0000_0000 <= s <= 0x4_0000_0000_0000,
        final(backend).paused_elapsed_time matches Some(p) ==> p <= 0x8_0000_0000_0000,
        final(backend).track_duration == old(backend).track_duration,
        final(backend).toc == old(backend).toc,
        final(backend).current_track == old(backend).current_track,
        final(backend).status == old(backend).status,
{
    let paused = backend.status == PlayerStatus::Paused;
    let mut cmds: Vec<CdCommand> = Vec::new();
    let r = backend.seek(SEEK_STEP, forward, now);
    let moved = match r {
        Some(t) => {
            push_cmd(&mut cmds, CdCommand::SeekOutput(t, paused));
            true
        },
        None => false,
    };
    proof {
        assert(cmds@ =~= seek_press(*old(backend), forward, now).1);
    }
    (moved, cmds)
}

/// The seek presses of a frame: the player after them, the output
/// commands, and whether an output exists afterwards.
fn seeks_update(backend: &mut CdPlayerBackend, input: &InputState, now: i64, sink: bool) -> (r: (bool, Vec<CdCommand>))
    requires
        0 <= now && small_clock(now as int),
        old(backend).playback_start_time matches Some(s) ==> -0x8_0000_0000_0000 <= s <= 0x4_0000_0000_0000,
        old(backend).paused_elapsed_time matches Some(p) ==> p <= 0x8_0000_0000_0000,
        old(backend).track_duration <= 0x4000_0000,
    ensures
        (*final(backend), r.1@, r.0) == seeks_part(*old(backend), *input, now, sink),
        final(backend).playback_start_time matches Some(s) ==> -0x8_0000_0000_0000 <= s <= 0x4_0000_0000_0000,
        final(backend).paused_elapsed_time matches Some(p) ==> p <= 0x8_0000_0000_0000,
{
    let mut cmds: Vec<CdCommand> = Vec::new();
    let mut sink2 = sink;
    if input.next {
        let (moved, mut c) = seek_exec(backend, true, now);
        cmds.append(&mut c);
        sink2 = sink2 || moved;
    }
    let ghost c2 = cmds@;
    let mut sink3 = sink2;
    if input.prev {
        let (moved, mut c) = seek_exec(backend, false, now);
        cmds.append(&mut c);
        sink3 = sink3 || moved;
    }
    proof {
        if !input.next {
            assert(c2 =~= Seq::<CdCommand>::empty());
        }
        if !input.prev {
            assert(cmds@ =~= c2 + Seq::<CdCommand>::empty());
        }
    }
    (sink3, cmds)
}

/// The select press of a frame.
fn select_update(backend: &mut CdPlayerBackend, t1: usize, now: i64, sink: bool) -> (r: (Vec<Effect>, Vec<CdCommand>))
    requires
        0 <= now && small_clock(now as int),
        old(backend).playback_start_time matches Some(s) ==> -0x8_0000_0000_0000 <= s <= 0x4_0000_0000_0000,
        old(backend).paused_elapsed_time matches Some(p) ==> p <= 0x8_0000_0000_0000,
    ensures
        (*final(backend), r.0@, r.1@) == select_part(*old(backend), t1 as int, now, sink),
{
    let mut effects: Vec<Effect> = Vec::new();
    let mut cmds: Vec<CdCommand> = Vec::new();
    let same = backend.current_track == t1;
    if backend.status == PlayerStatus::Playing && same {
        backend.pause(sink, now);
        if sink {
            push_cmd(&mut cmds, CdCommand::PauseOutput);
        }
        proof {
            assert(cmds@ =~= only_if(sink, seq![CdCommand::PauseOutput]));
        }
    } else if backend.status == PlayerStatus::Paused && same {
        backend.resume(sink, now);
        if sink {
            push_cmd(&mut cmds, CdCommand::ResumeOutput);
        }
        proof {
            assert(cmds@ =~= only_if(sink, seq![CdCommand::ResumeOutput]));
        }
    } else {
        push_cmd(&mut cmds, CdCommand::Play(t1));
        effects.push(Effect::Play(Sound::Select));
        proof {
            assert(cmds@ =~= seq![CdCommand::Play(t1)]);
            assert(effects@ =~= seq![Effect::Play(Sound::Select)]);
        }
    }
    (effects, cmds)
}

/// The track list part of a frame.
fn list_update(
    ui: &mut CdPlayerUiState,
    backend: &mut CdPlayerBackend,
    input: &InputState,
    now: i64,
    sink: bool,
) -> (r: (Vec<Effect>, Vec<CdCommand>))
    requires
        0 <= now && small_clock(now as int),
        old(backend).playback_start_time matches Some(s) ==> -0x8_0000_0000_0000 <= s <= 0x4_0000_0000_0000,
        old(backend).paused_elapsed_time matches Some(p) ==> p <= 0x8_0000_0000_0000,
        old(backend).track_duration <= 0x4000_0000,
        track_count(*old(backend)) > 0,
        track_nav_defined(old(ui).selected_track as int, track_count(*old(backend)), *input),
    ensures
        (*final(ui), *final(backend), r.0@, r.1@) == list_frame(*old(ui), *old(backend), *input, now, sink),
{
    let n = match &backend.toc {
        Some(t) => t.tracks.len(),
        None => 0,
    };
    let t0 = ui.selected_track;
    let t1 = track_nav_exec(t0, n, input);
    let mut effects: Vec<Effect> = Vec::new();
    if t1 != t0 {
        ui.selected_track = t1;
        effects.push(Effect::Play(Sound::CursorMove));
    }
    let ghost e1 = effects@;
    proof {
        assert(e1 =~= only_if(t1 != t0, seq![Effect::Play(Sound::CursorMove)]));
    }
    let (sink3, mut cmds) = seeks_update(backend, input, now, sink);
    if input.select {
        let (mut e, mut c) = select_update(backend, t1, now, sink3);
        effects.append(&mut e);
        cmds.append(&mut c);
    }
    (effects, cmds)
}

/// One frame on the CD player. A finished track is followed by the next
/// one, or the player stops after the last. On entering, the drive is
/// scanned and nothing else happens; while scanning or loading, input
/// waits. Back stops the music, returns to the extras and brings the
/// theme's music back. On a disc with tracks the arrows move the highlight
/// (with the cursor sound), the paging presses seek 15 seconds, and select
/// pauses or resumes the highlighted track when it is the one loaded, or
/// plays it.
pub fn update(
    ui: &mut CdPlayerUiState,
    backend: &mut CdPlayerBackend,
    input: &InputState,
    screen: &mut Screen,
    now: i64,
    sink_empty: bool,
    has_sink: bool,
) -> (r: CdStep)
    requires
        cd_update_ready(*old(ui), *old(backend), *input, now, sink_empty),
    ensures
        (*final(ui), *final(backend), *final(screen), r.effects@, r.commands@) == cd_frame(
            *old(ui),
            *old(backend),
            *input,
            *old(screen),
            now,
            sink_empty,
            has_sink,
        ),
{
    let (sink, mut commands) = finish_update(ui, backend, sink_empty, has_sink);
    if !ui.is_initialized {
        ui.is_initialized = true;
        push_cmd(&mut commands, CdCommand::Scan);
        return CdStep { effects: Vec::new(), commands };
    }
    if backend.status == PlayerStatus::Scanning || backend.status == PlayerStatus::Loading {
        return CdStep { effects: Vec::new(), commands };
    }
    let (mut effects, mut c2, sink2) = back_update(ui, backend, screen, input.back, sink);
    commands.append(&mut c2);
    let n = match &backend.toc {
        Some(t) => t.tracks.len(),
        None => 0,
    };
    if n > 0 {
        let (mut e3, mut c3) = list_update(ui, backend, input, now, sink2);
        effects.append(&mut e3);
        commands.append(&mut c3);
    }
    CdStep { effects, commands }
}

/// The label of a track in the list: `Track NN (MM:SS)`.
pub open spec fn track_label_spec(t: TocTrack) -> Seq<char> {
    "Track "@ + dec_digits2(t.number as nat) + " ("@ + dec_digits2(t.start_minute as nat) + ":"@
        + dec_digits2(t.start_second as nat) + ")"@
}

/// The label of a track in the list.
pub fn track_label(t: &TocTrack) -> (r: String)
    ensures
        r@ == track_label_spec(*t),
{
    let mut r = String::from_str("Track ");
    r.append(u64_to_string2(t.number as u64).as_str());
    r.append(" (");
    r.append(u64_to_string2(t.start_minute as u64).as_str());
    r.append(":");
    r.append(u64_to_string2(t.start_second as u64).as_str());
    r.append(")");
    r
}

/// The status line: the track playing or paused (counted from one), or
/// `STOPPED`; nothing in any other state.
pub open spec fn status_text_spec(b: CdPlayerBackend) -> Seq<char> {
    if b.status == PlayerStatus::Playing {
        "PLAYING: Track "@ + dec_digits2((b.current_track + 1) as nat)
    } else if b.status == PlayerStatus::Paused {
        "PAUSED: Track "@ + dec_digits2((b.current_track + 1) as nat)
    } else if b.status == PlayerStatus::Stopped {
        "STOPPED"@
    } else {
        ""@
    }
}

/// The status line of the player.
pub fn status_text(b: &CdPlayerBackend) -> (r: String)
    requires
        b.current_track < usize::MAX,
    ensures
        r@ == status_text_spec(*b),
{
    if b.status == PlayerStatus::Playing {
        let mut r = String::from_str("PLAYING: Track ");
        r.append(u64_to_string2((b.current_track + 1) as u64).as_str());
        r
    } else if b.status == PlayerStatus::Paused {
        let mut r = String::from_str("PAUSED: Track ");
        r.append(u64_to_string2((b.current_track + 1) as u64).as_str());
        r
    } else if b.status == PlayerStatus::Stopped {
        String::from_str("STOPPED")
    } else {
        String::from_str("")
    }
}

/// The timeline text `MM:SS / MM:SS`: the played part (never past the end)
/// and the length of the track, in whole seconds.
pub open spec fn time_text_spec(elapsed_ms: int, duration: int) -> Seq<char> {
    let shown = if elapsed_ms < duration * 1000 { elapsed_ms } else { duration * 1000 };
    let e = shown / 1000;
    dec_digits2((e / 60) as nat) + ":"@ + dec_digits2((e % 60) as nat) + " / "@ + dec_digits2(
        (duration / 60) as nat,
    ) + ":"@ + dec_digits2((duration % 60) as nat)
}

/// The timeline text of the player at time `now` (milliseconds).
pub fn time_text(b: &CdPlayerBackend, now: i64) -> (r: String)
    requires
        crate::cd_player_backend::sane_clock(now as int),
        b.playback_start_time matches Some(s) ==> crate::cd_player_backend::sane_clock(s as int),
        b.track_duration <= 0x1000_0000_0000,
    ensures
        r@ == time_text_spec(crate::cd_player_backend::elapsed_at(*b, now), b.track_duration as int),
{
    let e = b.elapsed(now);
    let total = b.track_duration * 1000;
    let shown = if e < total {
        e
    } else {
        total
    };
    let secs = shown / 1000;
    let d = b.track_duration;
    let mut r = u64_to_string2(secs / 60);
    r.append(":");
    r.append(u64_to_string2(secs % 60).as_str());
    r.append(" / ");
    r.append(u64_to_string2(d / 60).as_str());
    r.append(":");
    r.append(u64_to_string2(d % 60).as_str());
    r
}


fn nav_defined_exec(t: usize, n: usize, input: &InputState) -> (b: bool)
    ensures
        b == track_nav_defined(t as int, n as int, *input),
{
    if n == 0 || n == usize::MAX || t == usize::MAX {
        return false;
    }
    let split = n / 2 + n % 2;
    assert(split == (n + 1) / 2);
    let v1: u128 = if input.up {
        if t == 0 {
            (n - 1) as u128
        } else if t == split {
            (split - 1) as u128
        } else {
            (t - 1) as u128
        }
    } else {
        t as u128
    };
    let v2: u128 = if input.down {
        if t == n - 1 {
            0
        } else if t == split - 1 {
            split as u128
        } else {
            v1 + 1
        }
    } else {
        v1
    };
    let left_ok = !(input.left && t >= split) || v2 >= split as u128;
    let shifted: u128 = if input.left && t >= split && v2 >= split as u128 { v2 - split as u128 } else { v2 };
    let right_ok = !(input.right && t < split) || shifted + split as u128 <= usize::MAX as u128;
    left_ok && right_ok
}

/// Whether the tracks of a table of contents are in order (see `toc_ordered`).
pub fn toc_ordered_exec(t: &crate::cd_player_backend::Toc) -> (b: bool)
    ensures
        b == toc_ordered(*t),
{
    let n = t.tracks.len();
    let mut k: usize = 0;
    while k < n
        invariant
            n == t.tracks@.len(),
            0 <= k <= n,
            forall|j: int| 0 <= j < k ==> t.tracks@[j].start_lba <= #[trigger] crate::cd_player_backend::track_end(t.tracks@, t.leadout_lba, j),
        decreases n - k,
    {
        let end = if k == n - 1 { t.leadout_lba } else { t.tracks[k + 1].start_lba };
        assert(end as int == crate::cd_player_backend::track_end(t.tracks@, t.leadout_lba, k as int));
        if t.tracks[k].start_lba > end {
            return false;
        }
        k = k + 1;
    }
    true
}

fn small_clock_exec(v: i64) -> (b: bool)
    ensures
        b == small_clock(v as int),
{
    -0x4_0000_0000_0000 <= v && v <= 0x4_0000_0000_0000
}

/// Whether `update` may be called on these values (see `cd_update_ready`).
pub fn cd_update_ready_exec(ui: &CdPlayerUiState, b: &CdPlayerBackend, input: &InputState, now: i64, sink_empty: bool) -> (r: bool)
    ensures
        r == cd_update_ready(*ui, *b, *input, now, sink_empty),
{
    if !(0 <= now && small_clock_exec(now)) {
        return false;
    }
    let start_ok = match b.playback_start_time {
        Some(s) => small_clock_exec(s),
        None => true,
    };
    let paused_ok = match b.paused_elapsed_time {
        Some(p) => p <= 0x4_0000_0000_0000,
        None => true,
    };
    if !start_ok || !paused_ok || b.track_duration > 0x4000_0000 || b.current_track == usize::MAX {
        return false;
    }
    let n = match &b.toc {
        Some(t) => {
            if !toc_ordered_exec(t) {
                return false;
            }
            t.tracks.len()
        },
        None => 0,
    };
    assert(n as int == track_count(*b));
    if n == 0 {
        return true;
    }
    let t = if b.status == PlayerStatus::Playing && sink_empty && b.current_track + 1 < n {
        b.current_track + 1
    } else {
        ui.selected_track
    };
    nav_defined_exec(t, n, input)
}

} // verus!

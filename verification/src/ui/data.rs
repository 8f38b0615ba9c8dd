//! The save data screen: the grid of saves of the selected storage medium,
//! the arrows that switch media, and the dialogs that copy and delete a
//! save. Loading saves, deleting and copying are done by the caller; these
//! functions decide what happens and what the caller must do.
use vstd::prelude::*;
use crate::ui::{Effect, Sound, ShakeTarget, InputState, UIFocus, GRID_WIDTH, GRID_HEIGHT, only_if, cursor_moved};
use crate::ui::dialog::{
    Dialog, DialogOption, StorageMedia, create_main_dialog, create_copy_storage_dialog,
    create_confirm_delete_dialog, create_save_exists_dialog, create_error_dialog, dialog_is, plain,
    copy_options,
};

verus! {

/// Where the dialog layer stands.
#[derive(PartialEq, Eq, Structural, Clone, Copy, Debug)]
pub enum DialogState {
    Closed,
    Opening,
    Open,
    Closing,
}

/// The state of the save data screen.
pub struct DataState {
    /// The highlighted cell of the grid.
    pub selected_memory: usize,
    /// Rows the grid is scrolled down by.
    pub scroll_offset: usize,
    /// The medium whose saves are shown.
    pub media_selected: usize,
    pub dialog_state: DialogState,
    /// Open dialogs; the last one is on top.
    pub dialogs: Vec<Dialog>,
}

/// The cells of the grid.
pub open spec fn grid_cells() -> int {
    GRID_WIDTH * GRID_HEIGHT
}

/// What one frame of the media switching presses decides.
pub struct MediaSwitch {
    pub effects: Vec<Effect>,
    /// The saves of the newly selected medium must be loaded.
    pub reload: bool,
    /// Back was pressed: return to the main menu.
    pub leave: bool,
}


/// The media switching presses: back leaves; Tab steps to the next medium
/// and wraps (when there are two or more); the next/previous presses step
/// and stop at the ends, where they shake the arrow and sound a rejection.
/// Switching media scrolls the grid back to the top.
pub open spec fn media_switch(
    sel: int,
    scroll: int,
    media_len: int,
    i: InputState,
) -> (int, int, bool, Seq<Effect>) {
    let back = if i.back {
        seq![Effect::Play(Sound::Back)]
    } else {
        Seq::empty()
    };
    if i.cycle {
        if media_len > 1 {
            ((sel + 1) % media_len, 0, true, back + seq![Effect::Play(Sound::Select)])
        } else {
            (sel, scroll, false, back)
        }
    } else if i.next {
        if sel < media_len - 1 {
            (sel + 1, 0, true, back + seq![Effect::Play(Sound::Select)])
        } else {
            (
                sel,
                scroll,
                false,
                back + seq![Effect::Shake(ShakeTarget::RightArrow), Effect::Play(Sound::Reject)],
            )
        }
    } else if i.prev {
        if sel > 0 {
            (sel - 1, 0, true, back + seq![Effect::Play(Sound::Select)])
        } else {
            (
                sel,
                scroll,
                false,
                back + seq![Effect::Shake(ShakeTarget::LeftArrow), Effect::Play(Sound::Reject)],
            )
        }
    } else {
        (sel, scroll, false, back)
    }
}

/// The back and media switching presses of a frame with no dialog open.
pub fn switch_media(st: &mut DataState, input: &InputState, media_len: usize) -> (r: MediaSwitch)
    requires
        media_len > 0 ==> old(st).media_selected < media_len,
        (input.next && !input.cycle) ==> media_len > 0,
    ensures
        ({
            let (sel, scroll, reload, effects) = media_switch(
                old(st).media_selected as int,
                old(st).scroll_offset as int,
                media_len as int,
                *input,
            );
            &&& final(st).media_selected == sel
            &&& final(st).scroll_offset == scroll
            &&& r.reload == reload
            &&& r.effects@ == effects
        }),
        r.leave == input.back,
        media_len > 0 ==> final(st).media_selected < media_len,
        final(st).selected_memory == old(st).selected_memory,
        final(st).dialog_state == old(st).dialog_state,
        final(st).dialogs == old(st).dialogs,
{
    let mut effects: Vec<Effect> = Vec::new();
    if input.back {
        effects.push(Effect::Play(Sound::Back));
    }
    let ghost back = effects@;
    let mut reload = false;
    if input.cycle {
        if media_len > 1 {
            st.media_selected = (st.media_selected + 1) % media_len;
            st.scroll_offset = 0;
            reload = true;
            effects.push(Effect::Play(Sound::Select));
        }
    } else if input.next {
        if st.media_selected < media_len - 1 {
            st.media_selected = st.media_selected + 1;
            st.scroll_offset = 0;
            reload = true;
            effects.push(Effect::Play(Sound::Select));
        } else {
            effects.push(Effect::Shake(ShakeTarget::RightArrow));
            effects.push(Effect::Play(Sound::Reject));
        }
    } else if input.prev {
        if st.media_selected > 0 {
            st.media_selected = st.media_selected - 1;
            st.scroll_offset = 0;
            reload = true;
            effects.push(Effect::Play(Sound::Select));
        } else {
            effects.push(Effect::Shake(ShakeTarget::LeftArrow));
            effects.push(Effect::Play(Sound::Reject));
        }
    }
    proof {
        let (sel, scroll, rl, e) = media_switch(
            old(st).media_selected as int,
            old(st).scroll_offset as int,
            media_len as int,
            *input,
        );
        assert(effects@ =~= e);
    }
    MediaSwitch { effects, reload, leave: input.back }
}


/// What one frame of presses on the grid or the media arrows decides.
pub struct FocusMove {
    pub effects: Vec<Effect>,
    /// The saves of the newly selected medium must be loaded.
    pub reload: bool,
}

fn moved(effects: &mut Vec<Effect>)
    ensures
        final(effects)@ == old(effects)@ + cursor_moved(),
{
    effects.push(Effect::Transition);
    effects.push(Effect::Play(Sound::CursorMove));
    assert(final(effects)@ =~= old(effects)@ + cursor_moved());
}

/// The up press on the grid.
pub open spec fn grid_up(s3: int, sc3: int, up: bool) -> (int, int, UIFocus, bool) {
    let w = GRID_WIDTH as int;
    let up_row = up && s3 >= w;
    let up_scroll = up && !up_row && sc3 > 0;
    let to_left = up && !up_row && !up_scroll && s3 % w == 0;
    let to_right = up && !up_row && !up_scroll && !to_left && s3 % w == w - 1;
    (
        if up_row { s3 - w } else { s3 },
        if up_scroll { sc3 - 1 } else { sc3 },
        if to_left {
            UIFocus::StorageLeft
        } else if to_right {
            UIFocus::StorageRight
        } else {
            UIFocus::Grid
        },
        up_row || up_scroll || to_left || to_right,
    )
}

fn grid_up_exec(s3: usize, sc3: usize, up: bool) -> (r: (usize, usize, UIFocus, bool))
    ensures
        (r.0 as int, r.1 as int, r.2, r.3) == grid_up(s3 as int, sc3 as int, up),
{
    let w = GRID_WIDTH;
    if !up {
        (s3, sc3, UIFocus::Grid, false)
    } else if s3 >= w {
        (s3 - w, sc3, UIFocus::Grid, true)
    } else if sc3 > 0 {
        (s3, sc3 - 1, UIFocus::Grid, true)
    } else if s3 % w == 0 {
        (s3, sc3, UIFocus::StorageLeft, true)
    } else if s3 % w == w - 1 {
        (s3, sc3, UIFocus::StorageRight, true)
    } else {
        (s3, sc3, UIFocus::Grid, false)
    }
}

/// The right, left and down presses on the grid.
pub open spec fn grid_rld(sel: int, scroll: int, memories: int, i: InputState) -> (int, int, Seq<Effect>) {
    let w = GRID_WIDTH as int;
    let right = i.right && sel < grid_cells() - 1;
    let s1 = if right { sel + 1 } else { sel };
    let left = i.left && s1 >= 1;
    let s2 = if left { s1 - 1 } else { s1 };
    let down_row = i.down && s2 < grid_cells() - w;
    let down_scroll = i.down && !down_row && grid_cells() + w * scroll < memories;
    (
        if down_row { s2 + w } else { s2 },
        if down_scroll { scroll + 1 } else { scroll },
        only_if(right, cursor_moved()) + only_if(left, cursor_moved()) + only_if(down_row || down_scroll, cursor_moved()),
    )
}

fn grid_rld_exec(sel0: usize, scroll0: usize, memories_len: usize, input: &InputState) -> (r: (usize, usize, Vec<Effect>))
    requires
        sel0 < grid_cells(),
        sel0 + GRID_WIDTH * scroll0 + grid_cells() <= usize::MAX,
    ensures
        (r.0 as int, r.1 as int, r.2@) == grid_rld(sel0 as int, scroll0 as int, memories_len as int, *input),
        r.0 < grid_cells(),
{
    let w = GRID_WIDTH;
    let cells = GRID_WIDTH * GRID_HEIGHT;
    let mut effects: Vec<Effect> = Vec::new();
    let mut sel = sel0;
    let mut scroll = scroll0;
    if input.right && sel < cells - 1 {
        sel = sel + 1;
        moved(&mut effects);
    }
    let ghost e1 = effects@;
    if input.left && sel >= 1 {
        sel = sel - 1;
        moved(&mut effects);
    }
    let ghost e2 = effects@;
    if input.down {
        if sel < cells - w {
            sel = sel + w;
            moved(&mut effects);
        } else if cells + w * scroll < memories_len {
            scroll = scroll + 1;
            moved(&mut effects);
        }
    }
    proof {
        let (a, b, e) = grid_rld(sel0 as int, scroll0 as int, memories_len as int, *input);
        assert(effects@ =~= e);
    }
    (sel, scroll, effects)
}

/// The grid cursor after one frame of presses: select opens the dialog of
/// the highlighted save (when there is one); right/left move within the
/// grid; down moves a row or, from the last row, scrolls when more saves
/// follow; up moves a row, scrolls back, or from the top row's first or
/// last column moves to the left or right media arrow.
pub open spec fn grid_nav(sel: int, scroll: int, memories: int, i: InputState) -> (int, int, UIFocus, Seq<Effect>, bool) {
    let opens = i.select && sel + GRID_WIDTH * scroll < memories;
    let (s3, sc3, e) = grid_rld(sel, scroll, memories, i);
    let (s4, sc4, f, up_moved) = grid_up(s3, sc3, i.up);
    (
        s4,
        sc4,
        f,
        only_if(opens, seq![Effect::DialogIn, Effect::Play(Sound::Select)]) + e + only_if(up_moved, cursor_moved()),
        opens,
    )
}

/// Opens the first dialog of the highlighted save.
fn open_main_dialog(st: &mut DataState, media_len: usize) -> (effects: Vec<Effect>)
    ensures
        final(st).dialog_state == DialogState::Opening,
        final(st).dialogs@.len() == old(st).dialogs@.len() + 1,
        final(st).dialogs@.drop_last() == old(st).dialogs@,
        dialog_is(
            final(st).dialogs@.last(),
            "main"@,
            None,
            seq![plain("COPY"@, !(media_len > 1)), plain("DELETE"@, false), plain("CANCEL"@, false)],
            0,
        ),
        effects@ == seq![Effect::DialogIn, Effect::Play(Sound::Select)],
        final(st).selected_memory == old(st).selected_memory,
        final(st).scroll_offset == old(st).scroll_offset,
        final(st).media_selected == old(st).media_selected,
{
    st.dialogs.push(create_main_dialog(media_len));
    st.dialog_state = DialogState::Opening;
    let mut effects: Vec<Effect> = Vec::new();
    effects.push(Effect::DialogIn);
    effects.push(Effect::Play(Sound::Select));
    assert(effects@ =~= seq![Effect::DialogIn, Effect::Play(Sound::Select)]);
    effects
}

/// The presses of a frame with the cursor on the grid.
pub fn grid_move(st: &mut DataState, input: &mut InputState, memories_len: usize, media_len: usize) -> (effects: Vec<Effect>)
    requires
        old(input).ui_focus == UIFocus::Grid,
        old(st).selected_memory < grid_cells(),
        old(st).selected_memory + GRID_WIDTH * old(st).scroll_offset + grid_cells() <= usize::MAX,
    ensures
        ({
            let (sel, scroll, f, e, opens) = grid_nav(
                old(st).selected_memory as int,
                old(st).scroll_offset as int,
                memories_len as int,
                *old(input),
            );
            &&& final(st).selected_memory == sel
            &&& final(st).scroll_offset == scroll
            &&& final(input).ui_focus == f
            &&& effects@ == e
            &&& opens ==> final(st).dialog_state == DialogState::Opening && final(st).dialogs@.len()
                == old(st).dialogs@.len() + 1 && final(st).dialogs@.drop_last() == old(st).dialogs@
                && dialog_is(
                final(st).dialogs@.last(),
                "main"@,
                None,
                seq![plain("COPY"@, !(media_len > 1)), plain("DELETE"@, false), plain("CANCEL"@, false)],
                0,
            )
            &&& !opens ==> final(st).dialog_state == old(st).dialog_state && final(st).dialogs
                == old(st).dialogs
        }),
        final(st).selected_memory < grid_cells(),
        final(st).media_selected == old(st).media_selected,
        *final(input) == (InputState { ui_focus: final(input).ui_focus, ..*old(input) }),
{
    let opens = input.select && st.selected_memory + GRID_WIDTH * st.scroll_offset < memories_len;
    let mut effects = if opens {
        open_main_dialog(st, media_len)
    } else {
        Vec::new()
    };
    let ghost e0 = effects@;
    let (s3, sc3, mut e) = grid_rld_exec(st.selected_memory, st.scroll_offset, memories_len, input);
    let ghost e_mid = e@;
    effects.append(&mut e);
    let (s4, sc4, f, up_moved) = grid_up_exec(s3, sc3, input.up);
    let ghost e1 = effects@;
    if up_moved {
        moved(&mut effects);
    }
    st.selected_memory = s4;
    st.scroll_offset = sc4;
    input.ui_focus = f;
    proof {
        assert(e0 =~= only_if(opens, seq![Effect::DialogIn, Effect::Play(Sound::Select)]));
        assert(e1 =~= e0 + e_mid);
        assert(effects@ =~= e0 + e_mid + only_if(up_moved, cursor_moved()));
    }
    effects
}

/// The presses of a frame with the cursor on the left media arrow: right
/// moves to the right arrow, down returns to the first cell of the grid,
/// select steps to the previous medium or, at the first, shakes the arrow.
pub fn left_arrow_move(st: &mut DataState, input: &mut InputState) -> (r: FocusMove)
    requires
        old(input).ui_focus == UIFocus::StorageLeft,
    ensures
        final(input).ui_focus == (if old(input).down {
            UIFocus::Grid
        } else if old(input).right {
            UIFocus::StorageRight
        } else {
            UIFocus::StorageLeft
        }),
        *final(input) == (InputState { ui_focus: final(input).ui_focus, ..*old(input) }),
        final(st).selected_memory == (if old(input).down { 0 } else { old(st).selected_memory }),
        r.reload == (old(input).select && old(st).media_selected > 0),
        final(st).media_selected == (if r.reload { old(st).media_selected - 1 } else { old(st).media_selected as int }),
        final(st).scroll_offset == (if r.reload { 0 } else { old(st).scroll_offset }),
        r.effects@ == only_if(old(input).right, cursor_moved()) + only_if(old(input).down, cursor_moved())
            + only_if(old(input).select, if old(st).media_selected > 0 {
            seq![Effect::Play(Sound::Select)]
        } else {
            seq![Effect::Shake(ShakeTarget::LeftArrow), Effect::Play(Sound::Reject)]
        }),
        final(st).dialog_state == old(st).dialog_state,
        final(st).dialogs == old(st).dialogs,
{
    let mut effects: Vec<Effect> = Vec::new();
    let ghost i0 = *input;
    if input.right {
        input.ui_focus = UIFocus::StorageRight;
        moved(&mut effects);
    }
    let ghost e1 = effects@;
    if input.down {
        input.ui_focus = UIFocus::Grid;
        st.selected_memory = 0;
        moved(&mut effects);
    }
    let ghost e2 = effects@;
    let mut reload = false;
    if input.select {
        if st.media_selected > 0 {
            st.media_selected = st.media_selected - 1;
            st.scroll_offset = 0;
            reload = true;
            effects.push(Effect::Play(Sound::Select));
        } else {
            effects.push(Effect::Shake(ShakeTarget::LeftArrow));
            effects.push(Effect::Play(Sound::Reject));
        }
    }
    proof {
        assert(e1 =~= only_if(i0.right, cursor_moved()));
        assert(e2 =~= e1 + only_if(i0.down, cursor_moved()));
        assert(effects@ =~= e2 + only_if(i0.select, if old(st).media_selected > 0 {
            seq![Effect::Play(Sound::Select)]
        } else {
            seq![Effect::Shake(ShakeTarget::LeftArrow), Effect::Play(Sound::Reject)]
        }));
    }
    FocusMove { effects, reload }
}

/// The presses of a frame with the cursor on the right media arrow: left
/// moves to the left arrow, down returns to the last cell of the grid's top
/// row, select steps to the next medium or, at the last, shakes the arrow.
pub fn right_arrow_move(st: &mut DataState, input: &mut InputState, media_len: usize) -> (r: FocusMove)
    requires
        old(input).ui_focus == UIFocus::StorageRight,
        old(input).select ==> media_len > 0,
    ensures
        final(input).ui_focus == (if old(input).down {
            UIFocus::Grid
        } else if old(input).left {
            UIFocus::StorageLeft
        } else {
            UIFocus::StorageRight
        }),
        *final(input) == (InputState { ui_focus: final(input).ui_focus, ..*old(input) }),
        final(st).selected_memory == (if old(input).down { GRID_WIDTH - 1 } else { old(st).selected_memory as int }),
        r.reload == (old(input).select && old(st).media_selected < media_len - 1),
        final(st).media_selected == (if r.reload { old(st).media_selected + 1 } else { old(st).media_selected as int }),
        final(st).scroll_offset == (if r.reload { 0 } else { old(st).scroll_offset }),
        r.effects@ == only_if(old(input).left, cursor_moved()) + only_if(old(input).down, cursor_moved())
            + only_if(old(input).select, if old(st).media_selected < media_len - 1 {
            seq![Effect::Play(Sound::Select)]
        } else {
            seq![Effect::Shake(ShakeTarget::RightArrow), Effect::Play(Sound::Reject)]
        }),
        final(st).dialog_state == old(st).dialog_state,
        final(st).dialogs == old(st).dialogs,
{
    let mut effects: Vec<Effect> = Vec::new();
    let ghost i0 = *input;
    if input.left {
        input.ui_focus = UIFocus::StorageLeft;
        moved(&mut effects);
    }
    let ghost e1 = effects@;
    if input.down {
        input.ui_focus = UIFocus::Grid;
        st.selected_memory = GRID_WIDTH - 1;
        moved(&mut effects);
    }
    let ghost e2 = effects@;
    let mut reload = false;
    if input.select {
        if st.media_selected < media_len - 1 {
            st.media_selected = st.media_selected + 1;
            st.scroll_offset = 0;
            reload = true;
            effects.push(Effect::Play(Sound::Select));
        } else {
            effects.push(Effect::Shake(ShakeTarget::RightArrow));
            effects.push(Effect::Play(Sound::Reject));
        }
    }
    proof {
        assert(e1 =~= only_if(i0.left, cursor_moved()));
        assert(e2 =~= e1 + only_if(i0.down, cursor_moved()));
        assert(effects@ =~= e2 + only_if(i0.select, if old(st).media_selected < media_len - 1 {
            seq![Effect::Play(Sound::Select)]
        } else {
            seq![Effect::Shake(ShakeTarget::RightArrow), Effect::Play(Sound::Reject)]
        }));
    }
    FocusMove { effects, reload }
}

/// Whether the dialog layer may take input: a dialog is on top whose
/// highlighted option is one of its options, and there are not so many
/// options that the cursor arithmetic overflows.
pub open spec fn dialogs_ready(st: DataState) -> bool {
    st.dialogs@.len() > 0 ==> {
        let d = st.dialogs@.last();
        &&& 0 < d.options@.len() < 0x4000_0000
        &&& d.selection < d.options@.len()
    }
}

/// The highlighted option after the up and down presses on a dialog of `n`
/// options, wrapping.
pub open spec fn dialog_cursor(sel: int, n: int, up: bool, down: bool) -> int {
    (sel + n - (if up { 1int } else { 0 }) + (if down { 1int } else { 0 })) % n
}

/// What one frame of presses on an open dialog decides: up/down move the
/// highlight (wrapping); when it does not move, select picks the
/// highlighted option (a disabled one shakes the dialog and sounds a
/// rejection); "CANCEL", "OK" and back close the dialog.
pub struct DialogPick {
    pub effects: Vec<Effect>,
    /// The dialog id and option value picked.
    pub action: Option<(String, String)>,
}

/// The feedback of the select press on the option `(text, value, disabled)`.
pub open spec fn pick_effects(o: (Seq<char>, Seq<char>, bool)) -> Seq<Effect> {
    if o.2 {
        seq![Effect::Shake(ShakeTarget::Dialog), Effect::Play(Sound::Reject)]
    } else if o.1 == "CANCEL"@ || o.1 == "OK"@ {
        Seq::empty()
    } else {
        seq![Effect::Play(Sound::Select)]
    }
}

/// Whether picking the option closes the dialog.
pub open spec fn closes(o: (Seq<char>, Seq<char>, bool)) -> bool {
    !o.2 && (o.1 == "CANCEL"@ || o.1 == "OK"@)
}

/// The presses of a frame with a dialog open.
pub fn dialog_input(st: &mut DataState, input: &InputState) -> (r: DialogPick)
    requires
        dialogs_ready(*old(st)),
    ensures
        old(st).dialogs@.len() == 0 ==> *final(st) == *old(st) && r.effects@.len() == 0 && r.action is None,
        old(st).dialogs@.len() > 0 ==> ({
            let d = old(st).dialogs@.last();
            let n = d.options@.len() as int;
            let next = dialog_cursor(d.selection as int, n, input.up, input.down);
            let moves = only_if(input.up, cursor_moved()) + only_if(input.down, cursor_moved());
            let picked = next == d.selection && input.select;
            let o = crate::ui::dialog::option_view(d.options@[d.selection as int]);
            let cancel = input.back || (picked && closes(o));
            &&& final(st).dialogs@.len() == old(st).dialogs@.len()
            &&& final(st).dialogs@.drop_last() == old(st).dialogs@.drop_last()
            &&& final(st).dialogs@.last() == (Dialog { selection: next as usize, ..d })
            &&& final(st).selected_memory == old(st).selected_memory
            &&& final(st).scroll_offset == old(st).scroll_offset
            &&& final(st).media_selected == old(st).media_selected
            &&& final(st).dialog_state == (if cancel { DialogState::Closing } else { old(st).dialog_state })
            &&& r.effects@ == moves + only_if(picked, pick_effects(o)) + only_if(
                cancel,
                seq![Effect::DialogOut, Effect::Play(Sound::Back)],
            )
            &&& (picked && !o.2) ==> (r.action matches Some((i, v)) && i@ == d.id@ && v@ == o.1)
            &&& !(picked && !o.2) ==> r.action is None
            &&& dialogs_ready(*final(st))
        }),
{
    let mut effects: Vec<Effect> = Vec::new();
    if st.dialogs.len() == 0 {
        return DialogPick { effects, action: None };
    }
    let last = st.dialogs.len() - 1;
    let n = st.dialogs[last].options.len();
    let sel = st.dialogs[last].selection;
    let mut selection: i32 = sel as i32 + n as i32;
    if input.up {
        selection = selection - 1;
        moved(&mut effects);
    }
    let ghost e1 = effects@;
    if input.down {
        selection = selection + 1;
        moved(&mut effects);
    }
    let ghost e2 = effects@;
    let mut cancel = input.back;
    let next = selection as usize % n;
    let mut action: Option<(String, String)> = None;
    let ghost o = crate::ui::dialog::option_view(st.dialogs@[last as int].options@[sel as int]);
    if next != sel {
        let mut d = st.dialogs.pop().unwrap();
        d.selection = next;
        st.dialogs.push(d);
    } else if input.select {
        let opt = &st.dialogs[last].options[sel];
        if !opt.disabled {
            action = Some((st.dialogs[last].id.clone(), opt.value.clone()));
            if crate::text::str_eq(opt.value.as_str(), "CANCEL") || crate::text::str_eq(opt.value.as_str(), "OK") {
                cancel = true;
            } else {
                effects.push(Effect::Play(Sound::Select));
            }
        } else {
            effects.push(Effect::Shake(ShakeTarget::Dialog));
            effects.push(Effect::Play(Sound::Reject));
        }
    }
    let ghost e3 = effects@;
    if cancel {
        st.dialog_state = DialogState::Closing;
        effects.push(Effect::DialogOut);
        effects.push(Effect::Play(Sound::Back));
    }
    proof {
        assert(e2 =~= only_if(input.up, cursor_moved()) + only_if(input.down, cursor_moved()));
        assert(e3 =~= e2 + only_if(next == sel && input.select, pick_effects(o)));
        assert(effects@ =~= e3 + only_if(cancel, seq![Effect::DialogOut, Effect::Play(Sound::Back)]));
        assert(old(st).dialogs@.drop_last() =~= st.dialogs@.drop_last());
    }
    DialogPick { effects, action }
}

/// The outside work a picked dialog option asks for.
pub struct DialogWork {
    pub effects: Vec<Effect>,
    /// Delete the save at this index of the list from the selected medium,
    /// then report with `after_delete`.
    pub delete: Option<usize>,
    /// Copy the save at this index of the list to the medium with this
    /// name, after checking with `after_exists_check` that it is not there.
    pub copy: Option<(usize, String)>,
}

/// The dialog layer starts closing, with the icon flying back.
pub open spec fn closing(
    s0: DataState,
    s1: DataState,
    effects: Seq<Effect>,
) -> bool {
    &&& s1 == DataState { dialog_state: DialogState::Closing, ..s0 }
    &&& effects == seq![Effect::DialogOut, Effect::Play(Sound::Back)]
}

/// A dialog is pushed on top of the others.
pub open spec fn pushed(s0: DataState, s1: DataState) -> bool {
    &&& s1.dialogs@.len() == s0.dialogs@.len() + 1
    &&& s1.dialogs@.drop_last() == s0.dialogs@
    &&& s1.selected_memory == s0.selected_memory
    &&& s1.scroll_offset == s0.scroll_offset
    &&& s1.media_selected == s0.media_selected
    &&& s1.dialog_state == s0.dialog_state
}

/// What picking option `value` of dialog `id` does: "COPY" asks where to,
/// "DELETE" asks for confirmation; confirming a delete asks the caller to
/// delete the highlighted save (if there is one); a destination asks the
/// caller to copy the highlighted save there; every cancel and "OK" closes
/// the dialogs.
pub open spec fn action_done(
    id: Seq<char>,
    value: Seq<char>,
    media: Seq<StorageMedia>,
    memories: int,
    s0: DataState,
    s1: DataState,
    w: DialogWork,
) -> bool {
    let idx = s0.selected_memory + GRID_WIDTH * s0.scroll_offset;
    let none = w.delete is None && w.copy is None;
    if id == "main"@ && value == "COPY"@ {
        pushed(s0, s1) && dialog_is(
            s1.dialogs@.last(),
            "copy_storage_select"@,
            Some("WHERE TO COPY THIS SAVE DATA?"@),
            copy_options(media, if media.len() > 0 { media[s0.media_selected as int].id@ } else { Seq::empty() })
                + seq![plain("CANCEL"@, false)],
            0,
        ) && w.effects@.len() == 0 && none
    } else if id == "main"@ && value == "DELETE"@ {
        pushed(s0, s1) && dialog_is(
            s1.dialogs@.last(),
            "confirm_delete"@,
            Some("PERMANENTLY DELETE THIS SAVE DATA?"@),
            seq![plain("DELETE"@, false), plain("CANCEL"@, false)],
            1,
        ) && w.effects@.len() == 0 && none
    } else if (id == "main"@ && value == "CANCEL"@) || (id == "confirm_delete"@ && value == "CANCEL"@)
        || (id == "copy_storage_select"@ && value == "CANCEL"@) || (id == "save_exists"@ && value == "OK"@)
        || (id == "error"@ && value == "OK"@) {
        closing(s0, s1, w.effects@) && none
    } else if id == "confirm_delete"@ && value == "DELETE"@ {
        s1 == s0 && w.effects@.len() == 0 && w.copy is None && (if idx < memories {
            w.delete == Some(idx as usize)
        } else {
            w.delete is None
        })
    } else if id == "copy_storage_select"@ {
        s1 == s0 && w.effects@.len() == 0 && w.delete is None && (w.copy matches Some((k, t)) && k == idx
            && t@ == value)
    } else {
        s1 == s0 && w.effects@.len() == 0 && none
    }
}

fn close_dialogs(st: &mut DataState) -> (effects: Vec<Effect>)
    ensures
        closing(*old(st), *final(st), effects@),
{
    st.dialog_state = DialogState::Closing;
    let mut effects: Vec<Effect> = Vec::new();
    effects.push(Effect::DialogOut);
    effects.push(Effect::Play(Sound::Back));
    assert(effects@ =~= seq![Effect::DialogOut, Effect::Play(Sound::Back)]);
    effects
}

/// Carries out the option `value` picked in dialog `id`.
pub fn dialog_action(
    st: &mut DataState,
    id: &str,
    value: &str,
    media: &Vec<StorageMedia>,
    memories_len: usize,
) -> (w: DialogWork)
    requires
        media.len() > 0 ==> old(st).media_selected < media.len(),
        old(st).selected_memory + GRID_WIDTH * old(st).scroll_offset <= usize::MAX,
        (id@ == "copy_storage_select"@ && value@ != "CANCEL"@) ==> old(st).selected_memory + GRID_WIDTH
            * old(st).scroll_offset < memories_len,
    ensures
        action_done(id@, value@, media@, memories_len as int, *old(st), *final(st), w),
{
    let none = DialogWork { effects: Vec::new(), delete: None, copy: None };
    let is_main = crate::text::str_eq(id, "main");
    let is_confirm = crate::text::str_eq(id, "confirm_delete");
    let is_copy = crate::text::str_eq(id, "copy_storage_select");
    let is_cancel = crate::text::str_eq(value, "CANCEL");
    let is_ok = crate::text::str_eq(value, "OK");
    if is_main && crate::text::str_eq(value, "COPY") {
        let d = create_copy_storage_dialog(media, st.media_selected);
        st.dialogs.push(d);
        assert(st.dialogs@.drop_last() =~= old(st).dialogs@);
        none
    } else if is_main && crate::text::str_eq(value, "DELETE") {
        st.dialogs.push(create_confirm_delete_dialog());
        assert(st.dialogs@.drop_last() =~= old(st).dialogs@);
        none
    } else if (is_main && is_cancel) || (is_confirm && is_cancel) || (is_copy && is_cancel) || (
    crate::text::str_eq(id, "save_exists") && is_ok) || (crate::text::str_eq(id, "error") && is_ok) {
        let effects = close_dialogs(st);
        DialogWork { effects, delete: None, copy: None }
    } else if is_confirm && crate::text::str_eq(value, "DELETE") {
        let idx = crate::ui::get_memory_index(st.selected_memory, st.scroll_offset);
        if idx < memories_len {
            DialogWork { effects: Vec::new(), delete: Some(idx), copy: None }
        } else {
            none
        }
    } else if is_copy {
        let idx = crate::ui::get_memory_index(st.selected_memory, st.scroll_offset);
        DialogWork { effects: Vec::new(), delete: None, copy: Some((idx, String::from_str(value))) }
    } else {
        none
    }
}

/// After the caller deleted a save: an error opens an error dialog
/// ("ERROR: " and the message); success closes the dialogs at once and
/// asks for the saves to be loaded again.
pub fn after_delete(st: &mut DataState, result: Result<(), String>) -> (r: (Vec<Effect>, bool))
    ensures
        match result {
            Err(e) => pushed(*old(st), *final(st)) && dialog_is(
                final(st).dialogs@.last(),
                "error"@,
                Some("ERROR: "@ + e@),
                seq![plain("OK"@, false)],
                0,
            ) && r.0@.len() == 0 && !r.1,
            Ok(_) => *final(st) == (DataState { dialog_state: DialogState::Closed, ..*old(st) })
                && r.0@ == seq![Effect::Play(Sound::Back)] && r.1,
        },
{
    match result {
        Err(e) => {
            let mut msg = String::from_str("ERROR: ");
            msg.append(e.as_str());
            st.dialogs.push(create_error_dialog(msg));
            assert(st.dialogs@.drop_last() =~= old(st).dialogs@);
            (Vec::new(), false)
        },
        Ok(_) => {
            st.dialog_state = DialogState::Closed;
            let mut effects: Vec<Effect> = Vec::new();
            effects.push(Effect::Play(Sound::Back));
            assert(effects@ =~= seq![Effect::Play(Sound::Back)]);
            (effects, true)
        },
    }
}

/// After the caller looked for the save at the destination: when it is
/// there, a dialog says so and nothing is copied; otherwise the copy may
/// start. Returns whether to copy.
pub fn after_exists_check(st: &mut DataState, exists: bool) -> (start: bool)
    ensures
        start == !exists,
        exists ==> pushed(*old(st), *final(st)) && dialog_is(
            final(st).dialogs@.last(),
            "save_exists"@,
            Some("THIS SAVE DATA ALREADY EXISTS AT THE SELECTED DESTINATION"@),
            seq![plain("OK"@, false)],
            0,
        ),
        !exists ==> *final(st) == *old(st),
{
    if exists {
        st.dialogs.push(create_save_exists_dialog());
        assert(st.dialogs@.drop_last() =~= old(st).dialogs@);
        false
    } else {
        true
    }
}

/// What a running copy reported since the last frame: an error opens an
/// error dialog reading `Failed to copy save: ` and the error; the end of
/// the copy closes the dialogs.
pub fn copy_report(st: &mut DataState, error: Option<String>, finished: bool)
    ensures
        match error {
            Some(m) => final(st).dialogs@.len() == old(st).dialogs@.len() + 1 && final(st).dialogs@.drop_last()
                == old(st).dialogs@ && dialog_is(
                final(st).dialogs@.last(),
                "error"@,
                Some("Failed to copy save: "@ + m@),
                seq![plain("OK"@, false)],
                0,
            ),
            None => final(st).dialogs == old(st).dialogs,
        },
        final(st).dialog_state == (if finished {
            DialogState::Closing
        } else if error is Some {
            DialogState::Opening
        } else {
            old(st).dialog_state
        }),
        final(st).selected_memory == old(st).selected_memory,
        final(st).scroll_offset == old(st).scroll_offset,
        final(st).media_selected == old(st).media_selected,
{
    match error {
        Some(m) => {
            let mut text = String::from_str("Failed to copy save: ");
            text.append(m.as_str());
            st.dialogs.push(create_error_dialog(text));
            assert(st.dialogs@.drop_last() =~= old(st).dialogs@);
            st.dialog_state = DialogState::Opening;
        },
        None => {},
    }
    if finished {
        st.dialog_state = DialogState::Closing;
    }
}

/// The dialog animation has ended: an opening dialog is open, and closing
/// dialogs are gone.
pub fn transition_finished(st: &mut DataState)
    ensures
        old(st).dialog_state == DialogState::Opening ==> *final(st) == (DataState {
            dialog_state: DialogState::Open,
            ..*old(st)
        }),
        old(st).dialog_state == DialogState::Closing ==> final(st).dialog_state == DialogState::Closed
            && final(st).dialogs@.len() == 0 && final(st).selected_memory == old(st).selected_memory
            && final(st).scroll_offset == old(st).scroll_offset && final(st).media_selected
            == old(st).media_selected,
        (old(st).dialog_state == DialogState::Open || old(st).dialog_state == DialogState::Closed)
            ==> *final(st) == *old(st),
{
    match st.dialog_state {
        DialogState::Opening => {
            st.dialog_state = DialogState::Open;
        },
        DialogState::Closing => {
            st.dialog_state = DialogState::Closed;
            st.dialogs.clear();
        },
        _ => {},
    }
}

/// What to do with the list of saves when the media changed.
#[derive(PartialEq, Eq, Structural, Clone, Copy, Debug)]
pub enum Refresh {
    Keep,
    /// Load the saves of the selected medium.
    Load,
    /// There is no medium: the list is empty.
    Empty,
}

/// When the media changed, the dialogs are dropped and the saves are loaded
/// again, or emptied when no medium is left.
pub fn refresh_memories(st: &mut DataState, needs_refresh: bool, media_len: usize) -> (r: Refresh)
    ensures
        !needs_refresh ==> r == Refresh::Keep && *final(st) == *old(st),
        needs_refresh ==> final(st).dialogs@.len() == 0 && r == (if media_len > 0 {
            Refresh::Load
        } else {
            Refresh::Empty
        }),
        final(st).dialog_state == old(st).dialog_state,
        final(st).selected_memory == old(st).selected_memory,
        final(st).scroll_offset == old(st).scroll_offset,
        final(st).media_selected == old(st).media_selected,
{
    if !needs_refresh {
        return Refresh::Keep;
    }
    st.dialogs.clear();
    if media_len > 0 {
        Refresh::Load
    } else {
        Refresh::Empty
    }
}

/// The grid and arrow presses of a frame with no dialog open, by where the
/// cursor is.
pub fn move_cursor(st: &mut DataState, input: &mut InputState, memories_len: usize, media_len: usize) -> (r: FocusMove)
    requires
        old(st).selected_memory < grid_cells(),
        old(st).selected_memory + GRID_WIDTH * old(st).scroll_offset + grid_cells() <= usize::MAX,
        (old(input).ui_focus == UIFocus::StorageRight && old(input).select) ==> media_len > 0,
    ensures
        old(input).ui_focus == UIFocus::Grid ==> ({
            let (sel, scroll, f, e, opens) = grid_nav(
                old(st).selected_memory as int,
                old(st).scroll_offset as int,
                memories_len as int,
                *old(input),
            );
            &&& final(st).selected_memory == sel
            &&& final(st).scroll_offset == scroll
            &&& final(input).ui_focus == f
            &&& r.effects@ == e
            &&& !r.reload
            &&& opens ==> final(st).dialog_state == DialogState::Opening && final(st).dialogs@.len()
                == old(st).dialogs@.len() + 1 && final(st).dialogs@.drop_last() == old(st).dialogs@
                && dialog_is(
                final(st).dialogs@.last(),
                "main"@,
                None,
                seq![plain("COPY"@, !(media_len > 1)), plain("DELETE"@, false), plain("CANCEL"@, false)],
                0,
            )
            &&& !opens ==> final(st).dialog_state == old(st).dialog_state && final(st).dialogs
                == old(st).dialogs
            &&& final(st).media_selected == old(st).media_selected
        }),
        old(input).ui_focus == UIFocus::StorageLeft ==> ({
            &&& final(input).ui_focus == (if old(input).down {
                UIFocus::Grid
            } else if old(input).right {
                UIFocus::StorageRight
            } else {
                UIFocus::StorageLeft
            })
            &&& final(st).selected_memory == (if old(input).down { 0 } else { old(st).selected_memory })
            &&& r.reload == (old(input).select && old(st).media_selected > 0)
            &&& final(st).media_selected == (if r.reload {
                old(st).media_selected - 1
            } else {
                old(st).media_selected as int
            })
            &&& final(st).scroll_offset == (if r.reload { 0 } else { old(st).scroll_offset })
            &&& r.effects@ == only_if(old(input).right, cursor_moved()) + only_if(old(input).down, cursor_moved())
                + only_if(old(input).select, if old(st).media_selected > 0 {
                seq![Effect::Play(Sound::Select)]
            } else {
                seq![Effect::Shake(ShakeTarget::LeftArrow), Effect::Play(Sound::Reject)]
            })
            &&& final(st).dialog_state == old(st).dialog_state
            &&& final(st).dialogs == old(st).dialogs
        }),
        old(input).ui_focus == UIFocus::StorageRight ==> ({
            &&& final(input).ui_focus == (if old(input).down {
                UIFocus::Grid
            } else if old(input).left {
                UIFocus::StorageLeft
            } else {
                UIFocus::StorageRight
            })
            &&& final(st).selected_memory == (if old(input).down {
                GRID_WIDTH - 1
            } else {
                old(st).selected_memory as int
            })
            &&& r.reload == (old(input).select && old(st).media_selected < media_len - 1)
            &&& final(st).media_selected == (if r.reload {
                old(st).media_selected + 1
            } else {
                old(st).media_selected as int
            })
            &&& final(st).scroll_offset == (if r.reload { 0 } else { old(st).scroll_offset })
            &&& r.effects@ == only_if(old(input).left, cursor_moved()) + only_if(old(input).down, cursor_moved())
                + only_if(old(input).select, if old(st).media_selected < media_len - 1 {
                seq![Effect::Play(Sound::Select)]
            } else {
                seq![Effect::Shake(ShakeTarget::RightArrow), Effect::Play(Sound::Reject)]
            })
            &&& final(st).dialog_state == old(st).dialog_state
            &&& final(st).dialogs == old(st).dialogs
        }),
        *final(input) == (InputState { ui_focus: final(input).ui_focus, ..*old(input) }),
        final(st).selected_memory < grid_cells(),
{
    match input.ui_focus {
        UIFocus::Grid => {
            let effects = grid_move(st, input, memories_len, media_len);
            FocusMove { effects, reload: false }
        },
        UIFocus::StorageLeft => left_arrow_move(st, input),
        UIFocus::StorageRight => right_arrow_move(st, input, media_len),
    }
}


/// Moving the highlight of an open dialog up and then down (in two
/// frames) returns it to where it was.
pub proof fn law_dialog_up_then_down(sel: int, n: int)
    requires
        0 <= sel < n,
    ensures
        dialog_cursor(dialog_cursor(sel, n, true, false), n, false, true) == sel,
{
    let a = dialog_cursor(sel, n, true, false);
    assert(a == (sel + n - 1) % n);
    if sel == 0 {
        assert((n - 1) % n == n - 1) by (nonlinear_arith) requires n > 0;
        assert((n - 1 + n + 1) % n == 0) by (nonlinear_arith) requires n > 0;
    } else {
        assert((sel + n - 1) % n == sel - 1) by (nonlinear_arith) requires 0 < sel < n;
        assert((sel - 1 + n + 1) % n == sel) by (nonlinear_arith) requires 0 < sel < n;
    }
}

/// Pressing up and down in the same frame leaves the highlight where it
/// was.
pub proof fn law_dialog_up_and_down(sel: int, n: int)
    requires
        0 <= sel < n,
    ensures
        dialog_cursor(sel, n, true, true) == sel,
{
    assert((sel + n - 1 + 1) % n == sel) by (nonlinear_arith) requires 0 <= sel < n;
}

/// On the grid, right then left (in two frames, nothing else pressed)
/// returns the highlight to where it was, unless it was on the last cell.
pub proof fn law_grid_right_then_left(sel: int, scroll: int, memories: int)
    requires
        0 <= sel < grid_cells() - 1,
    ensures
        ({
            let r = InputState { right: true, ..crate::ui::initial_input() };
            let l = InputState { left: true, ..crate::ui::initial_input() };
            let (s1, sc1, e1) = grid_rld(sel, scroll, memories, r);
            let (s2, sc2, e2) = grid_rld(s1, sc1, memories, l);
            s2 == sel && sc2 == scroll
        }),
{
}

} // verus!

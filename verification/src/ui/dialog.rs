//! The dialogs of the save data screen: a question, its options, and the
//! highlighted option.
use vstd::prelude::*;
use crate::numparse::{dec_digits, u64_to_string};

verus! {

/// An option of a dialog: what is shown, what it stands for, and whether it
/// can be chosen.
pub struct DialogOption {
    pub text: String,
    pub value: String,
    pub disabled: bool,
}

/// A dialog box.
pub struct Dialog {
    pub id: String,
    pub desc: Option<String>,
    pub options: Vec<DialogOption>,
    pub selection: usize,
}

/// A storage medium: its drive name and free space in MB.
pub struct StorageMedia {
    pub id: String,
    pub free: u32,
}

/// An option as text, value and disabled flag.
pub open spec fn option_view(o: DialogOption) -> (Seq<char>, Seq<char>, bool) {
    (o.text@, o.value@, o.disabled)
}

/// The options as text, value and disabled flag.
pub open spec fn options_view(v: Seq<DialogOption>) -> Seq<(Seq<char>, Seq<char>, bool)> {
    v.map_values(|o: DialogOption| option_view(o))
}

/// The description by its view.
pub open spec fn desc_view(d: Option<String>) -> Option<Seq<char>> {
    match d {
        Some(s) => Some(s@),
        None => None,
    }
}

/// A dialog with the given id, description, options and selection.
pub open spec fn dialog_is(
    d: Dialog,
    id: Seq<char>,
    desc: Option<Seq<char>>,
    options: Seq<(Seq<char>, Seq<char>, bool)>,
    selection: int,
) -> bool {
    &&& d.id@ == id
    &&& desc_view(d.desc) == desc
    &&& options_view(d.options@) == options
    &&& d.selection == selection
}

/// An option whose text and value are the same word.
pub open spec fn plain(word: Seq<char>, disabled: bool) -> (Seq<char>, Seq<char>, bool) {
    (word, word, disabled)
}

fn option(text: &str, value: &str, disabled: bool) -> (o: DialogOption)
    ensures
        option_view(o) == (text@, value@, disabled),
{
    DialogOption { text: String::from_str(text), value: String::from_str(value), disabled }
}

fn push_option(v: &mut Vec<DialogOption>, o: DialogOption)
    ensures
        options_view(final(v)@) == options_view(old(v)@).push(option_view(o)),
{
    v.push(o);
    proof {
        assert(options_view(final(v)@) =~= options_view(old(v)@).push(option_view(o)));
    }
}

/// Asks whether to delete the save, with "CANCEL" highlighted.
pub fn create_confirm_delete_dialog() -> (d: Dialog)
    ensures
        dialog_is(
            d,
            "confirm_delete"@,
            Some("PERMANENTLY DELETE THIS SAVE DATA?"@),
            seq![plain("DELETE"@, false), plain("CANCEL"@, false)],
            1,
        ),
{
    let mut options: Vec<DialogOption> = Vec::new();
    push_option(&mut options, option("DELETE", "DELETE", false));
    push_option(&mut options, option("CANCEL", "CANCEL", false));
    assert(options_view(options@) =~= seq![plain("DELETE"@, false), plain("CANCEL"@, false)]);
    Dialog {
        id: String::from_str("confirm_delete"),
        desc: Some(String::from_str("PERMANENTLY DELETE THIS SAVE DATA?")),
        options,
        selection: 1,
    }
}

/// The label of a copy destination: `"{id} ({free} MB Free)"`.
pub open spec fn copy_label(m: StorageMedia) -> Seq<char> {
    m.id@ + " ("@ + dec_digits(m.free as nat) + " MB Free)"@
}

/// The options offering each medium other than the current one, in order.
pub open spec fn copy_options(media: Seq<StorageMedia>, current: Seq<char>) -> Seq<(Seq<char>, Seq<char>, bool)>
    decreases media.len(),
{
    if media.len() == 0 {
        Seq::empty()
    } else {
        let rest = copy_options(media.drop_last(), current);
        let m = media.last();
        if m.id@ == current {
            rest
        } else {
            rest.push((copy_label(m), m.id@, false))
        }
    }
}

/// Asks where to copy the save: every medium but the current one, with its
/// free space, then "CANCEL".
pub fn create_copy_storage_dialog(media: &Vec<StorageMedia>, selected: usize) -> (d: Dialog)
    requires
        media.len() > 0 ==> selected < media.len(),
    ensures
        dialog_is(
            d,
            "copy_storage_select"@,
            Some("WHERE TO COPY THIS SAVE DATA?"@),
            copy_options(media@, if media.len() > 0 { media@[selected as int].id@ } else { Seq::empty() })
                + seq![plain("CANCEL"@, false)],
            0,
        ),
{
    let ghost current = if media.len() > 0 {
        media@[selected as int].id@
    } else {
        Seq::<char>::empty()
    };
    let mut options: Vec<DialogOption> = Vec::new();
    let mut i: usize = 0;
    while i < media.len()
        invariant
            0 <= i <= media.len(),
            media.len() > 0 ==> selected < media.len(),
            current == (if media.len() > 0 { media@[selected as int].id@ } else { Seq::<char>::empty() }),
            options_view(options@) == copy_options(media@.take(i as int), current),
        decreases media.len() - i,
    {
        proof {
            assert(media@.take(i + 1).drop_last() == media@.take(i as int));
        }
        if !crate::text::str_eq(media[i].id.as_str(), media[selected].id.as_str()) {
            let mut text = media[i].id.clone();
            text.append(" (");
            let n = u64_to_string(media[i].free as u64);
            text.append(n.as_str());
            text.append(" MB Free)");
            push_option(&mut options, DialogOption { text, value: media[i].id.clone(), disabled: false });
        }
        i = i + 1;
    }
    assert(media@.take(media.len() as int) == media@);
    let ghost before = options_view(options@);
    push_option(&mut options, option("CANCEL", "CANCEL", false));
    assert(options_view(options@) =~= before + seq![plain("CANCEL"@, false)]);
    Dialog {
        id: String::from_str("copy_storage_select"),
        desc: Some(String::from_str("WHERE TO COPY THIS SAVE DATA?")),
        options,
        selection: 0,
    }
}

/// The first dialog of a save: copy (possible only when there is another
/// medium), delete, or cancel.
pub fn create_main_dialog(media_count: usize) -> (d: Dialog)
    ensures
        dialog_is(
            d,
            "main"@,
            None,
            seq![plain("COPY"@, !(media_count > 1)), plain("DELETE"@, false), plain("CANCEL"@, false)],
            0,
        ),
{
    let has_external_devices = media_count > 1;
    let mut options: Vec<DialogOption> = Vec::new();
    push_option(&mut options, option("COPY", "COPY", !has_external_devices));
    push_option(&mut options, option("DELETE", "DELETE", false));
    push_option(&mut options, option("CANCEL", "CANCEL", false));
    assert(options_view(options@) =~= seq![
        plain("COPY"@, !(media_count > 1)),
        plain("DELETE"@, false),
        plain("CANCEL"@, false),
    ]);
    Dialog { id: String::from_str("main"), desc: None, options, selection: 0 }
}

/// Tells that the destination already holds this save.
pub fn create_save_exists_dialog() -> (d: Dialog)
    ensures
        dialog_is(
            d,
            "save_exists"@,
            Some("THIS SAVE DATA ALREADY EXISTS AT THE SELECTED DESTINATION"@),
            seq![plain("OK"@, false)],
            0,
        ),
{
    let mut options: Vec<DialogOption> = Vec::new();
    push_option(&mut options, option("OK", "OK", false));
    assert(options_view(options@) =~= seq![plain("OK"@, false)]);
    Dialog {
        id: String::from_str("save_exists"),
        desc: Some(String::from_str("THIS SAVE DATA ALREADY EXISTS AT THE SELECTED DESTINATION")),
        options,
        selection: 0,
    }
}

/// Shows an error message with an "OK" option.
pub fn create_error_dialog(message: String) -> (d: Dialog)
    ensures
        dialog_is(d, "error"@, Some(message@), seq![plain("OK"@, false)], 0),
{
    let mut options: Vec<DialogOption> = Vec::new();
    push_option(&mut options, option("OK", "OK", false));
    assert(options_view(options@) =~= seq![plain("OK"@, false)]);
    Dialog { id: String::from_str("error"), desc: Some(message), options, selection: 0 }
}

} // verus!

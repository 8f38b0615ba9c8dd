//! Asset discovery: which sound packs and asset files the settings offer,
//! and the choice lists built from what was loaded.
use vstd::prelude::*;
use crate::paths::{extension, join};
use crate::sorting::{views, is_stable_sort_of};
use crate::text::{ends_with, lex_lt};

verus! {

/// One entry of a directory listing: its file name and whether it is a file.
pub struct DirEntryInfo {
    pub name: String,
    pub is_file: bool,
}

/// Whether an entry is an asset file of one of the given extensions.
pub open spec fn is_asset(e: DirEntryInfo, exts: Seq<Seq<char>>) -> bool {
    e.is_file && match extension(e.name@) {
        Some(x) => exts.contains(x),
        None => false,
    }
}

/// The names of the entries that are asset files, in listing order.
pub open spec fn asset_names(entries: Seq<DirEntryInfo>, exts: Seq<Seq<char>>) -> Seq<Seq<char>>
    decreases entries.len(),
{
    if entries.len() == 0 {
        seq![]
    } else {
        let rest = asset_names(entries.drop_last(), exts);
        if is_asset(entries.last(), exts) {
            rest.push(entries.last().name@)
        } else {
            rest
        }
    }
}

/// Whether the character sequence `x` is one of the strings of `list`.
pub fn contains_string(list: &Vec<String>, x: &[char]) -> (r: bool)
    ensures
        r == views(list@).contains(x@),
{
    let mut i: usize = 0;
    while i < list.len()
        invariant
            0 <= i <= list.len(),
            forall|j: int| 0 <= j < i ==> views(list@)[j] != x@,
        decreases list.len() - i,
    {
        let c = crate::text::chars_of(list[i].as_str());
        if crate::text::seq_eq(c.as_slice(), x) {
            assert(views(list@)[i as int] == x@);
            return true;
        }
        i = i + 1;
    }
    false
}

/// `find_asset_files` on a listing already read: the paths, under
/// `dir_path`, of the files whose extension is one of `extensions`,
/// sorted by file name.
pub fn find_asset_files(dir_path: &str, entries: &Vec<DirEntryInfo>, extensions: &Vec<String>) -> (r: Vec<String>)
    ensures
        exists|sorted: Seq<Seq<char>>|
            {
                &&& is_stable_sort_of(
                    asset_names(entries@, views(extensions@)),
                    asset_names(entries@, views(extensions@)),
                    sorted,
                )
                &&& r.len() == sorted.len()
                &&& forall|i: int| 0 <= i < r.len() ==> #[trigger] r@[i]@ == join(dir_path@, sorted[i])
            },
{
    let ghost exts = views(extensions@);
    let mut names: Vec<String> = Vec::new();
    let mut i: usize = 0;
    while i < entries.len()
        invariant
            0 <= i <= entries.len(),
            exts == views(extensions@),
            views(names@) == asset_names(entries@.take(i as int), exts),
        decreases entries.len() - i,
    {
        let e = &entries[i];
        let name = crate::text::chars_of(e.name.as_str());
        let keep = if e.is_file {
            match crate::paths::file_extension(name.as_slice()) {
                Some(x) => contains_string(extensions, x.as_slice()),
                None => false,
            }
        } else {
            false
        };
        proof {
            assert(entries@.take(i + 1).drop_last() == entries@.take(i as int));
            assert(entries@.take(i + 1).last() == entries@[i as int]);
        }
        if keep {
            names.push(e.name.clone());
            proof {
                assert(views(names@) == views(names@.drop_last()).push(e.name@));
            }
        }
        i = i + 1;
    }
    assert(entries@.take(entries.len() as int) == entries@);
    let sorted = crate::sorting::sort_strings(&names);
    let mut r: Vec<String> = Vec::new();
    let mut k: usize = 0;
    while k < sorted.len()
        invariant
            0 <= k <= sorted.len(),
            r.len() == k,
            forall|j: int| 0 <= j < k ==> #[trigger] r@[j]@ == join(dir_path@, sorted@[j]@),
        decreases sorted.len() - k,
    {
        let p = crate::paths::path_join(dir_path, sorted[k].as_str());
        r.push(p);
        k = k + 1;
    }
    proof {
        let sv = views(sorted@);
        assert forall|j: int| 0 <= j < r.len() implies #[trigger] r@[j]@ == join(dir_path@, sv[j]) by {
            assert(sv[j] == sorted@[j]@);
        }
    }
    r
}

/// The sound packs on offer: `"Default"` and every pack directory found,
/// each once, sorted.
pub fn find_sound_packs(found: &Vec<String>) -> (r: Vec<String>)
    ensures
        forall|i: int, j: int| 0 <= i < j < r.len() ==> lex_lt(#[trigger] r@[i]@, #[trigger] r@[j]@),
        forall|x: Seq<char>| views(r@).contains(x) <==> (x == "Default"@ || views(found@).contains(x)),
{
    let mut all: Vec<String> = Vec::new();
    all.push(String::from_str("Default"));
    let mut i: usize = 0;
    while i < found.len()
        invariant
            0 <= i <= found.len(),
            views(all@) == seq!["Default"@] + views(found@.take(i as int)),
        decreases found.len() - i,
    {
        all.push(found[i].clone());
        proof {
            assert(found@.take(i + 1) == found@.take(i as int).push(found@[i as int]));
            assert(views(found@.take(i + 1)) == views(found@.take(i as int)).push(found@[i as int]@));
            assert(views(all@) == views(all@.drop_last()).push(found@[i as int]@));
            assert(seq!["Default"@] + views(found@.take(i + 1)) == (seq!["Default"@] + views(found@.take(i as int))).push(found@[i as int]@));
        }
        i = i + 1;
    }
    assert(found@.take(found.len() as int) == found@);
    let r = crate::sorting::sort_dedup_strings(&all);
    proof {
        assert forall|x: Seq<char>| views(all@).contains(x) <==> (x == "Default"@ || views(
            found@,
        ).contains(x)) by {
            let va = views(all@);
            let vf = views(found@);
            if va.contains(x) {
                let k = choose|k: int| 0 <= k < va.len() && va[k] == x;
                if k > 0 {
                    assert(vf[k - 1] == x);
                }
            }
            if x == "Default"@ {
                assert(va[0] == x);
            }
            if vf.contains(x) {
                let k = choose|k: int| 0 <= k < vf.len() && vf[k] == x;
                assert(va[k + 1] == x);
            }
        }
    }
    r
}


/// Custom logos: those named `*_logo.png`, other than the built-in one.
pub open spec fn is_custom_logo(k: Seq<char>) -> bool {
    k != "Kazeta+ (Default)"@ && ends_with(k, "_logo.png"@)
}

/// Backgrounds on offer: those named `*_background.png`, and the built-in one.
pub open spec fn is_offered_background(k: Seq<char>) -> bool {
    ends_with(k, "_background.png"@) || k == "Default"@
}

/// The strings of `keys` for which `pick` says yes, keeping their order;
/// `pick` is 0 for custom logos and 1 for offered backgrounds.
fn filter_names(keys: &Vec<String>, pick: u8) -> (r: Vec<String>)
    requires
        pick <= 1,
    ensures
        views(r@) == views(keys@).filter(
            if pick == 0 {
                |k: Seq<char>| is_custom_logo(k)
            } else {
                |k: Seq<char>| is_offered_background(k)
            },
        ),
{
    let ghost f = if pick == 0 {
        |k: Seq<char>| is_custom_logo(k)
    } else {
        |k: Seq<char>| is_offered_background(k)
    };
    let mut r: Vec<String> = Vec::new();
    let mut i: usize = 0;
    while i < keys.len()
        invariant
            0 <= i <= keys.len(),
            pick <= 1,
            f == (if pick == 0 {
                |k: Seq<char>| is_custom_logo(k)
            } else {
                |k: Seq<char>| is_offered_background(k)
            }),
            views(r@) == views(keys@.take(i as int)).filter(f),
        decreases keys.len() - i,
    {
        let k = &keys[i];
        let keep = if pick == 0 {
            !crate::text::str_eq(k.as_str(), "Kazeta+ (Default)") && crate::text::str_ends_with(
                k.as_str(),
                "_logo.png",
            )
        } else {
            crate::text::str_ends_with(k.as_str(), "_background.png") || crate::text::str_eq(
                k.as_str(),
                "Default",
            )
        };
        proof {
            assert(keys@.take(i + 1) == keys@.take(i as int).push(keys@[i as int]));
            assert(views(keys@.take(i + 1)) == views(keys@.take(i as int)).push(keys@[i as int]@));
            views(keys@.take(i as int)).lemma_filter_push(keys@[i as int]@, f);
            assert(keep == f(keys@[i as int]@));
        }
        if keep {
            r.push(k.clone());
            assert(views(r@) == views(r@.drop_last()).push(keys@[i as int]@));
        }
        i = i + 1;
    }
    assert(keys@.take(keys.len() as int) == keys@);
    r
}

/// The logo choices: `"None"`, the built-in logo, then the custom logos
/// (`*_logo.png`) sorted.
pub fn logo_choices(logo_keys: &Vec<String>) -> (r: Vec<String>)
    ensures
        r.len() >= 2,
        r@[0]@ == "None"@,
        r@[1]@ == "Kazeta+ (Default)"@,
        is_stable_sort_of(
            views(logo_keys@).filter(|k: Seq<char>| is_custom_logo(k)),
            views(logo_keys@).filter(|k: Seq<char>| is_custom_logo(k)),
            views(r@).skip(2),
        ),
{
    let custom = filter_names(logo_keys, 0);
    let sorted = crate::sorting::sort_strings(&custom);
    let mut r: Vec<String> = Vec::new();
    r.push(String::from_str("None"));
    r.push(String::from_str("Kazeta+ (Default)"));
    let mut i: usize = 0;
    while i < sorted.len()
        invariant
            0 <= i <= sorted.len(),
            r.len() == i + 2,
            r@[0]@ == "None"@,
            r@[1]@ == "Kazeta+ (Default)"@,
            views(r@).skip(2) == views(sorted@).take(i as int),
        decreases sorted.len() - i,
    {
        r.push(sorted[i].clone());
        proof {
            assert(views(r@).skip(2) == views(r@.drop_last()).skip(2).push(sorted@[i as int]@));
            assert(views(sorted@).take(i + 1) == views(sorted@).take(i as int).push(sorted@[i as int]@));
        }
        i = i + 1;
    }
    assert(views(sorted@).take(sorted.len() as int) == views(sorted@));
    r
}

/// The background choices: the built-in background and those named
/// `*_background.png`, sorted.
pub fn background_choices(background_keys: &Vec<String>) -> (r: Vec<String>)
    ensures
        is_stable_sort_of(
            views(background_keys@).filter(|k: Seq<char>| is_offered_background(k)),
            views(background_keys@).filter(|k: Seq<char>| is_offered_background(k)),
            views(r@),
        ),
{
    let picked = filter_names(background_keys, 1);
    crate::sorting::sort_strings(&picked)
}

/// The background music choices: `"OFF"` followed by the music file names
/// in the order they were found.
pub fn bgm_choices(track_names: &Vec<String>) -> (r: Vec<String>)
    ensures
        views(r@) == seq!["OFF"@] + views(track_names@),
{
    let mut r: Vec<String> = Vec::new();
    r.push(String::from_str("OFF"));
    let mut i: usize = 0;
    while i < track_names.len()
        invariant
            0 <= i <= track_names.len(),
            views(r@) == seq!["OFF"@] + views(track_names@.take(i as int)),
        decreases track_names.len() - i,
    {
        r.push(track_names[i].clone());
        proof {
            assert(track_names@.take(i + 1) == track_names@.take(i as int).push(track_names@[i as int]));
            assert(views(track_names@.take(i + 1)) == views(track_names@.take(i as int)).push(track_names@[i as int]@));
            assert(views(r@) == views(r@.drop_last()).push(track_names@[i as int]@));
            assert(seq!["OFF"@] + views(track_names@.take(i + 1)) == (seq!["OFF"@] + views(track_names@.take(i as int))).push(track_names@[i as int]@));
        }
        i = i + 1;
    }
    assert(track_names@.take(track_names.len() as int) == track_names@);
    r
}

} // verus!

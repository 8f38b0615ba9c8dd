//! Start-up: the message shown while loading, how many assets are loaded
//! and what the loading screen says about each, the theme list, where the
//! sound effects of a pack come from, and when music plays. Textures,
//! fonts and sounds themselves are loaded by the caller.
use vstd::prelude::*;
use crate::ui::theme_downloader::message_text;

verus! {

/// The messages one of which is shown while loading.
pub const KAZETA_LOADING_MESSAGES: [&'static str; 10] = [
    "INITIALIZING CONSOLE EXPERIENCE...",
    "PLUG, PLAY, AND...WELL, THAT'S ABOUT IT.",
    "KAZETA IS CZECH FOR 'CASSETTE'.",
    "BLOWING DUST OFF THE CARTRIDGE...",
    "RUNNING `SUDO PACMAN -SYU`...\nJUST KIDDING ;-).",
    "NO COMPLEX SETUP REQUIRED. JUST PLAY.",
    "A SYSTEM BY ALKAZAR.",
    "INHERITING THE SPIRIT OF THE CHIMERA...",
    "MOUNTING GAME DATA...",
    "REMEMBER TO SAVE YOUR PROGRESS.",
];

/// `rand::thread_rng().gen_range(0..n)`: a number below `n`, drawn at
/// random; only that it is below `n` is claimed.
#[verifier::external_body]
fn random_below(n: usize) -> (r: usize)
    requires
        n > 0,
    ensures
        r < n,
{
    rand::Rng::gen_range(&mut rand::thread_rng(), 0..n)
}

/// The loading message at position `i`.
pub fn loading_message(i: usize) -> (r: &'static str)
    requires
        i < 10,
    ensures
        r == KAZETA_LOADING_MESSAGES[i as int],
{
    KAZETA_LOADING_MESSAGES[i]
}

/// One of the loading messages, drawn at random.
pub fn random_loading_message() -> (r: &'static str)
    ensures
        exists|i: int| 0 <= i < 10 && r == KAZETA_LOADING_MESSAGES[i],
{
    let i = random_below(10);
    loading_message(i)
}

/// The kinds of asset loaded at start-up.
#[derive(PartialEq, Eq, Structural, Clone, Copy, Debug)]
pub enum AssetCategory {
    Background,
    Logo,
    Font,
    Music,
}

/// The number of steps of the progress bar: the seven built-in assets
/// (background, logo, font and four sound effects) and every file found.
pub fn total_asset_count(backgrounds: usize, logos: usize, fonts: usize, music: usize) -> (r: usize)
    requires
        7 + backgrounds + logos + fonts + music <= usize::MAX,
    ensures
        r == 7 + backgrounds + logos + fonts + music,
{
    3 + 4 + backgrounds + logos + fonts + music
}

/// What the loading screen says while loading the built-in assets, in
/// order; the last four are the sound effects.
pub open spec fn default_status(i: int) -> Seq<char> {
    if i == 0 {
        "LOADING DEFAULT BACKGROUND..."@
    } else if i == 1 {
        "LOADING DEFAULT LOGO..."@
    } else if i == 2 {
        "LOADING DEFAULT FONT..."@
    } else {
        "LOADING DEFAULT SFX..."@
    }
}

/// See `default_status`.
pub fn default_step_status(i: usize) -> (r: String)
    ensures
        r@ == default_status(i as int),
{
    if i == 0 {
        String::from_str("LOADING DEFAULT BACKGROUND...")
    } else if i == 1 {
        String::from_str("LOADING DEFAULT LOGO...")
    } else if i == 2 {
        String::from_str("LOADING DEFAULT FONT...")
    } else {
        String::from_str("LOADING DEFAULT SFX...")
    }
}

/// The name a category has on the loading screen.
pub open spec fn category_name(c: AssetCategory) -> Seq<char> {
    match c {
        AssetCategory::Background => "BACKGROUND"@,
        AssetCategory::Logo => "LOGO"@,
        AssetCategory::Font => "FONT"@,
        AssetCategory::Music => "MUSIC"@,
    }
}

/// What the loading screen says while loading a file: `LOADING KIND:
/// name`; fonts are announced once for all, as `LOADING FONTS...`.
pub fn loading_status(c: AssetCategory, file_name: &str) -> (r: String)
    ensures
        c == AssetCategory::Font ==> r@ == "LOADING FONTS..."@,
        c != AssetCategory::Font ==> r@ == "LOADING "@ + category_name(c) + ": "@ + file_name@,
{
    let kind = match c {
        AssetCategory::Background => "BACKGROUND",
        AssetCategory::Logo => "LOGO",
        AssetCategory::Font => return String::from_str("LOADING FONTS..."),
        AssetCategory::Music => "MUSIC",
    };
    let head = message_text("LOADING ", kind, ": ");
    let mut r = String::from_str(head.as_str());
    r.append(file_name);
    r
}

/// How far loading has come: `loaded` of `total` steps.
pub struct LoadProgress {
    pub loaded: usize,
    pub total: usize,
}

/// The progress once a file was tried: a font counts whether or not it
/// loaded; any other file only when it loaded.
pub fn after_load(p: LoadProgress, c: AssetCategory, ok: bool) -> (r: LoadProgress)
    requires
        p.loaded < usize::MAX,
    ensures
        r.total == p.total,
        r.loaded == p.loaded + (if c == AssetCategory::Font || ok { 1int } else { 0int }),
{
    if c == AssetCategory::Font || ok {
        LoadProgress { loaded: p.loaded + 1, total: p.total }
    } else {
        LoadProgress { loaded: p.loaded, total: p.total }
    }
}

/// The key a built-in asset has in its cache.
pub fn default_cache_key(c: AssetCategory) -> (r: &'static str)
    ensures
        c == AssetCategory::Logo ==> r@ == "Kazeta+ (Default)"@,
        c != AssetCategory::Logo ==> r@ == "Default"@,
{
    match c {
        AssetCategory::Logo => "Kazeta+ (Default)",
        _ => "Default",
    }
}

// ---------------------------------------------------------------------
// Themes, sound effects and music
// ---------------------------------------------------------------------

/// The themes offered: `Default`, then the theme folders found, in order.
pub fn find_themes(folders: &Vec<String>) -> (r: Vec<String>)
    ensures
        crate::sorting::views(r@) == seq!["Default"@] + crate::sorting::views(folders@),
{
    let mut r: Vec<String> = Vec::new();
    r.push(String::from_str("Default"));
    let mut i: usize = 0;
    while i < folders.len()
        invariant
            0 <= i <= folders@.len(),
            crate::sorting::views(r@) == seq!["Default"@] + crate::sorting::views(folders@.take(i as int)),
        decreases folders.len() - i,
    {
        let ghost before = crate::sorting::views(r@);
        r.push(folders[i].clone());
        proof {
            assert(crate::sorting::views(r@) =~= before.push(folders@[i as int]@));
            assert(crate::sorting::views(folders@.take(i + 1)) =~= crate::sorting::views(folders@.take(i as int)).push(folders@[i as int]@));
        }
        i = i + 1;
    }
    assert(folders@.take(folders@.len() as int) =~= folders@);
    r
}

/// A folder inside a theme folder: its name, its path, and whether it is a
/// folder.
pub struct ThemeEntry {
    pub name: String,
    pub path: String,
    pub is_dir: bool,
}

/// The first folder, over the theme folders in order and their entries in
/// order, that is named `pack`.
pub open spec fn pack_in(themes: Seq<Seq<ThemeEntry>>, pack: Seq<char>) -> Option<Seq<char>>
    decreases themes.len(),
{
    if themes.len() == 0 {
        None
    } else {
        match pack_in_theme(themes[0], pack) {
            Some(p) => Some(p),
            None => pack_in(themes.drop_first(), pack),
        }
    }
}

/// The path of the first folder among a theme's entries that is named `pack`.
pub open spec fn pack_in_theme(entries: Seq<ThemeEntry>, pack: Seq<char>) -> Option<Seq<char>>
    decreases entries.len(),
{
    if entries.len() == 0 {
        None
    } else if entries[0].is_dir && entries[0].name@ == pack {
        Some(entries[0].path@)
    } else {
        pack_in_theme(entries.drop_first(), pack)
    }
}

fn find_in_theme(entries: &Vec<ThemeEntry>, pack: &str) -> (r: Option<String>)
    ensures
        crate::patterns::opt_view(r) == pack_in_theme(entries@, pack@),
{
    let mut i: usize = 0;
    assert(entries@.skip(0) =~= entries@);
    while i < entries.len()
        invariant
            0 <= i <= entries@.len(),
            pack_in_theme(entries@, pack@) == pack_in_theme(entries@.skip(i as int), pack@),
        decreases entries.len() - i,
    {
        proof {
            assert(entries@.skip(i as int).drop_first() =~= entries@.skip(i + 1));
            assert(entries@.skip(i as int)[0] == entries@[i as int]);
        }
        if entries[i].is_dir && crate::text::str_eq(entries[i].name.as_str(), pack) {
            return Some(entries[i].path.clone());
        }
        i = i + 1;
    }
    assert(entries@.skip(entries@.len() as int) =~= Seq::<ThemeEntry>::empty());
    None
}

/// Where a sound pack shipped with a theme is: see `pack_in`; `themes`
/// holds the entries of each theme folder.
pub fn find_sfx_pack_path(themes: &Vec<Vec<ThemeEntry>>, pack: &str) -> (r: Option<String>)
    ensures
        crate::patterns::opt_view(r) == pack_in(themes@.map_values(|t: Vec<ThemeEntry>| t@), pack@),
{
    let ghost tv = themes@.map_values(|t: Vec<ThemeEntry>| t@);
    let mut i: usize = 0;
    assert(tv.skip(0) =~= tv);
    while i < themes.len()
        invariant
            0 <= i <= themes@.len(),
            tv == themes@.map_values(|t: Vec<ThemeEntry>| t@),
            pack_in(tv, pack@) == pack_in(tv.skip(i as int), pack@),
        decreases themes.len() - i,
    {
        proof {
            assert(tv.skip(i as int).drop_first() =~= tv.skip(i + 1));
            assert(tv.skip(i as int)[0] == themes@[i as int]@);
        }
        let found = find_in_theme(&themes[i], pack);
        if found.is_some() {
            return found;
        }
        i = i + 1;
    }
    assert(tv.skip(themes@.len() as int) =~= Seq::<Seq<ThemeEntry>>::empty());
    None
}

/// The folder of a sound pack shipped with the BIOS.
pub fn system_pack_path(pack: &str) -> (r: String)
    ensures
        r@ == "../sfx/"@ + pack@,
{
    let mut r = String::from_str("../sfx/");
    r.append(pack);
    r
}

/// Where one sound effect of a pack comes from.
#[derive(PartialEq, Eq, Structural, Clone, Copy, Debug)]
pub enum SfxSource {
    /// The pack shipped with a theme.
    Theme,
    /// The pack shipped with the BIOS.
    System,
    /// The built-in sound.
    BuiltIn,
}

/// The source of a sound effect: the built-in one for the `Default` pack;
/// otherwise the theme's copy when it loaded, else the BIOS's, else the
/// built-in one.
pub fn sfx_source(pack: &str, theme_loaded: bool, system_loaded: bool) -> (r: SfxSource)
    ensures
        r == (if pack@ == "Default"@ {
            SfxSource::BuiltIn
        } else if theme_loaded {
            SfxSource::Theme
        } else if system_loaded {
            SfxSource::System
        } else {
            SfxSource::BuiltIn
        }),
{
    if crate::text::str_eq(pack, "Default") {
        SfxSource::BuiltIn
    } else if theme_loaded {
        SfxSource::Theme
    } else if system_loaded {
        SfxSource::System
    } else {
        SfxSource::BuiltIn
    }
}

/// Whether a new music track starts: the one playing always stops; the
/// track starts unless it is `OFF` or was not loaded.
pub fn bgm_starts(track: &str, loaded: bool) -> (r: bool)
    ensures
        r == (track@ != "OFF"@ && loaded),
{
    !crate::text::str_eq(track, "OFF") && loaded
}

} // verus!

//! The theme downloader: the list of themes published as GitHub releases
//! (five to a page, followed by three audio tools), confirmations, and the
//! outcomes of downloads, deletions and conversions. Network and file work
//! is left to the caller.
use vstd::prelude::*;
use crate::ui::{Effect, Sound, InputState, Screen, only_if};
use crate::sorting::views;
use crate::text::{chars_of, string_from, lines_spec, lines_of, split_on, split_chars, trim, trim_str, lower_of, to_lower, starts_with, ends_with, contains};

verus! {

/// Entries per page of the list.
pub const ITEMS_PER_PAGE: usize = 5;

/// Audio tools listed after the themes.
pub const AUDIO_TOOLS: usize = 3;

/// A theme offered for download.
pub struct RemoteTheme {
    pub name: String,
    pub folder_name: String,
    pub author: String,
    pub description: String,
    pub download_url: String,
    pub is_installed: bool,
}

/// Where the downloader stands.
pub enum DownloaderState {
    Idle,
    FetchingList,
    DisplayingList,
    Downloading(String),
    Success(String),
    Error(String),
    ConfirmDelete { theme_folder_name: String, theme_display_name: String, selection: usize },
    ConfirmRedownload { theme: RemoteTheme, selection: usize },
    ConfirmConvertToWav { selection: usize },
    ConfirmConvertToOgg { selection: usize },
    ConfirmDeleteAllBGM { selection: usize },
    Converting(String),
}

/// The downloader's state.
pub struct ThemeDownloaderState {
    pub screen_state: DownloaderState,
    pub themes: Vec<RemoteTheme>,
    pub selected_index: usize,
    pub has_audio_tools_option: bool,
    pub current_page: usize,
}

impl ThemeDownloaderState {
    /// The downloader before it fetches anything.
    pub fn new() -> (r: ThemeDownloaderState)
        ensures
            r.screen_state is Idle,
            r.themes@.len() == 0,
            r.selected_index == 0,
            r.has_audio_tools_option,
            r.current_page == 0,
    {
        ThemeDownloaderState {
            screen_state: DownloaderState::Idle,
            themes: Vec::new(),
            selected_index: 0,
            has_audio_tools_option: true,
            current_page: 0,
        }
    }
}

// ---------------------------------------------------------------------
// Themes from releases
// ---------------------------------------------------------------------

/// Whether a line of a release's notes names its author.
pub open spec fn is_author_line(l: Seq<char>) -> bool {
    starts_with(lower_of(l), "author:"@)
}

/// The first line that names the author, if any.
pub open spec fn author_line(lines: Seq<Seq<char>>) -> Option<Seq<char>>
    decreases lines.len(),
{
    if lines.len() == 0 {
        None
    } else if is_author_line(lines[0]) {
        Some(lines[0])
    } else {
        author_line(lines.drop_first())
    }
}

/// The author a release's notes name: the trimmed text after the first `:`
/// of the first `author:` line (empty when there is none after it), or
/// `Unknown` without such a line.
pub open spec fn release_author(body: Seq<char>) -> Seq<char> {
    match author_line(lines_spec(body)) {
        Some(l) => {
            let parts = split_on(l, ':');
            if parts.len() > 1 {
                trim(parts[1])
            } else {
                Seq::empty()
            }
        },
        None => "Unknown"@,
    }
}

/// The index of the first asset whose name ends in `.zip`.
pub open spec fn first_zip(names: Seq<Seq<char>>) -> Option<int>
    decreases names.len(),
{
    if names.len() == 0 {
        None
    } else if ends_with(names.last(), ".zip"@) {
        match first_zip(names.drop_last()) {
            Some(i) => Some(i),
            None => Some(names.len() - 1),
        }
    } else {
        first_zip(names.drop_last())
    }
}

/// A downloadable file of a release.
pub struct ReleaseAsset {
    pub name: String,
    pub browser_download_url: String,
}

/// A release of the themes repository.
pub struct ThemeRelease {
    pub name: String,
    pub body: String,
    pub assets: Vec<ReleaseAsset>,
}

/// The names of a release's assets.
pub open spec fn asset_names(a: Seq<ReleaseAsset>) -> Seq<Seq<char>> {
    a.map_values(|x: ReleaseAsset| x.name@)
}

fn find_author(body: &str) -> (r: String)
    ensures
        r@ == release_author(body@),
{
    let lines = lines_of(body);
    let ghost lv = lines@.map_values(|l: String| l@);
    assert(lv.skip(0) =~= lv);
    let mut i: usize = 0;
    while i < lines.len()
        invariant
            0 <= i <= lines.len(),
            lv == lines@.map_values(|l: String| l@),
            lv == lines_spec(body@),
            author_line(lv) == author_line(lv.skip(i as int)),
        decreases lines.len() - i,
    {
        proof {
            assert(lv.skip(i as int).drop_first() =~= lv.skip(i + 1));
            assert(lv.skip(i as int)[0] == lv[i as int]);
        }
        let low = to_lower(lines[i].as_str());
        if crate::text::str_starts_with(low.as_str(), "author:") {
            let cs = chars_of(lines[i].as_str());
            proof {
                assert(lv[i as int] == lines@[i as int]@);
                assert(is_author_line(lv[i as int]));
                assert(lv.skip(i as int)[0] == lv[i as int]);
                assert(author_line(lv.skip(i as int)) == Some(lv[i as int]));
            }
            let parts = split_chars(cs.as_slice(), ':');
            let ghost pv = parts@.map_values(|v: Vec<char>| v@);
            if parts.len() > 1 {
                proof {
                    assert(pv[1] == parts@[1]@);
                }
                let p1 = string_from(parts[1].as_slice());
                let t = trim_str(p1.as_str());
                proof {
                    assert(author_line(lv) == Some(lv[i as int]));
                    assert(split_on(lv[i as int], ':') == pv);
                    assert(t@ == trim(pv[1]));
                    assert(lv == lines_spec(body@));
                }
                return t;
            } else {
                proof {
                    assert(author_line(lv) == Some(lv[i as int]));
                    assert(split_on(lv[i as int], ':') == pv);
                }
                return String::new();
            }
        }
        i = i + 1;
    }
    proof {
        assert(lv.skip(lines.len() as int) =~= Seq::<Seq<char>>::empty());
    }
    String::from_str("Unknown")
}

fn find_zip(assets: &Vec<ReleaseAsset>) -> (r: Option<usize>)
    ensures
        match first_zip(asset_names(assets@)) {
            Some(i) => r == Some(i as usize),
            None => r is None,
        },
{
    let ghost names = asset_names(assets@);
    let mut i: usize = 0;
    while i < assets.len()
        invariant
            0 <= i <= assets.len(),
            names == asset_names(assets@),
            first_zip(names.take(i as int)) is None,
        decreases assets.len() - i,
    {
        proof {
            assert(names.take(i + 1).drop_last() =~= names.take(i as int));
        }
        if crate::text::str_ends_with(assets[i].name.as_str(), ".zip") {
            proof {
                lemma_first_zip_prefix(names, i as int);
            }
            return Some(i);
        }
        i = i + 1;
    }
    assert(names.take(assets.len() as int) =~= names);
    None
}

proof fn lemma_first_zip_range(names: Seq<Seq<char>>)
    ensures
        first_zip(names) matches Some(i) ==> 0 <= i < names.len() && ends_with(names[i], ".zip"@),
    decreases names.len(),
{
    if names.len() > 0 {
        lemma_first_zip_range(names.drop_last());
    }
}

proof fn lemma_first_zip_prefix(names: Seq<Seq<char>>, i: int)
    requires
        0 <= i < names.len(),
        first_zip(names.take(i)) is None,
        ends_with(names[i], ".zip"@),
    ensures
        first_zip(names) == Some(i),
    decreases names.len(),
{
    if names.len() - 1 > i {
        assert(names.drop_last().take(i) =~= names.take(i));
        assert(names.drop_last()[i] == names[i]);
        lemma_first_zip_prefix(names.drop_last(), i);
    } else {
        assert(names.drop_last() =~= names.take(i));
    }
}

/// The theme a release offers: its first `.zip` asset (the folder is the
/// asset's name without `.zip`), the release's name and notes, and the
/// author the notes name. A release without a `.zip` offers none.
pub fn theme_from_release(release: &ThemeRelease) -> (r: Option<RemoteTheme>)
    ensures
        match first_zip(asset_names(release.assets@)) {
            None => r is None,
            Some(i) => 0 <= i < release.assets@.len() && (r matches Some(t) && {
                let a = release.assets@[i];
                &&& t.name@ == release.name@
                &&& t.folder_name@ == a.name@.take(a.name@.len() - 4)
                &&& t.author@ == release_author(release.body@)
                &&& t.description@ == release.body@
                &&& t.download_url@ == a.browser_download_url@
                &&& !t.is_installed
            }),
        },
{
    proof {
        lemma_first_zip_range(asset_names(release.assets@));
    }
    let found = find_zip(&release.assets);
    let n_assets = release.assets.len();
    match found {
        None => None,
        Some(i) => {
            let a = &release.assets[i];
            let cs = chars_of(a.name.as_str());
            proof {
                reveal_strlit(".zip");
                assert(asset_names(release.assets@)[i as int] == release.assets@[i as int].name@);
                match first_zip(asset_names(release.assets@)) {
                    Some(j) => {
                        assert(0 <= j < asset_names(release.assets@).len());
                        assert(asset_names(release.assets@).len() == release.assets@.len());
                        assert(j <= usize::MAX);
                        assert(found == Some(j as usize));
                        assert(j == i);
                        assert(ends_with(release.assets@[i as int].name@, ".zip"@));
                    },
                    None => {},
                }
                assert(cs@.len() >= 4);
            }
            let folder = crate::text::slice_to_vec(cs.as_slice(), 0, cs.len() - 4);
            Some(RemoteTheme {
                name: release.name.clone(),
                folder_name: string_from(folder.as_slice()),
                author: find_author(release.body.as_str()),
                description: release.body.clone(),
                download_url: a.browser_download_url.clone(),
                is_installed: false,
            })
        },
    }
}

// ---------------------------------------------------------------------
// The screen
// ---------------------------------------------------------------------

/// Back: from the list, leave for the extras (and fetch afresh next time);
/// from anything else, return to the list at the page of the highlighted
/// entry.
pub fn back_pressed(st: &mut ThemeDownloaderState, screen: &mut Screen) -> (effects: Vec<Effect>)
    ensures
        effects@ == seq![Effect::Play(Sound::Back)],
        old(st).screen_state is DisplayingList ==> *final(screen) == Screen::Extras && *final(st) == (ThemeDownloaderState {
            screen_state: DownloaderState::Idle,
            ..*old(st)
        }),
        !(old(st).screen_state is DisplayingList) ==> *final(screen) == *old(screen) && *final(st) == (ThemeDownloaderState {
            screen_state: DownloaderState::DisplayingList,
            current_page: (old(st).selected_index / ITEMS_PER_PAGE) as usize,
            ..*old(st)
        }),
{
    let mut effects: Vec<Effect> = Vec::new();
    effects.push(Effect::Play(Sound::Back));
    assert(effects@ =~= seq![Effect::Play(Sound::Back)]);
    let in_list = match &st.screen_state {
        DownloaderState::DisplayingList => true,
        _ => false,
    };
    if in_list {
        *screen = Screen::Extras;
        st.screen_state = DownloaderState::Idle;
    } else {
        st.screen_state = DownloaderState::DisplayingList;
        st.current_page = st.selected_index / ITEMS_PER_PAGE;
    }
    effects
}

/// What the background work reports.
pub enum DownloaderMessage {
    ThemeList(Result<Vec<RemoteTheme>, String>),
    InstallResult(Result<String, String>),
    ConversionResult(Result<String, String>),
}

/// Whether `name` is among `names`.
pub fn contains_name(names: &Vec<String>, name: &str) -> (r: bool)
    ensures
        r == views(names@).contains(name@),
{
    let ghost v = views(names@);
    let mut i: usize = 0;
    while i < names.len()
        invariant
            0 <= i <= names.len(),
            v == views(names@),
            forall|j: int| 0 <= j < i ==> v[j] != name@,
        decreases names.len() - i,
    {
        if crate::text::str_eq(names[i].as_str(), name) {
            assert(v[i as int] == name@);
            return true;
        }
        i = i + 1;
    }
    false
}

pub(crate) fn message_text(prefix: &str, body: &str, suffix: &str) -> (r: String)
    ensures
        r@ == prefix@ + body@ + suffix@,
{
    let mut r = String::from_str(prefix);
    r.append(body);
    r.append(suffix);
    r
}

/// What a report does to the downloader: see `receive`.
pub open spec fn received(st0: ThemeDownloaderState, scr0: Screen, msg: DownloaderMessage, installed: Seq<Seq<char>>, st1: ThemeDownloaderState, scr1: Screen) -> bool {
    match msg {
        DownloaderMessage::ThemeList(Ok(themes)) => {
            &&& st1.screen_state is DisplayingList
            &&& st1.themes@.len() == themes@.len()
            &&& forall|k: int| 0 <= k < themes@.len() ==> {
                let t = #[trigger] st1.themes@[k];
                let u = themes@[k];
                &&& t.name == u.name && t.folder_name == u.folder_name && t.author == u.author
                &&& t.description == u.description && t.download_url == u.download_url
                &&& t.is_installed == (u.is_installed || installed.contains(u.folder_name@))
            }
            &&& st1.selected_index == st0.selected_index
            &&& st1.current_page == st0.current_page
            &&& st1.has_audio_tools_option == st0.has_audio_tools_option
            &&& scr1 == scr0
        },
        DownloaderMessage::ThemeList(Err(e)) => st1 == (ThemeDownloaderState {
            screen_state: DownloaderState::Error(e),
            ..st0
        }) && scr1 == scr0,
        DownloaderMessage::InstallResult(Ok(name)) => st1.screen_state matches DownloaderState::Success(m)
            && m@ == "'"@ + name@ + "' installed!"@ && scr1 == Screen::ReloadingThemes
            && st1.themes == st0.themes && st1.selected_index == st0.selected_index
            && st1.current_page == st0.current_page && st1.has_audio_tools_option == st0.has_audio_tools_option,
        DownloaderMessage::InstallResult(Err(e)) => st1 == (ThemeDownloaderState {
            screen_state: DownloaderState::Error(e),
            ..st0
        }) && scr1 == scr0,
        DownloaderMessage::ConversionResult(Ok(m)) => st1 == (ThemeDownloaderState {
            screen_state: DownloaderState::Success(m),
            ..st0
        }) && scr1 == Screen::ReloadingThemes,
        DownloaderMessage::ConversionResult(Err(e)) => st1 == (ThemeDownloaderState {
            screen_state: DownloaderState::Error(e),
            ..st0
        }) && scr1 == scr0,
    }
}

/// A report from the background work: the fetched list (each theme marked
/// installed when its folder is among `installed`), or the outcome of an
/// installation or conversion (a success reloads the themes).
pub fn receive(st: &mut ThemeDownloaderState, msg: DownloaderMessage, installed: &Vec<String>, screen: &mut Screen)
    ensures
        received(*old(st), *old(screen), msg, views(installed@), *final(st), *final(screen)),
{
    match msg {
        DownloaderMessage::ThemeList(Ok(themes)) => {
            let ghost t0 = themes@;
            let mut marked: Vec<RemoteTheme> = Vec::new();
            let mut themes = themes;
            let mut i: usize = 0;
            let n = themes.len();
            while i < n
                invariant
                    0 <= i <= n,
                    n == t0.len(),
                    themes@ == t0,
                    marked@.len() == i,
                    forall|k: int| 0 <= k < i ==> {
                        let t = #[trigger] marked@[k];
                        let u = t0[k];
                        &&& t.name == u.name && t.folder_name == u.folder_name && t.author == u.author
                        &&& t.description == u.description && t.download_url == u.download_url
                        &&& t.is_installed == (u.is_installed || views(installed@).contains(u.folder_name@))
                    },
                decreases n - i,
            {
                let u = &themes[i];
                let inst = u.is_installed || contains_name(installed, u.folder_name.as_str());
                marked.push(RemoteTheme {
                    name: u.name.clone(),
                    folder_name: u.folder_name.clone(),
                    author: u.author.clone(),
                    description: u.description.clone(),
                    download_url: u.download_url.clone(),
                    is_installed: inst,
                });
                i = i + 1;
            }
            st.themes = marked;
            st.screen_state = DownloaderState::DisplayingList;
        },
        DownloaderMessage::ThemeList(Err(e)) => {
            st.screen_state = DownloaderState::Error(e);
        },
        DownloaderMessage::InstallResult(Ok(name)) => {
            st.screen_state = DownloaderState::Success(message_text("'", name.as_str(), "' installed!"));
            *screen = Screen::ReloadingThemes;
        },
        DownloaderMessage::InstallResult(Err(e)) => {
            st.screen_state = DownloaderState::Error(e);
        },
        DownloaderMessage::ConversionResult(Ok(m)) => {
            st.screen_state = DownloaderState::Success(m);
            *screen = Screen::ReloadingThemes;
        },
        DownloaderMessage::ConversionResult(Err(e)) => {
            st.screen_state = DownloaderState::Error(e);
        },
    }
}

/// Background work the downloader asks for.
pub enum ThemeCommand {
    /// Fetch the list of releases; report with `receive`.
    FetchList,
    /// Download and unpack this theme; report with `receive`.
    Download(RemoteTheme),
    /// Remove the installed theme folder; report with `delete_result`.
    DeleteTheme { folder_name: String, display_name: String },
    ConvertToWav,
    ConvertToOgg,
    DeleteAllBgm,
}

/// What a frame on the downloader decides.
pub struct ThemeStep {
    pub effects: Vec<Effect>,
    pub command: Option<ThemeCommand>,
}


/// Entries of the list: the themes and, when offered, the audio tools.
pub open spec fn total_options(st: ThemeDownloaderState) -> int {
    st.themes@.len() + if st.has_audio_tools_option { AUDIO_TOOLS as int } else { 0 }
}

/// The highlight and page after the arrow presses on the list: down/up move
/// one entry within the list; right/left turn the page and highlight its
/// first entry; the page then follows the highlight.
pub open spec fn list_cursor(sel: int, page: int, total: int, i: InputState) -> (int, int, Seq<Effect>) {
    let per = ITEMS_PER_PAGE as int;
    let pages = (total + per - 1) / per;
    let cm = seq![Effect::Play(Sound::CursorMove)];
    let dn = i.down && sel < total - 1;
    let s1 = if dn { sel + 1 } else { sel };
    let up = i.up && s1 > 0;
    let s2 = if up { s1 - 1 } else { s1 };
    let rt = i.right && page < pages - 1;
    let p1 = if rt { page + 1 } else { page };
    let s3 = if rt { p1 * per } else { s2 };
    let lf = i.left && p1 > 0;
    let p2 = if lf { p1 - 1 } else { p1 };
    let s4 = if lf { p2 * per } else { s3 };
    (s4, s4 / per, only_if(dn, cm) + only_if(up, cm) + only_if(rt, cm) + only_if(lf, cm))
}

/// Flipping a yes/no answer with left or right.
pub open spec fn flipped(sel: int, i: InputState) -> int {
    if i.left || i.right { 1 - sel } else { sel }
}

/// A frame on the list: see `list_cursor`; select on a theme downloads it
/// (asking first when it is installed) or, on a tool, asks to run it; the
/// secondary button asks to delete an installed theme other than
/// `Default`, and is refused otherwise.
pub open spec fn list_frame(st0: ThemeDownloaderState, st1: ThemeDownloaderState, i: InputState, effects: Seq<Effect>, cmd: Option<ThemeCommand>) -> bool {
    let total = total_options(st0);
    if total == 0 {
        st1 == st0 && effects.len() == 0 && cmd is None
    } else {
        let (sel, page, moves) = list_cursor(st0.selected_index as int, st0.current_page as int, total, i);
        let n = st0.themes@.len();
        let on_theme = sel < n;
        let t = st0.themes@[sel];
        let can_delete = i.secondary && on_theme && t.is_installed && t.name@ != "Default"@;
        &&& st1.themes == st0.themes
        &&& st1.has_audio_tools_option == st0.has_audio_tools_option
        &&& st1.selected_index == sel
        &&& st1.current_page == page
        &&& effects == moves + only_if(i.select, seq![Effect::Play(Sound::Select)]) + only_if(
            i.secondary && on_theme,
            seq![Effect::Play(if can_delete { Sound::Select } else { Sound::Reject })],
        )
        &&& cmd == (if i.select && on_theme && !t.is_installed { Some(ThemeCommand::Download(t)) } else { None })
        &&& if can_delete {
            st1.screen_state matches DownloaderState::ConfirmDelete { theme_folder_name: f, theme_display_name: d, selection: s }
                && f == t.folder_name && d == t.name && s == 1
        } else if i.select && on_theme {
            if t.is_installed {
                st1.screen_state == (DownloaderState::ConfirmRedownload { theme: t, selection: 1 })
            } else {
                st1.screen_state == DownloaderState::Downloading(t.name)
            }
        } else if i.select && sel - n == 0 {
            st1.screen_state == (DownloaderState::ConfirmConvertToWav { selection: 1 })
        } else if i.select && sel - n == 1 {
            st1.screen_state == (DownloaderState::ConfirmConvertToOgg { selection: 1 })
        } else if i.select && sel - n == 2 {
            st1.screen_state == (DownloaderState::ConfirmDeleteAllBGM { selection: 1 })
        } else {
            st1.screen_state == st0.screen_state
        }
    }
}

fn clone_theme(t: &RemoteTheme) -> (r: RemoteTheme)
    ensures
        r == *t,
{
    RemoteTheme {
        name: t.name.clone(),
        folder_name: t.folder_name.clone(),
        author: t.author.clone(),
        description: t.description.clone(),
        download_url: t.download_url.clone(),
        is_installed: t.is_installed,
    }
}

pub(crate) fn cursor_exec(sel0: usize, page0: usize, total: usize, input: &InputState) -> (r: (usize, usize, Vec<Effect>))
    requires
        0 < total < usize::MAX / 4,
        page0 <= usize::MAX / 5,
    ensures
        (r.0 as int, r.1 as int, r.2@) == list_cursor(sel0 as int, page0 as int, total as int, *input),
{
    let per = ITEMS_PER_PAGE;
    let pages = (total + per - 1) / per;
    let mut effects: Vec<Effect> = Vec::new();
    let mut sel = sel0;
    let mut page = page0;
    if input.down && sel < total - 1 {
        sel = sel + 1;
        effects.push(Effect::Play(Sound::CursorMove));
    }
    let ghost e1 = effects@;
    if input.up && sel > 0 {
        sel = sel - 1;
        effects.push(Effect::Play(Sound::CursorMove));
    }
    let ghost e2 = effects@;
    if input.right && page < pages - 1 {
        page = page + 1;
        assert(page * 5 < total) by (nonlinear_arith)
            requires
                page < pages,
                pages == (total + 4) / 5,
                total > 0,
        ;
        sel = page * per;
        effects.push(Effect::Play(Sound::CursorMove));
    }
    let ghost e3 = effects@;
    if input.left && page > 0 {
        page = page - 1;
        assert(page * 5 <= usize::MAX) by (nonlinear_arith)
            requires
                page <= usize::MAX / 5,
        ;
        sel = page * per;
        effects.push(Effect::Play(Sound::CursorMove));
    }
    proof {
        let cm = seq![Effect::Play(Sound::CursorMove)];
        let dn = input.down && sel0 < total - 1;
        let s1 = if dn { sel0 + 1 } else { sel0 as int };
        let up = input.up && s1 > 0;
        let rt = input.right && page0 < pages - 1;
        let p1 = if rt { page0 + 1 } else { page0 as int };
        assert(e1 =~= only_if(dn, cm));
        assert(e2 =~= e1 + only_if(up, cm));
        assert(e3 =~= e2 + only_if(rt, cm));
        assert(effects@ =~= e3 + only_if(input.left && p1 > 0, cm));
    }
    (sel, sel / per, effects)
}

fn list_update(st: &mut ThemeDownloaderState, input: &InputState) -> (r: ThemeStep)
    requires
        old(st).screen_state is DisplayingList,
        old(st).themes@.len() < usize::MAX / 8,
        old(st).current_page <= usize::MAX / 5,
    ensures
        list_frame(*old(st), *final(st), *input, r.effects@, r.command),
{
    let n = st.themes.len();
    let total = n + if st.has_audio_tools_option { AUDIO_TOOLS } else { 0 };
    if total == 0 {
        return ThemeStep { effects: Vec::new(), command: None };
    }
    let (sel, page, mut effects) = cursor_exec(st.selected_index, st.current_page, total, input);
    st.selected_index = sel;
    st.current_page = page;
    let ghost moves = effects@;
    let mut command: Option<ThemeCommand> = None;
    if input.select {
        effects.push(Effect::Play(Sound::Select));
        if sel < n {
            let t = clone_theme(&st.themes[sel]);
            if t.is_installed {
                st.screen_state = DownloaderState::ConfirmRedownload { theme: t, selection: 1 };
            } else {
                st.screen_state = DownloaderState::Downloading(t.name.clone());
                command = Some(ThemeCommand::Download(t));
            }
        } else {
            let tool = sel - n;
            if tool == 0 {
                st.screen_state = DownloaderState::ConfirmConvertToWav { selection: 1 };
            } else if tool == 1 {
                st.screen_state = DownloaderState::ConfirmConvertToOgg { selection: 1 };
            } else if tool == 2 {
                st.screen_state = DownloaderState::ConfirmDeleteAllBGM { selection: 1 };
            }
        }
    }
    let ghost e2 = effects@;
    if input.secondary && sel < n {
        let t = &st.themes[sel];
        if t.is_installed && !crate::text::str_eq(t.name.as_str(), "Default") {
            effects.push(Effect::Play(Sound::Select));
            st.screen_state = DownloaderState::ConfirmDelete {
                theme_folder_name: t.folder_name.clone(),
                theme_display_name: t.name.clone(),
                selection: 1,
            };
        } else {
            effects.push(Effect::Play(Sound::Reject));
        }
    }
    proof {
        assert(e2 =~= moves + only_if(input.select, seq![Effect::Play(Sound::Select)]));
        let t = old(st).themes@[sel as int];
        let can_delete = input.secondary && sel < n && t.is_installed && t.name@ != "Default"@;
        assert(effects@ =~= e2 + only_if(
            input.secondary && sel < n,
            seq![Effect::Play(if can_delete { Sound::Select } else { Sound::Reject })],
        ));
    }
    ThemeStep { effects, command }
}

/// A yes/no confirmation: left/right flip the answer; select confirms
/// (`yes` is 0); returns the effects, whether it was confirmed with yes,
/// and whether it was answered.
pub(crate) fn confirm_input(selection: usize, input: &InputState) -> (r: (usize, Vec<Effect>))
    requires
        selection <= 1,
    ensures
        r.0 == flipped(selection as int, *input),
        r.1@ == only_if(input.left || input.right, seq![Effect::Play(Sound::CursorMove)]) + only_if(
            input.select,
            seq![Effect::Play(Sound::Select)],
        ),
{
    let mut effects: Vec<Effect> = Vec::new();
    let mut sel = selection;
    if input.left || input.right {
        sel = 1 - sel;
        effects.push(Effect::Play(Sound::CursorMove));
    }
    let ghost e1 = effects@;
    if input.select {
        effects.push(Effect::Play(Sound::Select));
    }
    assert(e1 =~= only_if(input.left || input.right, seq![Effect::Play(Sound::CursorMove)]));
    assert(effects@ =~= e1 + only_if(input.select, seq![Effect::Play(Sound::Select)]));
    (sel, effects)
}

/// The answers of the confirmations are 0 (yes) or 1 (no).
pub open spec fn answers_ok(s: DownloaderState) -> bool {
    match s {
        DownloaderState::ConfirmDelete { selection, .. } => selection <= 1,
        DownloaderState::ConfirmRedownload { selection, .. } => selection <= 1,
        DownloaderState::ConfirmConvertToWav { selection } => selection <= 1,
        DownloaderState::ConfirmConvertToOgg { selection } => selection <= 1,
        DownloaderState::ConfirmDeleteAllBGM { selection } => selection <= 1,
        _ => true,
    }
}

/// A frame on a confirmation: with yes the work starts (a download, a
/// deletion, a conversion), with no the list returns; on an outcome,
/// select or back fetch the list again.
pub open spec fn other_frame(st0: ThemeDownloaderState, st1: ThemeDownloaderState, i: InputState, effects: Seq<Effect>, cmd: Option<ThemeCommand>) -> bool {
    let flip = only_if(i.left || i.right, seq![Effect::Play(Sound::CursorMove)]);
    let sel = only_if(i.select, seq![Effect::Play(Sound::Select)]);
    let back = only_if(i.back, seq![Effect::Play(Sound::Back)]);
    &&& st1.themes == st0.themes
    &&& st1.selected_index == st0.selected_index
    &&& st1.current_page == st0.current_page
    &&& st1.has_audio_tools_option == st0.has_audio_tools_option
    &&& match st0.screen_state {
        DownloaderState::ConfirmDelete { theme_folder_name: f, theme_display_name: d, selection: s } => {
            let s1 = flipped(s as int, i);
            &&& effects == flip + sel + back
            &&& cmd == (if i.select && s1 == 0 { Some(ThemeCommand::DeleteTheme { folder_name: f, display_name: d }) } else { None })
            &&& st1.screen_state == (if i.back || (i.select && s1 != 0) {
                DownloaderState::DisplayingList
            } else {
                DownloaderState::ConfirmDelete { theme_folder_name: f, theme_display_name: d, selection: s1 as usize }
            })
        },
        DownloaderState::ConfirmRedownload { theme: t, selection: s } => {
            let s1 = flipped(s as int, i);
            &&& effects == flip + sel + back
            &&& cmd == (if i.select && s1 == 0 { Some(ThemeCommand::Download(t)) } else { None })
            &&& st1.screen_state == (if i.back || (i.select && s1 != 0) {
                DownloaderState::DisplayingList
            } else if i.select {
                DownloaderState::Downloading(t.name)
            } else {
                DownloaderState::ConfirmRedownload { theme: t, selection: s1 as usize }
            })
        },
        DownloaderState::ConfirmConvertToWav { selection: s } => {
            let s1 = flipped(s as int, i);
            &&& effects == flip + sel
            &&& cmd == (if i.select && s1 == 0 { Some(ThemeCommand::ConvertToWav) } else { None })
            &&& if i.select && s1 == 0 {
                st1.screen_state matches DownloaderState::Converting(m) && m@ == "Searching for .ogg files..."@
            } else if i.select {
                st1.screen_state == DownloaderState::DisplayingList
            } else {
                st1.screen_state == (DownloaderState::ConfirmConvertToWav { selection: s1 as usize })
            }
        },
        DownloaderState::ConfirmConvertToOgg { selection: s } => {
            let s1 = flipped(s as int, i);
            &&& effects == flip + sel
            &&& cmd == (if i.select && s1 == 0 { Some(ThemeCommand::ConvertToOgg) } else { None })
            &&& if i.select && s1 == 0 {
                st1.screen_state matches DownloaderState::Converting(m) && m@ == "Searching for .wav files..."@
            } else if i.select {
                st1.screen_state == DownloaderState::DisplayingList
            } else {
                st1.screen_state == (DownloaderState::ConfirmConvertToOgg { selection: s1 as usize })
            }
        },
        DownloaderState::ConfirmDeleteAllBGM { selection: s } => {
            let s1 = flipped(s as int, i);
            &&& effects == flip + sel + back
            &&& cmd == (if i.select && s1 == 0 { Some(ThemeCommand::DeleteAllBgm) } else { None })
            &&& if i.back {
                st1.screen_state == DownloaderState::DisplayingList
            } else if i.select && s1 == 0 {
                st1.screen_state matches DownloaderState::Converting(m) && m@ == "Deleting all BGM files..."@
            } else if i.select {
                st1.screen_state == DownloaderState::DisplayingList
            } else {
                st1.screen_state == (DownloaderState::ConfirmDeleteAllBGM { selection: s1 as usize })
            }
        },
        DownloaderState::Success(_) | DownloaderState::Error(_) => {
            &&& cmd is None
            &&& if i.select || i.back {
                st1.screen_state == DownloaderState::Idle && effects == seq![Effect::Play(Sound::Select)]
            } else {
                st1.screen_state == st0.screen_state && effects.len() == 0
            }
        },
        _ => st1.screen_state == st0.screen_state && effects.len() == 0 && cmd is None,
    }
}

pub(crate) fn push_when(effects: &mut Vec<Effect>, b: bool, e: Effect)
    ensures
        final(effects)@ == old(effects)@ + only_if(b, seq![e]),
{
    if b {
        effects.push(e);
    }
    assert(final(effects)@ =~= old(effects)@ + only_if(b, seq![e]));
}

fn other_update(st: &mut ThemeDownloaderState, input: &InputState) -> (r: ThemeStep)
    requires
        answers_ok(old(st).screen_state),
    ensures
        other_frame(*old(st), *final(st), *input, r.effects@, r.command),
{
    let mut command: Option<ThemeCommand> = None;
    let mut effects: Vec<Effect> = Vec::new();
    match &st.screen_state {
        DownloaderState::ConfirmDelete { theme_folder_name, theme_display_name, selection } => {
            let f = theme_folder_name.clone();
            let d = theme_display_name.clone();
            let (s1, e) = confirm_input(*selection, input);
            effects = e;
            push_when(&mut effects, input.back, Effect::Play(Sound::Back));
            if input.select && s1 == 0 {
                command = Some(ThemeCommand::DeleteTheme { folder_name: f.clone(), display_name: d.clone() });
            }
            if input.back || (input.select && s1 != 0) {
                st.screen_state = DownloaderState::DisplayingList;
            } else {
                st.screen_state = DownloaderState::ConfirmDelete {
                    theme_folder_name: f,
                    theme_display_name: d,
                    selection: s1,
                };
            }
        },
        DownloaderState::ConfirmRedownload { theme, selection } => {
            let t = clone_theme(theme);
            let (s1, e) = confirm_input(*selection, input);
            effects = e;
            push_when(&mut effects, input.back, Effect::Play(Sound::Back));
            if input.back || (input.select && s1 != 0) {
                st.screen_state = DownloaderState::DisplayingList;
                if input.select && s1 == 0 {
                    command = Some(ThemeCommand::Download(t));
                }
            } else if input.select {
                st.screen_state = DownloaderState::Downloading(t.name.clone());
                command = Some(ThemeCommand::Download(t));
            } else {
                st.screen_state = DownloaderState::ConfirmRedownload { theme: t, selection: s1 };
            }
        },
        DownloaderState::ConfirmConvertToWav { selection } => {
            let (s1, e) = confirm_input(*selection, input);
            effects = e;
            if input.select && s1 == 0 {
                st.screen_state = DownloaderState::Converting(String::from_str("Searching for .ogg files..."));
                command = Some(ThemeCommand::ConvertToWav);
            } else if input.select {
                st.screen_state = DownloaderState::DisplayingList;
            } else {
                st.screen_state = DownloaderState::ConfirmConvertToWav { selection: s1 };
            }
        },
        DownloaderState::ConfirmConvertToOgg { selection } => {
            let (s1, e) = confirm_input(*selection, input);
            effects = e;
            if input.select && s1 == 0 {
                st.screen_state = DownloaderState::Converting(String::from_str("Searching for .wav files..."));
                command = Some(ThemeCommand::ConvertToOgg);
            } else if input.select {
                st.screen_state = DownloaderState::DisplayingList;
            } else {
                st.screen_state = DownloaderState::ConfirmConvertToOgg { selection: s1 };
            }
        },
        DownloaderState::ConfirmDeleteAllBGM { selection } => {
            let (s1, e) = confirm_input(*selection, input);
            effects = e;
            push_when(&mut effects, input.back, Effect::Play(Sound::Back));
            if input.select && s1 == 0 {
                command = Some(ThemeCommand::DeleteAllBgm);
            }
            if input.back {
                st.screen_state = DownloaderState::DisplayingList;
            } else if input.select && s1 == 0 {
                st.screen_state = DownloaderState::Converting(String::from_str("Deleting all BGM files..."));
            } else if input.select {
                st.screen_state = DownloaderState::DisplayingList;
            } else {
                st.screen_state = DownloaderState::ConfirmDeleteAllBGM { selection: s1 };
            }
        },
        DownloaderState::Success(_) | DownloaderState::Error(_) => {
            if input.select || input.back {
                st.screen_state = DownloaderState::Idle;
                effects.push(Effect::Play(Sound::Select));
                assert(effects@ =~= seq![Effect::Play(Sound::Select)]);
            }
        },
        _ => {},
    }
    proof {
        reveal_strlit("Searching for .ogg files...");
        reveal_strlit("Searching for .wav files...");
        reveal_strlit("Deleting all BGM files...");
    }
    ThemeStep { effects, command }
}

/// The downloader's invariant: confirmations hold 0 or 1, and the page
/// and the list are small enough that the arithmetic on them cannot wrap.
pub open spec fn wf(st: ThemeDownloaderState) -> bool {
    &&& answers_ok(st.screen_state)
    &&& st.current_page <= usize::MAX / 5
    &&& st.themes@.len() < usize::MAX / 8
}

/// A frame after the reports: an idle downloader starts fetching the list;
/// otherwise see `list_frame` and `other_frame`.
pub open spec fn frame(st0: ThemeDownloaderState, st1: ThemeDownloaderState, i: InputState, effects: Seq<Effect>, cmd: Option<ThemeCommand>) -> bool {
    if st0.screen_state is Idle {
        &&& st1 == (ThemeDownloaderState { screen_state: DownloaderState::FetchingList, ..st0 })
        &&& effects.len() == 0
        &&& cmd == Some(ThemeCommand::FetchList)
    } else if st0.screen_state is DisplayingList {
        list_frame(st0, st1, i, effects, cmd)
    } else {
        other_frame(st0, st1, i, effects, cmd)
    }
}

/// What a frame on the downloader decides, and the report it left unread.
pub struct ThemeFrame {
    pub step: ThemeStep,
    pub unread: Option<DownloaderMessage>,
}

/// One frame of the downloader. Back is handled first (see
/// `back_pressed`) and leaves `msg` unread; otherwise `msg`, when there is
/// one, is taken in (see `receive`), then an idle downloader starts
/// fetching the list and the state's own frame runs (see `frame`).
pub fn update(
    st: &mut ThemeDownloaderState,
    input: &InputState,
    screen: &mut Screen,
    msg: Option<DownloaderMessage>,
    installed: &Vec<String>,
) -> (r: ThemeFrame)
    requires
        wf(*old(st)),
        msg matches Some(DownloaderMessage::ThemeList(Ok(t))) ==> t@.len() < usize::MAX / 8,
    ensures
        wf(*final(st)),
        input.back ==> {
            &&& r.unread == msg
            &&& r.step.command is None
            &&& r.step.effects@ == seq![Effect::Play(Sound::Back)]
            &&& old(st).screen_state is DisplayingList ==> *final(screen) == Screen::Extras
                && *final(st) == (ThemeDownloaderState { screen_state: DownloaderState::Idle, ..*old(st) })
            &&& !(old(st).screen_state is DisplayingList) ==> *final(screen) == *old(screen)
                && *final(st) == (ThemeDownloaderState {
                screen_state: DownloaderState::DisplayingList,
                current_page: (old(st).selected_index / ITEMS_PER_PAGE) as usize,
                ..*old(st)
            })
        },
        !input.back ==> r.unread is None && exists|mid: ThemeDownloaderState|
            {
                &&& match msg {
                    None => mid == *old(st) && *final(screen) == *old(screen),
                    Some(m) => received(*old(st), *old(screen), m, views(installed@), mid, *final(screen)),
                }
                &&& #[trigger] frame(mid, *final(st), *input, r.step.effects@, r.step.command)
            },
{
    if input.back {
        let effects = back_pressed(st, screen);
        return ThemeFrame { step: ThemeStep { effects, command: None }, unread: msg };
    }
    match msg {
        Some(m) => receive(st, m, installed, screen),
        None => {},
    }
    let ghost mid = *st;
    let step = frame_exec(st, input);
    assert(frame(mid, *st, *input, step.effects@, step.command));
    ThemeFrame { step, unread: None }
}

fn frame_exec(st: &mut ThemeDownloaderState, input: &InputState) -> (r: ThemeStep)
    requires
        wf(*old(st)),
    ensures
        wf(*final(st)),
        frame(*old(st), *final(st), *input, r.effects@, r.command),
{
    let idle = match &st.screen_state {
        DownloaderState::Idle => true,
        _ => false,
    };
    let in_list = match &st.screen_state {
        DownloaderState::DisplayingList => true,
        _ => false,
    };
    if idle {
        st.screen_state = DownloaderState::FetchingList;
        ThemeStep { effects: Vec::new(), command: Some(ThemeCommand::FetchList) }
    } else if in_list {
        list_update(st, input)
    } else {
        other_update(st, input)
    }
}

/// The outcome of deleting an installed theme: on success the themes are
/// reloaded.
pub fn delete_result(st: &mut ThemeDownloaderState, screen: &mut Screen, display_name: &str, result: Result<(), String>)
    ensures
        final(st).themes == old(st).themes,
        final(st).selected_index == old(st).selected_index,
        final(st).current_page == old(st).current_page,
        final(st).has_audio_tools_option == old(st).has_audio_tools_option,
        match result {
            Ok(_) => final(st).screen_state matches DownloaderState::Success(m)
                && m@ == "'"@ + display_name@ + "' deleted."@ && *final(screen) == Screen::ReloadingThemes,
            Err(e) => final(st).screen_state matches DownloaderState::Error(m)
                && m@ == "Failed to delete: "@ + e@ && *final(screen) == *old(screen),
        },
{
    match result {
        Ok(_) => {
            st.screen_state = DownloaderState::Success(message_text("'", display_name, "' deleted."));
            *screen = Screen::ReloadingThemes;
        },
        Err(e) => {
            st.screen_state = DownloaderState::Error(message_text("Failed to delete: ", e.as_str(), ""));
            proof {
                reveal_strlit("");
                assert(("Failed to delete: "@ + e@ + ""@) =~= "Failed to delete: "@ + e@);
            }
        },
    }
}

// ---------------------------------------------------------------------
// The list and the audio tools
// ---------------------------------------------------------------------

/// The positions of the releases that offer a theme, in order.
pub open spec fn offering(rs: Seq<ThemeRelease>) -> Seq<int>
    decreases rs.len(),
{
    if rs.len() == 0 {
        Seq::empty()
    } else {
        offering(rs.drop_last()) + if first_zip(asset_names(rs.last().assets@)) is Some {
            seq![rs.len() - 1]
        } else {
            Seq::empty()
        }
    }
}

/// `t` is the theme that `release` offers (see `theme_from_release`).
pub open spec fn offered(release: ThemeRelease, t: RemoteTheme) -> bool {
    match first_zip(asset_names(release.assets@)) {
        None => false,
        Some(i) => {
            let a = release.assets@[i];
            &&& t.name@ == release.name@
            &&& t.folder_name@ == a.name@.take(a.name@.len() - 4)
            &&& t.author@ == release_author(release.body@)
            &&& t.description@ == release.body@
            &&& t.download_url@ == a.browser_download_url@
            &&& !t.is_installed
        },
    }
}

/// `ts` are the themes that `rs` offer, in their order.
pub open spec fn themes_of(rs: Seq<ThemeRelease>, ts: Seq<RemoteTheme>) -> bool {
    &&& ts.len() == offering(rs).len()
    &&& forall|k: int| 0 <= k < ts.len() ==> offered(rs[#[trigger] offering(rs)[k]], ts[k])
}

/// The themes the releases offer, in order: one for each release with a
/// `.zip` asset (see `theme_from_release`).
pub fn themes_from_releases(releases: &Vec<ThemeRelease>) -> (r: Vec<RemoteTheme>)
    ensures
        themes_of(releases@, r@),
{
    let mut out: Vec<RemoteTheme> = Vec::new();
    let mut i: usize = 0;
    while i < releases.len()
        invariant
            0 <= i <= releases.len(),
            themes_of(releases@.take(i as int), out@),
            forall|k: int| 0 <= k < offering(releases@.take(i as int)).len() ==> 0 <= #[trigger] offering(releases@.take(i as int))[k] < i,
        decreases releases.len() - i,
    {
        let ghost pre = releases@.take(i as int);
        let ghost nxt = releases@.take(i + 1);
        proof {
            assert(nxt.drop_last() =~= pre);
            assert(nxt.last() == releases@[i as int]);
        }
        match theme_from_release(&releases[i]) {
            Some(t) => {
                proof {
                    assert(offered(releases@[i as int], t));
                }
                out.push(t);
                proof {
                    assert(offering(nxt) =~= offering(pre).push(i as int));
                    assert forall|k: int| 0 <= k < out@.len() implies offered(nxt[#[trigger] offering(nxt)[k]], out@[k]) by {
                        if k < out@.len() - 1 {
                            assert(offering(nxt)[k] == offering(pre)[k]);
                            assert(nxt[offering(pre)[k]] == pre[offering(pre)[k]]);
                        }
                    }
                }
            },
            None => {
                proof {
                    assert(offering(nxt) =~= offering(pre));
                    assert forall|k: int| 0 <= k < out@.len() implies offered(nxt[#[trigger] offering(nxt)[k]], out@[k]) by {
                        assert(nxt[offering(pre)[k]] == pre[offering(pre)[k]]);
                    }
                }
            },
        }
        i = i + 1;
    }
    assert(releases@.take(releases.len() as int) =~= releases@);
    out
}

/// What came back from a request to a web service.
pub enum Fetched<T> {
    /// The request failed.
    NoResponse,
    /// A response came whose body could not be read as expected.
    BadBody,
    /// The body, read.
    Body(T),
}

/// The theme list a request for the releases yields, or the message shown
/// when it failed.
pub fn theme_list(fetched: Fetched<Vec<ThemeRelease>>) -> (r: Result<Vec<RemoteTheme>, String>)
    ensures
        match fetched {
            Fetched::NoResponse => (r matches Err(e) && e@ == "Failed to fetch theme list from GitHub."@),
            Fetched::BadBody => (r matches Err(e) && e@ == "Failed to parse theme list from GitHub."@),
            Fetched::Body(rs) => r matches Ok(ts) && themes_of(rs@, ts@),
        },
{
    match fetched {
        Fetched::NoResponse => Err(String::from_str("Failed to fetch theme list from GitHub.")),
        Fetched::BadBody => Err(String::from_str("Failed to parse theme list from GitHub.")),
        Fetched::Body(rs) => Ok(themes_from_releases(&rs)),
    }
}

/// Whether a file found under the music and theme folders is one the audio
/// tools work on: its extension is `ext` without the leading dot, and no
/// component of its path contains `_sfx`.
pub open spec fn audio_candidate(extension: Option<Seq<char>>, components: Seq<Seq<char>>, ext: Seq<char>) -> bool {
    &&& extension == Some(ext.skip(1))
    &&& forall|k: int| 0 <= k < components.len() ==> !contains(#[trigger] components[k], "_sfx"@)
}

/// See `audio_candidate`; `ext` is an extension with its dot, such as `.ogg`.
pub fn is_audio_candidate(extension: Option<&str>, components: &Vec<String>, ext: &str) -> (r: bool)
    requires
        ext@.len() >= 1,
    ensures
        r == audio_candidate(opt_str_view(extension), views(components@), ext@),
{
    let e = chars_of(ext);
    let rest = crate::text::slice_to_vec(e.as_slice(), 1, e.len());
    let matches_ext = match extension {
        Some(x) => {
            let xs = chars_of(x);
            crate::text::seq_eq(xs.as_slice(), rest.as_slice())
        },
        None => false,
    };
    if !matches_ext {
        return false;
    }
    let ghost cv = views(components@);
    let mut i: usize = 0;
    while i < components.len()
        invariant
            0 <= i <= components.len(),
            cv == views(components@),
            forall|k: int| 0 <= k < i ==> !contains(#[trigger] cv[k], "_sfx"@),
        decreases components.len() - i,
    {
        if crate::text::str_contains(components[i].as_str(), "_sfx") {
            assert(contains(cv[i as int], "_sfx"@));
            return false;
        }
        i = i + 1;
    }
    true
}

/// An optional string slice by its view.
pub open spec fn opt_str_view(o: Option<&str>) -> Option<Seq<char>> {
    match o {
        Some(s) => Some(s@),
        None => None,
    }
}

/// Why converting the music files stopped.
pub enum ConversionFailure {
    /// ffmpeg could not be started; the error's text.
    Launch(String),
    /// ffmpeg failed on this file (its path as shown).
    Status(String),
    /// A theme's settings could not be updated; the message.
    Settings(String),
    /// The source file could not be removed after converting; the error's text.
    Remove(String),
}

/// The outcome of converting the music files to `ext` (`.wav` or `.ogg`),
/// whose source extension is `from`: `found` files were found and the
/// conversion stopped at `failure`, if it did.
pub fn conversion_result(from: &str, ext: &str, found: u64, failure: Option<ConversionFailure>) -> (r: Result<String, String>)
    ensures
        found == 0 ==> (r matches Ok(m) && m@ == "No "@ + from@ + " files found to convert."@),
        found != 0 ==> match failure {
            None => (r matches Ok(m) && m@ == "Successfully converted "@ + crate::numparse::dec_digits(found as nat) + " file(s) to "@ + ext@ + "!"@),
            Some(ConversionFailure::Launch(e)) => (r matches Err(m) && m@ == "Is ffmpeg installed? Command failed: "@ + e@),
            Some(ConversionFailure::Status(p)) => (r matches Err(m) && m@ == "ffmpeg failed for "@ + p@),
            Some(ConversionFailure::Settings(e)) => r == Err::<String, String>(e),
            Some(ConversionFailure::Remove(e)) => (r matches Err(m) && m@ == "Failed to delete old file: "@ + e@),
        },
{
    if found == 0 {
        return Ok(message_text("No ", from, " files found to convert."));
    }
    proof {
        reveal_strlit("");
    }
    match failure {
        None => {
            let n = crate::numparse::u64_to_string(found);
            let head = message_text("Successfully converted ", n.as_str(), " file(s) to ");
            Ok(message_text(head.as_str(), ext, "!"))
        },
        Some(ConversionFailure::Launch(e)) => {
            let m = message_text("Is ffmpeg installed? Command failed: ", e.as_str(), "");
            assert(m@ =~= "Is ffmpeg installed? Command failed: "@ + e@);
            Err(m)
        },
        Some(ConversionFailure::Status(p)) => {
            let m = message_text("ffmpeg failed for ", p.as_str(), "");
            assert(m@ =~= "ffmpeg failed for "@ + p@);
            Err(m)
        },
        Some(ConversionFailure::Settings(e)) => Err(e),
        Some(ConversionFailure::Remove(e)) => {
            let m = message_text("Failed to delete old file: ", e.as_str(), "");
            assert(m@ =~= "Failed to delete old file: "@ + e@);
            Err(m)
        },
    }
}

/// The outcome of deleting all music files: `wav` and `ogg` files were
/// found and `deleted` of them removed.
pub fn bgm_deletion_result(wav: u64, ogg: u64, deleted: u64) -> (r: String)
    ensures
        wav == 0 && ogg == 0 ==> r@ == "No BGM files found to delete."@,
        !(wav == 0 && ogg == 0) ==> r@ == "Successfully deleted "@ + crate::numparse::dec_digits(deleted as nat) + " BGM file(s)!"@,
{
    if wav == 0 && ogg == 0 {
        return String::from_str("No BGM files found to delete.");
    }
    let n = crate::numparse::u64_to_string(deleted);
    message_text("Successfully deleted ", n.as_str(), " BGM file(s)!")
}

/// The music track a theme names after its file was converted to
/// `new_ext` (with its dot): the same path with the new extension. The
/// extension holds no `/`.
pub fn retargeted_track(track: Option<String>, new_ext: &str) -> (r: Option<String>)
    requires
        new_ext@.len() >= 1,
        !new_ext@.contains('/'),
    ensures
        match track {
            None => r is None,
            Some(t) => (r matches Some(u) && u@ == crate::paths::extension_set(t@, new_ext@.skip(1))),
        },
{
    match track {
        None => None,
        Some(t) => {
            let e = chars_of(new_ext);
            let rest = crate::text::slice_to_vec(e.as_slice(), 1, e.len());
            let ext = string_from(rest.as_slice());
            assert(ext@ =~= new_ext@.skip(1));
            assert(!ext@.contains('/')) by {
                if ext@.contains('/') {
                    let k = choose|k: int| 0 <= k < ext@.len() && ext@[k] == '/';
                    assert(new_ext@[k + 1] == '/');
                }
            }
            Some(crate::paths::with_extension(t.as_str(), ext.as_str()))
        },
    }
}

// ---------------------------------------------------------------------
// What the list shows
// ---------------------------------------------------------------------

/// The text of an entry of the list: `name by author`, marked when the
/// theme is installed, or the name of an audio tool.
pub fn item_label(st: &ThemeDownloaderState, i: usize) -> (r: String)
    ensures
        i < st.themes@.len() ==> r@ == st.themes@[i as int].name@ + " by "@ + st.themes@[i as int].author@
            + (if st.themes@[i as int].is_installed { " [INSTALLED]"@ } else { ""@ }),
        i >= st.themes@.len() ==> r@ == tool_label((i - st.themes@.len()) as int),
{
    if i < st.themes.len() {
        let t = &st.themes[i];
        let head = message_text(t.name.as_str(), " by ", t.author.as_str());
        let flag = if t.is_installed { " [INSTALLED]" } else { "" };
        let mut r = String::from_str(head.as_str());
        r.append(flag);
        r
    } else {
        let tool = i - st.themes.len();
        if tool == 0 {
            String::from_str("Audio Tools: Convert .OGG to .WAV")
        } else if tool == 1 {
            String::from_str("Audio Tools: Convert .WAV to .OGG")
        } else {
            String::from_str("Audio Tools: Delete All BGM Tracks")
        }
    }
}

/// The names of the audio tools.
pub open spec fn tool_label(tool: int) -> Seq<char> {
    if tool == 0 {
        "Audio Tools: Convert .OGG to .WAV"@
    } else if tool == 1 {
        "Audio Tools: Convert .WAV to .OGG"@
    } else {
        "Audio Tools: Delete All BGM Tracks"@
    }
}

/// A line of the notes that names the author, spaces around it ignored.
pub open spec fn names_author(l: Seq<char>) -> bool {
    starts_with(lower_of(trim(l)), "author:"@)
}

/// The lines of the notes that do not name the author, in order.
pub open spec fn without_author(lines: Seq<Seq<char>>) -> Seq<Seq<char>>
    decreases lines.len(),
{
    if lines.len() == 0 {
        Seq::empty()
    } else {
        without_author(lines.drop_last()) + if names_author(lines.last()) { Seq::empty() } else { seq![lines.last()] }
    }
}

/// The notes of a release without the lines that name the author, joined
/// with newlines.
pub fn description_without_author(description: &str) -> (r: String)
    ensures
        r@ == crate::ui::screens::joined(without_author(lines_spec(description@))),
{
    let lines = lines_of(description);
    let ghost lv = views(lines@);
    let mut kept: Vec<String> = Vec::new();
    let mut i: usize = 0;
    while i < lines.len()
        invariant
            0 <= i <= lines.len(),
            lv == views(lines@),
            lv == lines_spec(description@),
            views(kept@) == without_author(lv.take(i as int)),
        decreases lines.len() - i,
    {
        proof {
            assert(lv.take(i + 1).drop_last() =~= lv.take(i as int));
            assert(lv.take(i + 1).last() == lines@[i as int]@);
        }
        let t = trim_str(lines[i].as_str());
        let low = to_lower(t.as_str());
        if !crate::text::str_starts_with(low.as_str(), "author:") {
            kept.push(lines[i].clone());
            assert(views(kept@) =~= without_author(lv.take(i as int)) + seq![lv[i as int]]);
        } else {
            assert(without_author(lv.take(i + 1)) =~= without_author(lv.take(i as int)));
        }
        i = i + 1;
    }
    assert(lv.take(lines.len() as int) =~= lv);
    crate::ui::screens::join_lines(&kept)
}

/// The pattern of the image tags removed from a description.
pub open spec fn img_tag() -> Seq<char> {
    "<img[^>]*>"@
}

/// The description shown for a theme: its notes without the author lines
/// and with the image tags removed (`None` if the pattern did not compile).
pub fn theme_description(description: &str) -> (r: Option<String>)
    ensures
        match r {
            Some(t) => crate::patterns::regex_replaced(img_tag(), crate::ui::screens::joined(without_author(lines_spec(description@))), ""@) == Some(t@),
            None => crate::patterns::regex_replaced(img_tag(), crate::ui::screens::joined(without_author(lines_spec(description@))), ""@) is None,
        },
{
    let text = description_without_author(description);
    crate::patterns::regex_replace_all("<img[^>]*>", text.as_str(), "")
}

/// The description shown for an audio tool.
pub fn tool_description(tool: usize) -> (r: String)
    ensures
        tool == 0 ==> r@ == "Converts space-saving .ogg files into faster-loading .wav files.\n\nThis uses more disk space."@,
        tool == 1 ==> r@ == "Converts large .wav files into space-saving .ogg files.\n\nThis may increase theme loading times."@,
        tool >= 2 ==> r@ == "Deletes all .wav and .ogg BGM files from all theme and bgm folders.\n\nThis will NOT delete sound effects (SFX) packs."@,
{
    if tool == 0 {
        String::from_str("Converts space-saving .ogg files into faster-loading .wav files.\n\nThis uses more disk space.")
    } else if tool == 1 {
        String::from_str("Converts large .wav files into space-saving .ogg files.\n\nThis may increase theme loading times.")
    } else {
        String::from_str("Deletes all .wav and .ogg BGM files from all theme and bgm folders.\n\nThis will NOT delete sound effects (SFX) packs.")
    }
}


/// Flipping a yes/no answer twice gives it back.
pub proof fn law_flip_twice(sel: int, i: InputState)
    requires
        0 <= sel <= 1,
    ensures
        flipped(flipped(sel, i), i) == sel,
        0 <= flipped(sel, i) <= 1,
{
}

/// On a list, down then up (in two frames, nothing else pressed) returns
/// the highlight to where it was, and the page to the highlight's, unless
/// the highlight was on the last entry.
pub proof fn law_list_down_then_up(sel: int, page: int, total: int)
    requires
        0 <= sel < total - 1,
    ensures
        ({
            let d = InputState { down: true, ..crate::ui::initial_input() };
            let u = InputState { up: true, ..crate::ui::initial_input() };
            let (s1, p1, e1) = list_cursor(sel, page, total, d);
            let (s2, p2, e2) = list_cursor(s1, p1, total, u);
            s2 == sel && p2 == sel / (ITEMS_PER_PAGE as int) && e1.len() == 1 && e2.len() == 1
        }),
{
}

/// Turning a page right then left (in two frames, nothing else pressed)
/// comes back to the first entry of the page the highlight was on, when
/// there is a next page.
pub proof fn law_page_right_then_left(sel: int, total: int)
    requires
        0 <= sel < total,
        sel / 5 < (total + 4) / 5 - 1,
    ensures
        ({
            let r = InputState { right: true, ..crate::ui::initial_input() };
            let l = InputState { left: true, ..crate::ui::initial_input() };
            let page = sel / 5;
            let (s1, p1, e1) = list_cursor(sel, page, total, r);
            let (s2, p2, e2) = list_cursor(s1, p1, total, l);
            s2 == page * 5 && p2 == page
        }),
{
    let page = sel / 5;
    assert((page + 1) * 5 / 5 == page + 1) by (nonlinear_arith) requires page >= 0;
    assert(page * 5 / 5 == page) by (nonlinear_arith) requires page >= 0;
}

} // verus!

//! The runtime downloader: the official runtimes, those of the Kazeta+
//! release and the third-party packs, sorted by source and name and marked
//! when installed; the list, its confirmations, the download progress and
//! the outcomes of installations and deletions. Network and file work is
//! left to the caller.
use vstd::prelude::*;
use crate::ui::{Effect, Sound, InputState, Screen, only_if};
use crate::ui::theme_downloader::{list_cursor, flipped, cursor_exec, confirm_input, message_text, Fetched};
use crate::sorting::{views, is_stable_order};
use crate::text::{chars_of, string_from};

verus! {

/// Entries per page of the list.
pub const ITEMS_PER_PAGE: usize = 5;

/// Where a runtime comes from; the list is sorted in this order first.
#[derive(PartialEq, Eq, Structural, Clone, Copy, Debug)]
pub enum RuntimeSource {
    Official,
    Outcaster,
    ThirdParty,
}

/// A runtime offered for download. Its size is kept in bytes, as the
/// server reports it.
pub struct RemoteRuntime {
    pub name: String,
    pub file_name: String,
    pub description: String,
    pub download_url: String,
    pub source: RuntimeSource,
    pub is_installed: bool,
    pub is_zip: bool,
    pub size_bytes: Option<u64>,
}

/// How far a download has come: `done` of `of`.
#[derive(PartialEq, Eq, Structural, Clone, Copy, Debug)]
pub struct Progress {
    pub done: u64,
    pub of: u64,
}

/// Where the downloader stands.
pub enum DownloaderState {
    Idle,
    FetchingList,
    DisplayingList,
    Downloading { name: String, progress: Option<Progress>, received_bytes: u64 },
    Success(String),
    Error(String),
    ConfirmDelete { runtime: RemoteRuntime, selection: usize },
    ConfirmRedownload { runtime: RemoteRuntime, selection: usize },
}

/// The downloader's state.
pub struct RuntimeDownloaderState {
    pub screen_state: DownloaderState,
    pub runtimes: Vec<RemoteRuntime>,
    pub selected_index: usize,
    pub current_page: usize,
}

impl RuntimeDownloaderState {
    /// The downloader before it fetches anything.
    pub fn new() -> (r: RuntimeDownloaderState)
        ensures
            r.screen_state is Idle,
            r.runtimes@.len() == 0,
            r.selected_index == 0,
            r.current_page == 0,
    {
        RuntimeDownloaderState {
            screen_state: DownloaderState::Idle,
            runtimes: Vec::new(),
            selected_index: 0,
            current_page: 0,
        }
    }
}

// ---------------------------------------------------------------------
// The list of runtimes
// ---------------------------------------------------------------------

/// Where the official runtimes are served from.
pub open spec fn official_base() -> Seq<char> {
    "https://runtimes.kazeta.org/"@
}

/// The official runtimes.
pub const OFFICIAL_FILES: [&'static str; 6] = [
    "linux-1.0.kzr",
    "windows-1.0.kzr",
    "megadrive-1.1.kzr",
    "snes-1.0.kzr",
    "nes-1.0.kzr",
    "nintendo64-1.0.kzr",
];

/// The runtimes of the Kazeta+ release.
pub const OUTCASTER_FILES: [&'static str; 3] = ["dolphin-1.0.kzr", "linux-1.1.kzr", "windows-1.1.kzr"];

/// The third-party packs of the Kazeta+ release.
pub const THIRD_PARTY_FILES: [&'static str; 4] = [
    "pcengine-1.0.zip",
    "playstation-1.01.zip",
    "saturn-1.0.zip",
    "segacd-1.0.zip",
];

/// The address of an official runtime.
pub fn official_url(file_name: &str) -> (r: String)
    ensures
        r@ == official_base() + file_name@,
{
    let mut r = String::from_str("https://runtimes.kazeta.org/");
    r.append(file_name);
    r
}

/// The files a third-party pack unpacks to, the runtime first; none for a
/// pack that is not known.
pub open spec fn extracted_files(zip_name: Seq<char>) -> Seq<Seq<char>> {
    if zip_name == "pcengine-1.0.zip"@ {
        seq!["pcengine-1.0.kzr"@, "pcengine-info.txt"@]
    } else if zip_name == "playstation-1.01.zip"@ {
        seq!["playstation-1.01.kzr"@, "playstation-info.txt"@]
    } else if zip_name == "saturn-1.0.zip"@ {
        seq!["saturn-1.0.kzr"@, "saturn-info.txt"@]
    } else if zip_name == "segacd-1.0.zip"@ {
        seq!["segacd-1.0.kzr"@, "segacd-info.txt"@]
    } else {
        Seq::empty()
    }
}

fn two(a: &str, b: &str) -> (r: Vec<String>)
    ensures
        views(r@) == seq![a@, b@],
{
    let mut r: Vec<String> = Vec::new();
    r.push(String::from_str(a));
    r.push(String::from_str(b));
    assert(views(r@) =~= seq![a@, b@]);
    r
}

/// See `extracted_files`.
pub fn get_zip_extracted_files(zip_name: &str) -> (r: Vec<String>)
    ensures
        views(r@) == extracted_files(zip_name@),
{
    let r = if crate::text::str_eq(zip_name, "pcengine-1.0.zip") {
        two("pcengine-1.0.kzr", "pcengine-info.txt")
    } else if crate::text::str_eq(zip_name, "playstation-1.01.zip") {
        two("playstation-1.01.kzr", "playstation-info.txt")
    } else if crate::text::str_eq(zip_name, "saturn-1.0.zip") {
        two("saturn-1.0.kzr", "saturn-info.txt")
    } else if crate::text::str_eq(zip_name, "segacd-1.0.zip") {
        two("segacd-1.0.kzr", "segacd-info.txt")
    } else {
        Vec::new()
    };
    assert(views(r@) =~= extracted_files(zip_name@));
    r
}

/// The size a reply to a `HEAD` request gives: the `Content-Length` header
/// read as a number of bytes, when the request succeeded.
pub fn reported_size(success: bool, content_length: Option<&str>) -> (r: Option<u64>)
    ensures
        !success ==> r is None,
        success ==> match content_length {
            None => r is None,
            Some(h) => match crate::numparse::parse_unsigned(h@, u64::MAX as int) {
                Some(v) => r == Some(v as u64),
                None => r is None,
            },
        },
{
    if !success {
        return None;
    }
    match content_length {
        None => None,
        Some(h) => crate::numparse::parse_u64(h),
    }
}

/// An asset of the Kazeta+ runtimes release, with its size when known.
pub struct RuntimeAsset {
    pub name: String,
    pub browser_download_url: String,
    pub size_bytes: Option<u64>,
}

/// Whether `name` is among `names`.
fn listed(names: &[&'static str], name: &str) -> (r: bool)
    ensures
        r == exists|k: int| 0 <= k < names@.len() && (#[trigger] names@[k])@ == name@,
{
    let mut i: usize = 0;
    while i < names.len()
        invariant
            0 <= i <= names@.len(),
            forall|k: int| 0 <= k < i ==> (#[trigger] names@[k])@ != name@,
        decreases names.len() - i,
    {
        if crate::text::str_eq(names[i], name) {
            return true;
        }
        i = i + 1;
    }
    false
}

/// String literals by their views.
pub open spec fn str_views(names: Seq<&'static str>) -> Seq<Seq<char>> {
    names.map_values(|s: &'static str| s@)
}

/// The key the list is sorted by: the source's rank, then the name.
pub open spec fn runtime_key(r: RemoteRuntime) -> Seq<char> {
    seq![rank_char(r.source)] + r.name@
}

/// The sort keys of the runtimes.
pub open spec fn runtime_keys(u: Seq<RemoteRuntime>) -> Seq<Seq<char>> {
    u.map_values(|x: RemoteRuntime| runtime_key(x))
}

/// The rank of a source in the list, as a character that sorts first for
/// the official runtimes.
pub open spec fn rank_char(s: RuntimeSource) -> char {
    match s {
        RuntimeSource::Official => '0',
        RuntimeSource::Outcaster => '1',
        RuntimeSource::ThirdParty => '2',
    }
}

/// Whether an installed runtime shows `r` as installed: a pack by the
/// runtime it unpacks (unknown packs are not), any other by its file.
pub open spec fn shown_installed(r: RemoteRuntime, installed: Seq<Seq<char>>) -> bool {
    if r.is_zip {
        let files = extracted_files(r.file_name@);
        files.len() > 0 && installed.contains(files[0])
    } else {
        installed.contains(r.file_name@)
    }
}

/// A runtime as first listed, before sorting and marking.
pub open spec fn listed_as(r: RemoteRuntime, name: Seq<char>, url: Seq<char>, source: RuntimeSource, size: Option<u64>) -> bool {
    &&& r.name@ == name
    &&& r.file_name@ == name
    &&& r.download_url@ == url
    &&& r.source == source
    &&& r.is_zip == (source == RuntimeSource::ThirdParty)
    &&& r.size_bytes == size
    &&& r.description@ == (match source {
        RuntimeSource::Official => "Official Kazeta runtime."@,
        RuntimeSource::Outcaster => "Kazeta+ specific runtime."@,
        RuntimeSource::ThirdParty => "Third-party runtime pack. This will be extracted."@,
    })
}

/// The runtimes before sorting: the official ones (with `official_sizes`,
/// in order), then the assets of the Kazeta+ release that are known
/// runtimes or packs, in the release's order.
pub open spec fn unsorted_list(official_sizes: Seq<Option<u64>>, assets: Seq<RuntimeAsset>, r: Seq<RemoteRuntime>) -> bool {
    let offs = str_views(OFFICIAL_FILES@);
    let picked = known_assets(assets);
    &&& r.len() == offs.len() + picked.len()
    &&& forall|k: int| 0 <= k < offs.len() ==> listed_as(#[trigger] r[k], offs[k], official_base() + offs[k], RuntimeSource::Official, official_sizes[k])
    &&& forall|k: int| 0 <= k < picked.len() ==> {
        let a = assets[picked[k]];
        listed_as(#[trigger] r[offs.len() + k], a.name@, a.browser_download_url@,
            if str_views(OUTCASTER_FILES@).contains(a.name@) { RuntimeSource::Outcaster } else { RuntimeSource::ThirdParty }, a.size_bytes)
    }
}

/// Whether an asset is a known runtime or pack.
pub open spec fn known_asset(a: RuntimeAsset) -> bool {
    str_views(OUTCASTER_FILES@).contains(a.name@) || str_views(THIRD_PARTY_FILES@).contains(a.name@)
}

/// The positions of the known assets, in order.
pub open spec fn known_assets(assets: Seq<RuntimeAsset>) -> Seq<int>
    decreases assets.len(),
{
    if assets.len() == 0 {
        Seq::empty()
    } else {
        known_assets(assets.drop_last()) + if known_asset(assets.last()) { seq![assets.len() - 1] } else { Seq::empty() }
    }
}

/// The runtime list: those of `unsorted_list` stably sorted by
/// `runtime_key` and marked by `shown_installed`; an empty list is
/// refused.
pub open spec fn runtime_list(
    official_sizes: Seq<Option<u64>>,
    assets: Seq<RuntimeAsset>,
    installed: Seq<Seq<char>>,
    r: Result<Vec<RemoteRuntime>, String>,
) -> bool {
    exists|u: Seq<RemoteRuntime>, p: Seq<int>| {
        &&& #[trigger] unsorted_list(official_sizes, assets, u)
        &&& #[trigger] is_stable_order(runtime_keys(u), p)
        &&& if u.len() == 0 {
            r matches Err(e) && e@ == "Failed to fetch any runtimes. Check internet connection."@
        } else {
            r matches Ok(v) && v@.len() == u.len() && forall|k: int| 0 <= k < v@.len() ==> {
                let a = #[trigger] v@[k];
                let b = u[p[k]];
                &&& a.name == b.name && a.file_name == b.file_name && a.description == b.description
                &&& a.download_url == b.download_url && a.source == b.source && a.is_zip == b.is_zip
                &&& a.size_bytes == b.size_bytes
                &&& a.is_installed == shown_installed(b, installed)
            }
        }
    }
}

fn new_runtime(name: &str, url: String, source: RuntimeSource, size: Option<u64>) -> (r: RemoteRuntime)
    ensures
        listed_as(r, name@, url@, source, size),
        !r.is_installed,
{
    let description = match source {
        RuntimeSource::Official => String::from_str("Official Kazeta runtime."),
        RuntimeSource::Outcaster => String::from_str("Kazeta+ specific runtime."),
        RuntimeSource::ThirdParty => String::from_str("Third-party runtime pack. This will be extracted."),
    };
    RemoteRuntime {
        name: String::from_str(name),
        file_name: String::from_str(name),
        description,
        download_url: url,
        source,
        is_installed: false,
        is_zip: source == RuntimeSource::ThirdParty,
        size_bytes: size,
    }
}

fn gather(official_sizes: &Vec<Option<u64>>, assets: &Vec<RuntimeAsset>) -> (r: Vec<RemoteRuntime>)
    requires
        official_sizes@.len() == 6,
    ensures
        unsorted_list(official_sizes@, assets@, r@),
{
    let ghost offs = str_views(OFFICIAL_FILES@);
    let mut all: Vec<RemoteRuntime> = Vec::new();
    let mut i: usize = 0;
    while i < 6
        invariant
            0 <= i <= 6,
            official_sizes@.len() == 6,
            offs == str_views(OFFICIAL_FILES@),
            all@.len() == i,
            forall|k: int| 0 <= k < i ==> listed_as(#[trigger] all@[k], offs[k], official_base() + offs[k], RuntimeSource::Official, official_sizes@[k]),
        decreases 6 - i,
    {
        let f = OFFICIAL_FILES[i];
        let url = official_url(f);
        all.push(new_runtime(f, url, RuntimeSource::Official, official_sizes[i]));
        i = i + 1;
    }
    let mut j: usize = 0;
    while j < assets.len()
        invariant
            0 <= j <= assets@.len(),
            offs == str_views(OFFICIAL_FILES@),
            offs.len() == 6,
            all@.len() == 6 + known_assets(assets@.take(j as int)).len(),
            forall|k: int| 0 <= k < 6 ==> listed_as(#[trigger] all@[k], offs[k], official_base() + offs[k], RuntimeSource::Official, official_sizes@[k]),
            forall|k: int| 0 <= k < known_assets(assets@.take(j as int)).len() ==> 0 <= #[trigger] known_assets(assets@.take(j as int))[k] < j,
            forall|k: int| 0 <= k < known_assets(assets@.take(j as int)).len() ==> {
                let a = assets@[known_assets(assets@.take(j as int))[k]];
                listed_as(#[trigger] all@[6 + k], a.name@, a.browser_download_url@,
                    if str_views(OUTCASTER_FILES@).contains(a.name@) { RuntimeSource::Outcaster } else { RuntimeSource::ThirdParty }, a.size_bytes)
            },
        decreases assets.len() - j,
    {
        let ghost pre = assets@.take(j as int);
        let ghost nxt = assets@.take(j + 1);
        proof {
            assert(nxt.drop_last() =~= pre);
            assert(nxt.last() == assets@[j as int]);
        }
        let a = &assets[j];
        let out = listed(&OUTCASTER_FILES, a.name.as_str());
        let third = listed(&THIRD_PARTY_FILES, a.name.as_str());
        proof {
            if out {
                let k = choose|k: int| 0 <= k < OUTCASTER_FILES@.len() && (#[trigger] OUTCASTER_FILES@[k])@ == a.name@;
                assert(str_views(OUTCASTER_FILES@)[k] == a.name@);
            }
            if !out {
                assert forall|k: int| 0 <= k < str_views(OUTCASTER_FILES@).len() implies str_views(OUTCASTER_FILES@)[k] != a.name@ by {
                    assert(str_views(OUTCASTER_FILES@)[k] == OUTCASTER_FILES@[k]@);
                }
            }
            if third {
                let k = choose|k: int| 0 <= k < THIRD_PARTY_FILES@.len() && (#[trigger] THIRD_PARTY_FILES@[k])@ == a.name@;
                assert(str_views(THIRD_PARTY_FILES@)[k] == a.name@);
            }
            if !third {
                assert forall|k: int| 0 <= k < str_views(THIRD_PARTY_FILES@).len() implies str_views(THIRD_PARTY_FILES@)[k] != a.name@ by {
                    assert(str_views(THIRD_PARTY_FILES@)[k] == THIRD_PARTY_FILES@[k]@);
                }
            }
        }
        if out || third {
            let src = if out { RuntimeSource::Outcaster } else { RuntimeSource::ThirdParty };
            let r = new_runtime(a.name.as_str(), a.browser_download_url.clone(), src, a.size_bytes);
            all.push(r);
            proof {
                assert(known_assets(nxt) =~= known_assets(pre).push(j as int));
                assert forall|k: int| 0 <= k < known_assets(nxt).len() implies {
                    let a = assets@[known_assets(nxt)[k]];
                    listed_as(#[trigger] all@[6 + k], a.name@, a.browser_download_url@,
                        if str_views(OUTCASTER_FILES@).contains(a.name@) { RuntimeSource::Outcaster } else { RuntimeSource::ThirdParty }, a.size_bytes)
                } by {
                    if k < known_assets(pre).len() {
                        assert(known_assets(nxt)[k] == known_assets(pre)[k]);
                    }
                }
            }
        } else {
            proof {
                assert(known_assets(nxt) =~= known_assets(pre));
            }
        }
        j = j + 1;
    }
    proof {
        assert(assets@.take(assets@.len() as int) =~= assets@);
        assert(offs.len() == 6);
    }
    all
}

/// Copies a runtime.
pub fn clone_runtime(r: &RemoteRuntime) -> (c: RemoteRuntime)
    ensures
        c == *r,
{
    RemoteRuntime {
        name: r.name.clone(),
        file_name: r.file_name.clone(),
        description: r.description.clone(),
        download_url: r.download_url.clone(),
        source: r.source,
        is_installed: r.is_installed,
        is_zip: r.is_zip,
        size_bytes: r.size_bytes,
    }
}

fn key_of(r: &RemoteRuntime) -> (k: Vec<char>)
    ensures
        k@ == runtime_key(*r),
{
    let mut k: Vec<char> = Vec::new();
    k.push(match r.source {
        RuntimeSource::Official => '0',
        RuntimeSource::Outcaster => '1',
        RuntimeSource::ThirdParty => '2',
    });
    let n = chars_of(r.name.as_str());
    crate::text::push_all(&mut k, n.as_slice());
    k
}

fn contains_str(names: &Vec<String>, name: &[char]) -> (r: bool)
    ensures
        r == views(names@).contains(name@),
{
    let s = string_from(name);
    crate::ui::theme_downloader::contains_name(names, s.as_str())
}

fn is_shown_installed(r: &RemoteRuntime, installed: &Vec<String>) -> (b: bool)
    ensures
        b == shown_installed(*r, views(installed@)),
{
    if r.is_zip {
        let files = get_zip_extracted_files(r.file_name.as_str());
        if files.len() > 0 {
            let first = chars_of(files[0].as_str());
            assert(views(files@)[0] == files@[0]@);
            contains_str(installed, first.as_slice())
        } else {
            false
        }
    } else {
        let f = chars_of(r.file_name.as_str());
        contains_str(installed, f.as_slice())
    }
}

/// Builds the runtime list from the sizes of the official runtimes (in the
/// order of `OFFICIAL_FILES`), the assets of the Kazeta+ release (none when
/// it could not be fetched or read) and the names found in the runtime
/// folder. See `runtime_list`.
pub fn build_runtime_list(official_sizes: &Vec<Option<u64>>, assets: &Vec<RuntimeAsset>, installed: &Vec<String>) -> (r: Result<Vec<RemoteRuntime>, String>)
    requires
        official_sizes@.len() == 6,
    ensures
        runtime_list(official_sizes@, assets@, views(installed@), r),
{
    let all = gather(official_sizes, assets);
    let mut keys: Vec<Vec<char>> = Vec::new();
    let mut i: usize = 0;
    while i < all.len()
        invariant
            0 <= i <= all@.len(),
            keys@.len() == i,
            forall|k: int| 0 <= k < i ==> (#[trigger] keys@[k])@ == runtime_key(all@[k]),
        decreases all.len() - i,
    {
        keys.push(key_of(&all[i]));
        i = i + 1;
    }
    let ghost ks = keys@.map_values(|k: Vec<char>| k@);
    assert(ks =~= runtime_keys(all@));
    let order = crate::sorting::stable_order(&keys);
    let ghost p = order@.map_values(|x: usize| x as int);
    let mut out: Vec<RemoteRuntime> = Vec::new();
    let mut j: usize = 0;
    while j < order.len()
        invariant
            0 <= j <= order@.len(),
            crate::sorting::is_perm(p, all@.len() as int),
            p == order@.map_values(|x: usize| x as int),
            out@.len() == j,
            forall|k: int| 0 <= k < j ==> {
                let a = #[trigger] out@[k];
                let b = all@[p[k]];
                &&& a.name == b.name && a.file_name == b.file_name && a.description == b.description
                &&& a.download_url == b.download_url && a.source == b.source && a.is_zip == b.is_zip
                &&& a.size_bytes == b.size_bytes
                &&& a.is_installed == shown_installed(b, views(installed@))
            },
        decreases order.len() - j,
    {
        let idx = order[j];
        assert(p[j as int] == idx as int);
        let mut c = clone_runtime(&all[idx]);
        c.is_installed = is_shown_installed(&all[idx], installed);
        out.push(c);
        j = j + 1;
    }
    proof {
        assert(unsorted_list(official_sizes@, assets@, all@));
    }
    if out.len() == 0 {
        Err(String::from_str("Failed to fetch any runtimes. Check internet connection."))
    } else {
        Ok(out)
    }
}

// ---------------------------------------------------------------------
// The screen
// ---------------------------------------------------------------------

/// What the background work reports.
pub enum DownloaderMessage {
    RuntimeList(Result<Vec<RemoteRuntime>, String>),
    DownloadProgress { progress: Option<Progress>, received_bytes: u64 },
    InstallResult(Result<String, String>),
    DeleteResult(Result<String, String>),
}

/// Background work the downloader asks for.
pub enum RuntimeCommand {
    /// Build the list (see `build_runtime_list`); report with `receive`.
    FetchList,
    /// Download and install this runtime; report with `receive`.
    Download(RemoteRuntime),
    /// Delete this installed runtime; report with `receive`.
    Delete(RemoteRuntime),
}

/// What a frame on the downloader decides.
pub struct RuntimeStep {
    pub effects: Vec<Effect>,
    pub command: Option<RuntimeCommand>,
}

/// The downloader's invariant: confirmations hold 0 or 1, and the page and
/// the list are small enough that the arithmetic on them cannot wrap.
pub open spec fn wf(st: RuntimeDownloaderState) -> bool {
    &&& match st.screen_state {
        DownloaderState::ConfirmDelete { selection, .. } => selection <= 1,
        DownloaderState::ConfirmRedownload { selection, .. } => selection <= 1,
        _ => true,
    }
    &&& st.current_page <= usize::MAX / 5
    &&& st.runtimes@.len() < usize::MAX / 8
}

/// Back: from the list, and during a download (which goes on unwatched),
/// leave for the extras and fetch afresh next time; from anything else,
/// return to the list at the page of the highlighted entry.
pub fn back_pressed(st: &mut RuntimeDownloaderState, screen: &mut Screen) -> (effects: Vec<Effect>)
    ensures
        effects@ == seq![Effect::Play(Sound::Back)],
        (old(st).screen_state is DisplayingList || old(st).screen_state is Downloading) ==> *final(screen) == Screen::Extras
            && *final(st) == (RuntimeDownloaderState { screen_state: DownloaderState::Idle, ..*old(st) }),
        !(old(st).screen_state is DisplayingList || old(st).screen_state is Downloading) ==> *final(screen) == *old(screen)
            && *final(st) == (RuntimeDownloaderState {
            screen_state: DownloaderState::DisplayingList,
            current_page: (old(st).selected_index / ITEMS_PER_PAGE) as usize,
            ..*old(st)
        }),
{
    let mut effects: Vec<Effect> = Vec::new();
    effects.push(Effect::Play(Sound::Back));
    assert(effects@ =~= seq![Effect::Play(Sound::Back)]);
    let leave = match &st.screen_state {
        DownloaderState::DisplayingList => true,
        DownloaderState::Downloading { .. } => true,
        _ => false,
    };
    if leave {
        *screen = Screen::Extras;
        st.screen_state = DownloaderState::Idle;
    } else {
        st.screen_state = DownloaderState::DisplayingList;
        st.current_page = st.selected_index / ITEMS_PER_PAGE;
    }
    effects
}

/// What a report does to the downloader: the list is shown; progress is
/// recorded while downloading; a finished installation or deletion fetches
/// the list afresh; a failure is shown.
pub open spec fn received(st0: RuntimeDownloaderState, msg: DownloaderMessage, st1: RuntimeDownloaderState) -> bool {
    match msg {
        DownloaderMessage::RuntimeList(Ok(v)) => st1 == (RuntimeDownloaderState {
            screen_state: DownloaderState::DisplayingList,
            runtimes: v,
            ..st0
        }),
        DownloaderMessage::RuntimeList(Err(e)) => st1 == (RuntimeDownloaderState { screen_state: DownloaderState::Error(e), ..st0 }),
        DownloaderMessage::DownloadProgress { progress, received_bytes } => match st0.screen_state {
            DownloaderState::Downloading { name, .. } => st1 == (RuntimeDownloaderState {
                screen_state: DownloaderState::Downloading { name, progress, received_bytes },
                ..st0
            }),
            _ => st1 == st0,
        },
        DownloaderMessage::InstallResult(Ok(_)) => st1 == (RuntimeDownloaderState { screen_state: DownloaderState::Idle, ..st0 }),
        DownloaderMessage::InstallResult(Err(e)) => st1 == (RuntimeDownloaderState { screen_state: DownloaderState::Error(e), ..st0 }),
        DownloaderMessage::DeleteResult(Ok(_)) => st1 == (RuntimeDownloaderState { screen_state: DownloaderState::Idle, ..st0 }),
        DownloaderMessage::DeleteResult(Err(e)) => st1 == (RuntimeDownloaderState { screen_state: DownloaderState::Error(e), ..st0 }),
    }
}

/// Takes in a report (see `received`).
pub fn receive(st: &mut RuntimeDownloaderState, msg: DownloaderMessage)
    ensures
        received(*old(st), msg, *final(st)),
{
    match msg {
        DownloaderMessage::RuntimeList(Ok(v)) => {
            st.runtimes = v;
            st.screen_state = DownloaderState::DisplayingList;
        },
        DownloaderMessage::RuntimeList(Err(e)) => {
            st.screen_state = DownloaderState::Error(e);
        },
        DownloaderMessage::DownloadProgress { progress, received_bytes } => {
            let name = match &st.screen_state {
                DownloaderState::Downloading { name, .. } => Some(name.clone()),
                _ => None,
            };
            match name {
                Some(n) => {
                    st.screen_state = DownloaderState::Downloading { name: n, progress, received_bytes };
                },
                None => {},
            }
        },
        DownloaderMessage::InstallResult(Ok(_)) => {
            st.screen_state = DownloaderState::Idle;
        },
        DownloaderMessage::InstallResult(Err(e)) => {
            st.screen_state = DownloaderState::Error(e);
        },
        DownloaderMessage::DeleteResult(Ok(_)) => {
            st.screen_state = DownloaderState::Idle;
        },
        DownloaderMessage::DeleteResult(Err(e)) => {
            st.screen_state = DownloaderState::Error(e);
        },
    }
}

/// The progress shown when a download starts.
pub open spec fn started() -> Option<Progress> {
    Some(Progress { done: 0, of: 1 })
}

/// A frame on the list: the cursor as on the theme list; select on an
/// installed runtime asks before downloading again, on another starts the
/// download; the secondary button asks to delete an installed runtime and
/// is refused otherwise.
pub open spec fn list_frame(st0: RuntimeDownloaderState, st1: RuntimeDownloaderState, i: InputState, effects: Seq<Effect>, cmd: Option<RuntimeCommand>) -> bool {
    let total = st0.runtimes@.len() as int;
    if total == 0 {
        st1 == st0 && effects.len() == 0 && cmd is None
    } else {
        let (sel, page, moves) = list_cursor(st0.selected_index as int, st0.current_page as int, total, i);
        let on_item = sel < total;
        let t = st0.runtimes@[sel];
        let can_delete = i.secondary && on_item && t.is_installed;
        &&& st1.runtimes == st0.runtimes
        &&& st1.selected_index == sel
        &&& st1.current_page == page
        &&& effects == moves + only_if(i.select, seq![Effect::Play(Sound::Select)])
            + only_if(
            i.secondary && on_item,
            seq![Effect::Play(if can_delete { Sound::Select } else { Sound::Reject })],
        )
        &&& cmd == (if i.select && on_item && !t.is_installed { Some(RuntimeCommand::Download(t)) } else { None })
        &&& if can_delete {
            st1.screen_state == (DownloaderState::ConfirmDelete { runtime: t, selection: 1 })
        } else if i.select && on_item {
            if t.is_installed {
                st1.screen_state == (DownloaderState::ConfirmRedownload { runtime: t, selection: 1 })
            } else {
                st1.screen_state == (DownloaderState::Downloading { name: t.name, progress: started(), received_bytes: 0 })
            }
        } else {
            st1.screen_state == st0.screen_state
        }
    }
}

fn list_update(st: &mut RuntimeDownloaderState, input: &InputState) -> (r: RuntimeStep)
    requires
        old(st).screen_state is DisplayingList,
        old(st).runtimes@.len() < usize::MAX / 8,
        old(st).current_page <= usize::MAX / 5,
    ensures
        list_frame(*old(st), *final(st), *input, r.effects@, r.command),
{
    let total = st.runtimes.len();
    if total == 0 {
        return RuntimeStep { effects: Vec::new(), command: None };
    }
    let (sel, page, mut effects) = cursor_exec(st.selected_index, st.current_page, total, input);
    st.selected_index = sel;
    st.current_page = page;
    let ghost moves = effects@;
    let mut command: Option<RuntimeCommand> = None;
    if input.select {
        effects.push(Effect::Play(Sound::Select));
        if sel < total {
            let t = clone_runtime(&st.runtimes[sel]);
            if t.is_installed {
                st.screen_state = DownloaderState::ConfirmRedownload { runtime: t, selection: 1 };
            } else {
                st.screen_state = DownloaderState::Downloading {
                    name: t.name.clone(),
                    progress: Some(Progress { done: 0, of: 1 }),
                    received_bytes: 0,
                };
                command = Some(RuntimeCommand::Download(t));
            }
        }
    }
    let ghost e2 = effects@;
    if input.secondary && sel < total {
        if st.runtimes[sel].is_installed {
            effects.push(Effect::Play(Sound::Select));
            let t = clone_runtime(&st.runtimes[sel]);
            st.screen_state = DownloaderState::ConfirmDelete { runtime: t, selection: 1 };
        } else {
            effects.push(Effect::Play(Sound::Reject));
        }
    }
    proof {
        assert(e2 =~= moves + only_if(input.select, seq![Effect::Play(Sound::Select)]));
        let t = old(st).runtimes@[sel as int];
        let can_delete = input.secondary && sel < total && t.is_installed;
        assert(effects@ =~= e2 + only_if(
            input.secondary && sel < total,
            seq![Effect::Play(if can_delete { Sound::Select } else { Sound::Reject })],
        ));
    }
    RuntimeStep { effects, command }
}

/// A frame on a confirmation or an outcome: with yes the download or the
/// deletion starts, with no the list returns; on an outcome, select or
/// back fetch the list again.
pub open spec fn other_frame(st0: RuntimeDownloaderState, st1: RuntimeDownloaderState, i: InputState, effects: Seq<Effect>, cmd: Option<RuntimeCommand>) -> bool {
    let flip = only_if(i.left || i.right, seq![Effect::Play(Sound::CursorMove)]);
    let sel = only_if(i.select, seq![Effect::Play(Sound::Select)]);
    &&& st1.runtimes == st0.runtimes
    &&& st1.selected_index == st0.selected_index
    &&& st1.current_page == st0.current_page
    &&& match st0.screen_state {
        DownloaderState::ConfirmDelete { runtime: t, selection: s } => {
            let s1 = flipped(s as int, i);
            &&& effects == flip + sel
            &&& cmd == (if i.select && s1 == 0 { Some(RuntimeCommand::Delete(t)) } else { None })
            &&& if i.select && s1 == 0 {
                st1.screen_state matches DownloaderState::Downloading { name, progress, received_bytes }
                    && name@ == "Deleting "@ + t.name@ + "..."@ && progress is None && received_bytes == 0
            } else if i.select {
                st1.screen_state == DownloaderState::DisplayingList
            } else {
                st1.screen_state == (DownloaderState::ConfirmDelete { runtime: t, selection: s1 as usize })
            }
        },
        DownloaderState::ConfirmRedownload { runtime: t, selection: s } => {
            let s1 = flipped(s as int, i);
            &&& effects == flip + sel
            &&& cmd == (if i.select && s1 == 0 { Some(RuntimeCommand::Download(t)) } else { None })
            &&& st1.screen_state == (if i.select && s1 == 0 {
                DownloaderState::Downloading { name: t.name, progress: started(), received_bytes: 0 }
            } else if i.select {
                DownloaderState::DisplayingList
            } else {
                DownloaderState::ConfirmRedownload { runtime: t, selection: s1 as usize }
            })
        },
        DownloaderState::Success(_) | DownloaderState::Error(_) => {
            &&& cmd is None
            &&& if i.select || i.back {
                st1.screen_state == DownloaderState::Idle && effects == seq![Effect::Play(Sound::Select)]
            } else {
                st1.screen_state == st0.screen_state && effects.len() == 0
            }
        },
        _ => st1.screen_state == st0.screen_state && effects.len() == 0 && cmd is None,
    }
}

fn other_update(st: &mut RuntimeDownloaderState, input: &InputState) -> (r: RuntimeStep)
    requires
        wf(*old(st)),
    ensures
        other_frame(*old(st), *final(st), *input, r.effects@, r.command),
{
    let mut command: Option<RuntimeCommand> = None;
    let mut effects: Vec<Effect> = Vec::new();
    match &st.screen_state {
        DownloaderState::ConfirmDelete { runtime, selection } => {
            let t = clone_runtime(runtime);
            let (s1, e) = confirm_input(*selection, input);
            effects = e;
            if input.select && s1 == 0 {
                let name = message_text("Deleting ", t.name.as_str(), "...");
                st.screen_state = DownloaderState::Downloading { name, progress: None, received_bytes: 0 };
                command = Some(RuntimeCommand::Delete(t));
            } else if input.select {
                st.screen_state = DownloaderState::DisplayingList;
            } else {
                st.screen_state = DownloaderState::ConfirmDelete { runtime: t, selection: s1 };
            }
        },
        DownloaderState::ConfirmRedownload { runtime, selection } => {
            let t = clone_runtime(runtime);
            let (s1, e) = confirm_input(*selection, input);
            effects = e;
            if input.select && s1 == 0 {
                st.screen_state = DownloaderState::Downloading {
                    name: t.name.clone(),
                    progress: Some(Progress { done: 0, of: 1 }),
                    received_bytes: 0,
                };
                command = Some(RuntimeCommand::Download(t));
            } else if input.select {
                st.screen_state = DownloaderState::DisplayingList;
            } else {
                st.screen_state = DownloaderState::ConfirmRedownload { runtime: t, selection: s1 };
            }
        },
        DownloaderState::Success(_) | DownloaderState::Error(_) => {
            if input.select || input.back {
                st.screen_state = DownloaderState::Idle;
                effects.push(Effect::Play(Sound::Select));
                assert(effects@ =~= seq![Effect::Play(Sound::Select)]);
            }
        },
        _ => {},
    }
    RuntimeStep { effects, command }
}

/// A frame after the reports: an idle downloader starts fetching the list;
/// otherwise see `list_frame` and `other_frame`.
pub open spec fn frame(st0: RuntimeDownloaderState, st1: RuntimeDownloaderState, i: InputState, effects: Seq<Effect>, cmd: Option<RuntimeCommand>) -> bool {
    if st0.screen_state is Idle {
        &&& st1 == (RuntimeDownloaderState { screen_state: DownloaderState::FetchingList, ..st0 })
        &&& effects.len() == 0
        &&& cmd == Some(RuntimeCommand::FetchList)
    } else if st0.screen_state is DisplayingList {
        list_frame(st0, st1, i, effects, cmd)
    } else {
        other_frame(st0, st1, i, effects, cmd)
    }
}

fn frame_exec(st: &mut RuntimeDownloaderState, input: &InputState) -> (r: RuntimeStep)
    requires
        wf(*old(st)),
    ensures
        wf(*final(st)),
        frame(*old(st), *final(st), *input, r.effects@, r.command),
{
    let idle = match &st.screen_state {
        DownloaderState::Idle => true,
        _ => false,
    };
    let in_list = match &st.screen_state {
        DownloaderState::DisplayingList => true,
        _ => false,
    };
    if idle {
        st.screen_state = DownloaderState::FetchingList;
        RuntimeStep { effects: Vec::new(), command: Some(RuntimeCommand::FetchList) }
    } else if in_list {
        list_update(st, input)
    } else {
        other_update(st, input)
    }
}

/// What a frame on the downloader decides, and the report it left unread.
pub struct RuntimeFrame {
    pub step: RuntimeStep,
    pub unread: Option<DownloaderMessage>,
}

/// One frame of the downloader. Back is handled first (see
/// `back_pressed`) and leaves `msg` unread; otherwise `msg`, when there is
/// one, is taken in (see `received`), then the state's frame runs (see
/// `frame`).
pub fn update(st: &mut RuntimeDownloaderState, input: &InputState, screen: &mut Screen, msg: Option<DownloaderMessage>) -> (r: RuntimeFrame)
    requires
        wf(*old(st)),
        msg matches Some(DownloaderMessage::RuntimeList(Ok(v))) ==> v@.len() < usize::MAX / 8,
    ensures
        wf(*final(st)),
        input.back ==> {
            &&& r.unread == msg
            &&& r.step.command is None
            &&& r.step.effects@ == seq![Effect::Play(Sound::Back)]
            &&& (old(st).screen_state is DisplayingList || old(st).screen_state is Downloading) ==> *final(screen) == Screen::Extras
                && *final(st) == (RuntimeDownloaderState { screen_state: DownloaderState::Idle, ..*old(st) })
            &&& !(old(st).screen_state is DisplayingList || old(st).screen_state is Downloading) ==> *final(screen) == *old(screen)
                && *final(st) == (RuntimeDownloaderState {
                screen_state: DownloaderState::DisplayingList,
                current_page: (old(st).selected_index / ITEMS_PER_PAGE) as usize,
                ..*old(st)
            })
        },
        !input.back ==> r.unread is None && *final(screen) == *old(screen) && exists|mid: RuntimeDownloaderState|
            {
                &&& match msg {
                    None => mid == *old(st),
                    Some(m) => received(*old(st), m, mid),
                }
                &&& #[trigger] frame(mid, *final(st), *input, r.step.effects@, r.step.command)
            },
{
    if input.back {
        let effects = back_pressed(st, screen);
        return RuntimeFrame { step: RuntimeStep { effects, command: None }, unread: msg };
    }
    match msg {
        Some(m) => receive(st, m),
        None => {},
    }
    let ghost mid = *st;
    let step = frame_exec(st, input);
    assert(frame(mid, *st, *input, step.effects@, step.command));
    RuntimeFrame { step, unread: None }
}

// ---------------------------------------------------------------------
// Downloads and deletions
// ---------------------------------------------------------------------

/// The progress report sent while downloading: `received` bytes so far of
/// `total`, when the server said how many.
pub fn progress_report(received: u64, total: Option<u64>) -> (r: DownloaderMessage)
    ensures
        r == (DownloaderMessage::DownloadProgress {
            progress: match total {
                Some(t) => Some(Progress { done: received, of: t }),
                None => None,
            },
            received_bytes: received,
        }),
{
    let progress = match total {
        Some(t) => Some(Progress { done: received, of: t }),
        None => None,
    };
    DownloaderMessage::DownloadProgress { progress, received_bytes: received }
}

/// The report sent when the whole file has arrived: complete.
pub fn final_report(received: u64) -> (r: DownloaderMessage)
    ensures
        r == (DownloaderMessage::DownloadProgress { progress: Some(Progress { done: 1, of: 1 }), received_bytes: received }),
{
    DownloaderMessage::DownloadProgress { progress: Some(Progress { done: 1, of: 1 }), received_bytes: received }
}

/// Why installing a runtime stopped.
pub enum InstallFailure {
    /// The runtime folder could not be made; the error's text.
    CreateDir(String),
    /// The request failed; the error's text.
    Request(String),
    /// The server answered with this status.
    Status(String),
    /// Reading the download failed; the error's text.
    Read(String),
    /// Keeping the download in memory failed; the error's text.
    Buffer(String),
    /// The pack is not a zip archive; the error's text.
    BadZip(String),
    /// Unpacking failed; the error's text.
    Extract(String),
    /// Saving the runtime failed; the error's text.
    Save(String),
}

/// The outcome of installing `name`, which stopped at `failure` if it did.
pub fn install_result(name: String, failure: Option<InstallFailure>) -> (r: Result<String, String>)
    ensures
        match failure {
            None => r == Ok::<String, String>(name),
            Some(f) => (r matches Err(m) && m@ == (match f {
                InstallFailure::CreateDir(e) => "Failed to create runtime dir: "@ + e@,
                InstallFailure::Request(e) => "Download failed: "@ + e@,
                InstallFailure::Status(e) => "Download failed: Server returned "@ + e@,
                InstallFailure::Read(e) => "Failed to read download stream: "@ + e@,
                InstallFailure::Buffer(e) => "Failed to write to in-memory buffer: "@ + e@,
                InstallFailure::BadZip(e) => "Invalid zip file: "@ + e@,
                InstallFailure::Extract(e) => "Failed to extract zip: "@ + e@,
                InstallFailure::Save(e) => "Failed to save file: "@ + e@,
            })),
        },
{
    proof {
        reveal_strlit("");
    }
    match failure {
        None => Ok(name),
        Some(f) => {
            let (head, e) = match f {
                InstallFailure::CreateDir(e) => ("Failed to create runtime dir: ", e),
                InstallFailure::Request(e) => ("Download failed: ", e),
                InstallFailure::Status(e) => ("Download failed: Server returned ", e),
                InstallFailure::Read(e) => ("Failed to read download stream: ", e),
                InstallFailure::Buffer(e) => ("Failed to write to in-memory buffer: ", e),
                InstallFailure::BadZip(e) => ("Invalid zip file: ", e),
                InstallFailure::Extract(e) => ("Failed to extract zip: ", e),
                InstallFailure::Save(e) => ("Failed to save file: ", e),
            };
            let m = message_text(head, e.as_str(), "");
            assert(m@ =~= head@ + e@);
            Err(m)
        },
    }
}

/// What became of one of the files a pack unpacked to.
pub enum FileOutcome {
    /// It was not there.
    Missing,
    /// It was deleted.
    Deleted,
    /// Deleting it failed; the error's text.
    Failed(String),
}

/// The files to delete for a pack (see `extracted_files`), or the message
/// for a pack that is not known.
pub fn pack_files(runtime: &RemoteRuntime) -> (r: Result<Vec<String>, String>)
    ensures
        extracted_files(runtime.file_name@).len() == 0 ==> (r matches Err(m) && m@ == "Unknown zip file: "@ + runtime.name@),
        extracted_files(runtime.file_name@).len() > 0 ==> (r matches Ok(v) && views(v@) == extracted_files(runtime.file_name@)),
{
    let files = get_zip_extracted_files(runtime.file_name.as_str());
    if files.len() == 0 {
        proof {
            reveal_strlit("");
        }
        let m = message_text("Unknown zip file: ", runtime.name.as_str(), "");
        assert(m@ =~= "Unknown zip file: "@ + runtime.name@);
        Err(m)
    } else {
        Ok(files)
    }
}

/// The last failure among the outcomes, with the file it concerns.
pub open spec fn last_failure(files: Seq<Seq<char>>, outcomes: Seq<FileOutcome>) -> Option<Seq<char>>
    decreases outcomes.len(),
{
    if outcomes.len() == 0 {
        None
    } else {
        match outcomes.last() {
            FileOutcome::Failed(e) => Some("Failed to delete "@ + files[outcomes.len() - 1] + ": "@ + e@),
            _ => last_failure(files, outcomes.drop_last()),
        }
    }
}

/// Whether any of the outcomes is a deletion.
pub open spec fn any_deleted(outcomes: Seq<FileOutcome>) -> bool {
    exists|k: int| 0 <= k < outcomes.len() && outcomes[k] is Deleted
}

/// The outcome of deleting a pack's files (`outcomes[k]` for `files[k]`):
/// success when one was deleted; otherwise the last failure, or that none
/// was found.
pub fn pack_deletion_result(name: &str, files: &Vec<String>, outcomes: &Vec<FileOutcome>) -> (r: Result<String, String>)
    requires
        files@.len() == outcomes@.len(),
    ensures
        any_deleted(outcomes@) ==> (r matches Ok(n) && n@ == name@),
        !any_deleted(outcomes@) ==> match last_failure(views(files@), outcomes@) {
            Some(m) => (r matches Err(e) && e@ == m),
            None => (r matches Err(e) && e@ == "Extracted files for "@ + name@ + " not found."@),
        },
{
    let ghost fv = views(files@);
    let mut deleted = false;
    let mut last: Option<String> = None;
    let mut i: usize = 0;
    while i < outcomes.len()
        invariant
            0 <= i <= outcomes@.len(),
            files@.len() == outcomes@.len(),
            fv == views(files@),
            deleted == any_deleted(outcomes@.take(i as int)),
            match last {
                Some(s) => last_failure(fv, outcomes@.take(i as int)) == Some(s@),
                None => last_failure(fv, outcomes@.take(i as int)) is None,
            },
        decreases outcomes.len() - i,
    {
        let ghost pre = outcomes@.take(i as int);
        let ghost nxt = outcomes@.take(i + 1);
        proof {
            assert(nxt.drop_last() =~= pre);
            assert(nxt.last() == outcomes@[i as int]);
        }
        match &outcomes[i] {
            FileOutcome::Missing => {
                proof {
                    if any_deleted(nxt) {
                        let k = choose|k: int| 0 <= k < nxt.len() && nxt[k] is Deleted;
                        assert(pre[k] is Deleted);
                    }
                    if any_deleted(pre) {
                        let k = choose|k: int| 0 <= k < pre.len() && pre[k] is Deleted;
                        assert(nxt[k] is Deleted);
                    }
                }
            },
            FileOutcome::Deleted => {
                deleted = true;
                assert(nxt[i as int] is Deleted);
            },
            FileOutcome::Failed(e) => {
                let head = message_text("Failed to delete ", files[i].as_str(), ": ");
                let mut m = String::from_str(head.as_str());
                m.append(e.as_str());
                last = Some(m);
                proof {
                    assert(fv[i as int] == files@[i as int]@);
                    if any_deleted(nxt) {
                        let k = choose|k: int| 0 <= k < nxt.len() && nxt[k] is Deleted;
                        assert(pre[k] is Deleted);
                    }
                    if any_deleted(pre) {
                        let k = choose|k: int| 0 <= k < pre.len() && pre[k] is Deleted;
                        assert(nxt[k] is Deleted);
                    }
                }
            },
        }
        i = i + 1;
    }
    assert(outcomes@.take(outcomes@.len() as int) =~= outcomes@);
    if deleted {
        Ok(String::from_str(name))
    } else {
        match last {
            Some(m) => Err(m),
            None => Err(message_text("Extracted files for ", name, " not found.")),
        }
    }
}

/// The outcome of deleting a runtime file: refused when it is not there;
/// otherwise the outcome of the removal.
pub fn file_deletion_result(runtime: &RemoteRuntime, exists: bool, removal: Result<(), String>) -> (r: Result<String, String>)
    ensures
        !exists ==> (r matches Err(m) && m@ == "File "@ + runtime.file_name@ + " not found."@),
        exists ==> match removal {
            Ok(_) => r == Ok::<String, String>(runtime.name),
            Err(e) => (r matches Err(m) && m@ == "Failed to delete file: "@ + e@),
        },
{
    if !exists {
        return Err(message_text("File ", runtime.file_name.as_str(), " not found."));
    }
    match removal {
        Ok(_) => Ok(runtime.name.clone()),
        Err(e) => {
            proof {
                reveal_strlit("");
            }
            let m = message_text("Failed to delete file: ", e.as_str(), "");
            assert(m@ =~= "Failed to delete file: "@ + e@);
            Err(m)
        },
    }
}

/// The text of an entry of the list, before its size: the source, the
/// name, and whether it is installed.
pub fn item_label(r: &RemoteRuntime) -> (s: String)
    ensures
        s@ == (match r.source {
            RuntimeSource::Official => "[Official]"@,
            RuntimeSource::Outcaster => "[Kazeta+]"@,
            RuntimeSource::ThirdParty => "[Third-Party]"@,
        }) + " "@ + r.name@ + (if r.is_installed { " [INSTALLED]"@ } else { ""@ }),
{
    let prefix = match r.source {
        RuntimeSource::Official => "[Official]",
        RuntimeSource::Outcaster => "[Kazeta+]",
        RuntimeSource::ThirdParty => "[Third-Party]",
    };
    let head = message_text(prefix, " ", r.name.as_str());
    let mut s = String::from_str(head.as_str());
    s.append(if r.is_installed { " [INSTALLED]" } else { "" });
    s
}


/// The runtime list is never refused: the official runtimes are always on
/// it, so it holds at least six entries.
pub proof fn law_runtime_list_never_empty(
    official_sizes: Seq<Option<u64>>,
    assets: Seq<RuntimeAsset>,
    installed: Seq<Seq<char>>,
    r: Result<Vec<RemoteRuntime>, String>,
)
    requires
        runtime_list(official_sizes, assets, installed, r),
    ensures
        r matches Ok(v) && v@.len() >= 6,
{
    let (u, p) = choose|u: Seq<RemoteRuntime>, p: Seq<int>| {
        &&& #[trigger] unsorted_list(official_sizes, assets, u)
        &&& #[trigger] is_stable_order(runtime_keys(u), p)
        &&& if u.len() == 0 {
            r matches Err(e) && e@ == "Failed to fetch any runtimes. Check internet connection."@
        } else {
            r matches Ok(v) && v@.len() == u.len() && forall|k: int| 0 <= k < v@.len() ==> {
                let a = #[trigger] v@[k];
                let b = u[p[k]];
                &&& a.name == b.name && a.file_name == b.file_name && a.description == b.description
                &&& a.download_url == b.download_url && a.source == b.source && a.is_zip == b.is_zip
                &&& a.size_bytes == b.size_bytes
                &&& a.is_installed == shown_installed(b, installed)
            }
        }
    };
    assert(str_views(OFFICIAL_FILES@).len() == 6);
}

/// The runtime list is sorted: by source (official, Kazeta+, third-party)
/// and, within a source, by name.
pub proof fn law_runtime_list_sorted(
    official_sizes: Seq<Option<u64>>,
    assets: Seq<RuntimeAsset>,
    installed: Seq<Seq<char>>,
    v: Vec<RemoteRuntime>,
    i: int,
    j: int,
)
    requires
        runtime_list(official_sizes, assets, installed, Ok(v)),
        0 <= i < j < v@.len(),
    ensures
        crate::text::lex_le(runtime_key(v@[i]), runtime_key(v@[j])),
{
    let r = Ok::<Vec<RemoteRuntime>, String>(v);
    let (u, p) = choose|u: Seq<RemoteRuntime>, p: Seq<int>| {
        &&& #[trigger] unsorted_list(official_sizes, assets, u)
        &&& #[trigger] is_stable_order(runtime_keys(u), p)
        &&& if u.len() == 0 {
            r matches Err(e) && e@ == "Failed to fetch any runtimes. Check internet connection."@
        } else {
            r matches Ok(v) && v@.len() == u.len() && forall|k: int| 0 <= k < v@.len() ==> {
                let a = #[trigger] v@[k];
                let b = u[p[k]];
                &&& a.name == b.name && a.file_name == b.file_name && a.description == b.description
                &&& a.download_url == b.download_url && a.source == b.source && a.is_zip == b.is_zip
                &&& a.size_bytes == b.size_bytes
                &&& a.is_installed == shown_installed(b, installed)
            }
        }
    };
    let ks = runtime_keys(u);
    assert(runtime_key(v@[i]) == ks[p[i]]);
    assert(runtime_key(v@[j]) == ks[p[j]]);
}

} // verus!

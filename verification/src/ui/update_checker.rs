//! The update checker: whether the newest release differs from the running
//! version, its notes with images and link targets removed, scrolling
//! them, and the steps and outcomes of installing it. Network, archive and
//! process work is left to the caller.
use vstd::prelude::*;
use crate::ui::{Effect, Sound, InputState, Screen, only_if};
use crate::ui::theme_downloader::{ReleaseAsset, asset_names, first_zip, message_text};

verus! {

/// The version of this BIOS, as the releases are tagged.
pub const VERSION_NUMBER: &'static str = "V2025.KAZETA+";

/// A release of the BIOS.
pub struct UpdateRelease {
    pub tag_name: String,
    pub body: String,
    pub assets: Vec<ReleaseAsset>,
}

/// Where the checker stands.
pub enum UpdateCheckerScreenState {
    Idle,
    Checking,
    UpToDate,
    UpdateAvailable(UpdateRelease),
    InProgress(String),
    UpdateComplete,
    Error(String),
}

/// The checker's state.
pub struct UpdateCheckerState {
    pub screen_state: UpdateCheckerScreenState,
    pub description_scroll_offset: usize,
    pub max_description_scroll: usize,
}

impl UpdateCheckerState {
    /// The checker before it checks.
    pub fn new() -> (r: UpdateCheckerState)
        ensures
            r.screen_state is Idle,
            r.description_scroll_offset == 0,
            r.max_description_scroll == 0,
    {
        UpdateCheckerState { screen_state: UpdateCheckerScreenState::Idle, description_scroll_offset: 0, max_description_scroll: 0 }
    }
}

/// What a check found.
pub enum UpdateCheckResult {
    UpToDate,
    UpdateAvailable(UpdateRelease),
}

/// What the request for the releases gave.
pub enum ReleasesFetch {
    /// No client could be made; the error's text.
    NoClient(String),
    /// The request failed; the error's text.
    Failed(String),
    /// The server answered with this status, which is not a success.
    Status(String),
    /// The body could not be read; the error's text.
    BadBody(String),
    /// The releases, newest first.
    Releases(Vec<UpdateRelease>),
}

/// The outcome of a check: an update is available when the newest
/// release's tag differs from `VERSION_NUMBER`.
pub fn check_result(fetched: ReleasesFetch) -> (r: Result<UpdateCheckResult, String>)
    ensures
        match fetched {
            ReleasesFetch::NoClient(e) => r == Err::<UpdateCheckResult, String>(e),
            ReleasesFetch::Failed(e) => (r matches Err(m) && m@ == "Failed to fetch from GitHub: "@ + e@),
            ReleasesFetch::Status(s) => (r matches Err(m) && m@ == "GitHub API Error: "@ + s@),
            ReleasesFetch::BadBody(e) => (r matches Err(m) && m@ == "Failed to parse response: "@ + e@),
            ReleasesFetch::Releases(rs) => if rs@.len() > 0 && rs@[0].tag_name@ != VERSION_NUMBER@ {
                r matches Ok(UpdateCheckResult::UpdateAvailable(rel)) && rel.tag_name == rs@[0].tag_name
                    && rel.body == rs@[0].body && asset_views(rel.assets@) == asset_views(rs@[0].assets@)
            } else {
                r matches Ok(UpdateCheckResult::UpToDate)
            },
        },
{
    proof {
        reveal_strlit("");
    }
    match fetched {
        ReleasesFetch::NoClient(e) => Err(e),
        ReleasesFetch::Failed(e) => {
            let m = message_text("Failed to fetch from GitHub: ", e.as_str(), "");
            assert(m@ =~= "Failed to fetch from GitHub: "@ + e@);
            Err(m)
        },
        ReleasesFetch::Status(s) => {
            let m = message_text("GitHub API Error: ", s.as_str(), "");
            assert(m@ =~= "GitHub API Error: "@ + s@);
            Err(m)
        },
        ReleasesFetch::BadBody(e) => {
            let m = message_text("Failed to parse response: ", e.as_str(), "");
            assert(m@ =~= "Failed to parse response: "@ + e@);
            Err(m)
        },
        ReleasesFetch::Releases(rs) => {
            if rs.len() > 0 && !crate::text::str_eq(rs[0].tag_name.as_str(), VERSION_NUMBER) {
                Ok(UpdateCheckResult::UpdateAvailable(clone_release(&rs[0])))
            } else {
                Ok(UpdateCheckResult::UpToDate)
            }
        },
    }
}

/// The names and addresses of a release's assets.
pub open spec fn asset_views(a: Seq<ReleaseAsset>) -> Seq<(Seq<char>, Seq<char>)> {
    a.map_values(|x: ReleaseAsset| (x.name@, x.browser_download_url@))
}

/// Copies a release.
pub fn clone_release(r: &UpdateRelease) -> (c: UpdateRelease)
    ensures
        c.tag_name == r.tag_name,
        c.body == r.body,
        asset_views(c.assets@) == asset_views(r.assets@),
{
    let mut assets: Vec<ReleaseAsset> = Vec::new();
    let mut i: usize = 0;
    while i < r.assets.len()
        invariant
            0 <= i <= r.assets@.len(),
            assets@.len() == i,
            asset_views(assets@) == asset_views(r.assets@.take(i as int)),
        decreases r.assets.len() - i,
    {
        let ghost before = assets@;
        let a = ReleaseAsset {
            name: r.assets[i].name.clone(),
            browser_download_url: r.assets[i].browser_download_url.clone(),
        };
        assets.push(a);
        proof {
            assert(assets@ == before.push(a));
            assert(r.assets@.take(i + 1) == r.assets@.take(i as int).push(r.assets@[i as int]));
            assert forall|k: int| 0 <= k < i + 1 implies asset_views(assets@)[k] == asset_views(r.assets@.take(i + 1))[k] by {
                if k < i {
                    assert(asset_views(before)[k] == asset_views(r.assets@.take(i as int))[k]);
                    assert(assets@[k] == before[k]);
                } else {
                    assert(assets@[k] == a);
                    assert(r.assets@.take(i + 1)[k] == r.assets@[i as int]);
                }
            }
        }
        assert(asset_views(assets@) =~= asset_views(r.assets@.take(i + 1)));
        i = i + 1;
    }
    assert(r.assets@.take(r.assets@.len() as int) =~= r.assets@);
    UpdateRelease { tag_name: r.tag_name.clone(), body: r.body.clone(), assets }
}

/// What the installation reports.
pub enum UpdateProgressMessage {
    Status(String),
    Complete,
    Error(String),
}

/// What the check reports.
pub enum CheckerMessage {
    CheckComplete(Result<UpdateCheckResult, String>),
}

/// Work the checker asks for.
pub enum UpdateCommand {
    /// Check for a newer release (see `check_result`); report with a
    /// `CheckerMessage`.
    StartCheck,
    /// Install this release; report with `UpdateProgressMessage`s.
    Install(UpdateRelease),
    /// Shut the machine down, then quit.
    Shutdown,
    /// Restart the machine, then quit.
    Reboot,
}

/// What a frame on the checker decides.
pub struct UpdateStep {
    pub effects: Vec<Effect>,
    pub command: Option<UpdateCommand>,
}


/// A frame on the checker after its reports: an idle checker starts a
/// check with the notes scrolled to the top; with an update available,
/// select installs it and up/down scroll the notes within what the last
/// drawing allowed; when complete, select shuts down and the secondary
/// button restarts; after the outcome of a check, select returns to the
/// main menu.
pub open spec fn frame(st0: UpdateCheckerState, st1: UpdateCheckerState, scr0: Screen, scr1: Screen, i: InputState, effects: Seq<Effect>, cmd: Option<UpdateCommand>) -> bool {
    let cm = seq![Effect::Play(Sound::CursorMove)];
    let sel = seq![Effect::Play(Sound::Select)];
    match st0.screen_state {
        UpdateCheckerScreenState::Idle => {
            &&& st1 == (UpdateCheckerState {
                screen_state: UpdateCheckerScreenState::Checking,
                description_scroll_offset: 0,
                max_description_scroll: 0,
            })
            &&& scr1 == scr0 && effects.len() == 0 && cmd == Some(UpdateCommand::StartCheck)
        },
        UpdateCheckerScreenState::UpdateAvailable(rel) => {
            let o = st0.description_scroll_offset as int;
            let m = st0.max_description_scroll as int;
            let dn = i.down && o < m;
            let o1 = if dn { o + 1 } else { o };
            let up = i.up && o1 > 0;
            let o2 = if up { o1 - 1 } else { o1 };
            &&& st1.description_scroll_offset == o2
            &&& st1.max_description_scroll == st0.max_description_scroll
            &&& scr1 == scr0
            &&& effects == only_if(i.select, sel) + only_if(dn, cm) + only_if(up, cm)
            &&& if i.select {
                &&& st1.screen_state matches UpdateCheckerScreenState::InProgress(t) && t@ == "Starting update..."@
                &&& cmd matches Some(UpdateCommand::Install(r)) && r.tag_name == rel.tag_name && r.body == rel.body
                    && asset_views(r.assets@) == asset_views(rel.assets@)
            } else {
                st1.screen_state == st0.screen_state && cmd is None
            }
        },
        UpdateCheckerScreenState::UpdateComplete => {
            &&& st1 == st0 && scr1 == scr0
            &&& effects == only_if(i.select || i.secondary, sel)
            &&& cmd == (if i.select { Some(UpdateCommand::Shutdown) } else if i.secondary { Some(UpdateCommand::Reboot) } else { None })
        },
        UpdateCheckerScreenState::UpToDate | UpdateCheckerScreenState::Error(_) => {
            &&& cmd is None
            &&& effects == only_if(i.select, sel)
            &&& if i.select {
                st1 == (UpdateCheckerState { screen_state: UpdateCheckerScreenState::Idle, ..st0 }) && scr1 == Screen::MainMenu
            } else {
                st1 == st0 && scr1 == scr0
            }
        },
        _ => st1 == st0 && scr1 == scr0 && effects.len() == 0 && cmd is None,
    }
}

fn push_if(effects: &mut Vec<Effect>, b: bool, e: Effect)
    ensures
        final(effects)@ == old(effects)@ + only_if(b, seq![e]),
{
    if b {
        effects.push(e);
    }
    assert(final(effects)@ =~= old(effects)@ + only_if(b, seq![e]));
}

fn frame_exec(st: &mut UpdateCheckerState, screen: &mut Screen, input: &InputState) -> (r: UpdateStep)
    ensures
        frame(*old(st), *final(st), *old(screen), *final(screen), *input, r.effects@, r.command),
{
    let mut effects: Vec<Effect> = Vec::new();
    let mut install: Option<UpdateRelease> = None;
    match &st.screen_state {
        UpdateCheckerScreenState::Idle => {
            st.screen_state = UpdateCheckerScreenState::Checking;
            st.description_scroll_offset = 0;
            st.max_description_scroll = 0;
            return UpdateStep { effects, command: Some(UpdateCommand::StartCheck) };
        },
        UpdateCheckerScreenState::UpdateAvailable(rel) => {
            if input.select {
                install = Some(clone_release(rel));
            }
            push_if(&mut effects, input.select, Effect::Play(Sound::Select));
            let dn = input.down && st.description_scroll_offset < st.max_description_scroll;
            if dn {
                st.description_scroll_offset = st.description_scroll_offset + 1;
            }
            push_if(&mut effects, dn, Effect::Play(Sound::CursorMove));
            let up = input.up && st.description_scroll_offset > 0;
            if up {
                st.description_scroll_offset = st.description_scroll_offset - 1;
            }
            push_if(&mut effects, up, Effect::Play(Sound::CursorMove));
        },
        UpdateCheckerScreenState::UpdateComplete => {
            push_if(&mut effects, input.select || input.secondary, Effect::Play(Sound::Select));
            if input.select {
                return UpdateStep { effects, command: Some(UpdateCommand::Shutdown) };
            } else if input.secondary {
                return UpdateStep { effects, command: Some(UpdateCommand::Reboot) };
            } else {
                return UpdateStep { effects, command: None };
            }
        },
        UpdateCheckerScreenState::UpToDate | UpdateCheckerScreenState::Error(_) => {
            push_if(&mut effects, input.select, Effect::Play(Sound::Select));
            if input.select {
                *screen = Screen::MainMenu;
                st.screen_state = UpdateCheckerScreenState::Idle;
            }
            return UpdateStep { effects, command: None };
        },
        _ => {
            return UpdateStep { effects, command: None };
        },
    }
    match install {
        Some(rel) => {
            st.screen_state = UpdateCheckerScreenState::InProgress(String::from_str("Starting update..."));
            proof {
                reveal_strlit("Starting update...");
            }
            UpdateStep { effects, command: Some(UpdateCommand::Install(rel)) }
        },
        None => UpdateStep { effects, command: None },
    }
}

/// What the reports do to the checker: the check's outcome first, then the
/// installation's.
pub open spec fn received(st0: UpdateCheckerState, check: Option<CheckerMessage>, progress: Option<UpdateProgressMessage>, st1: UpdateCheckerState) -> bool {
    let s1 = match check {
        None => st0.screen_state,
        Some(CheckerMessage::CheckComplete(Ok(UpdateCheckResult::UpToDate))) => UpdateCheckerScreenState::UpToDate,
        Some(CheckerMessage::CheckComplete(Ok(UpdateCheckResult::UpdateAvailable(r)))) => UpdateCheckerScreenState::UpdateAvailable(r),
        Some(CheckerMessage::CheckComplete(Err(e))) => UpdateCheckerScreenState::Error(e),
    };
    let s2 = match progress {
        None => s1,
        Some(UpdateProgressMessage::Status(t)) => UpdateCheckerScreenState::InProgress(t),
        Some(UpdateProgressMessage::Complete) => UpdateCheckerScreenState::UpdateComplete,
        Some(UpdateProgressMessage::Error(e)) => UpdateCheckerScreenState::Error(e),
    };
    st1 == (UpdateCheckerState { screen_state: s2, ..st0 })
}

fn receive(st: &mut UpdateCheckerState, check: Option<CheckerMessage>, progress: Option<UpdateProgressMessage>)
    ensures
        received(*old(st), check, progress, *final(st)),
{
    match check {
        None => {},
        Some(CheckerMessage::CheckComplete(Ok(UpdateCheckResult::UpToDate))) => {
            st.screen_state = UpdateCheckerScreenState::UpToDate;
        },
        Some(CheckerMessage::CheckComplete(Ok(UpdateCheckResult::UpdateAvailable(r)))) => {
            st.screen_state = UpdateCheckerScreenState::UpdateAvailable(r);
        },
        Some(CheckerMessage::CheckComplete(Err(e))) => {
            st.screen_state = UpdateCheckerScreenState::Error(e);
        },
    }
    match progress {
        None => {},
        Some(UpdateProgressMessage::Status(t)) => {
            st.screen_state = UpdateCheckerScreenState::InProgress(t);
        },
        Some(UpdateProgressMessage::Complete) => {
            st.screen_state = UpdateCheckerScreenState::UpdateComplete;
        },
        Some(UpdateProgressMessage::Error(e)) => {
            st.screen_state = UpdateCheckerScreenState::Error(e);
        },
    }
}

/// What a frame on the checker decides, and the reports it left unread.
pub struct UpdateFrame {
    pub step: UpdateStep,
    pub unread_check: Option<CheckerMessage>,
    pub unread_progress: Option<UpdateProgressMessage>,
}

/// One frame of the checker. Back returns to the extras and resets the
/// checker, leaving the reports unread; otherwise the reports are taken in
/// (see `received`) and the state's frame runs (see `frame`).
pub fn update(
    st: &mut UpdateCheckerState,
    input: &InputState,
    screen: &mut Screen,
    check: Option<CheckerMessage>,
    progress: Option<UpdateProgressMessage>,
) -> (r: UpdateFrame)
    ensures
        input.back ==> {
            &&& *final(screen) == Screen::Extras
            &&& *final(st) == (UpdateCheckerState { screen_state: UpdateCheckerScreenState::Idle, ..*old(st) })
            &&& r.step.effects@ == seq![Effect::Play(Sound::Back)]
            &&& r.step.command is None
            &&& r.unread_check == check && r.unread_progress == progress
        },
        !input.back ==> r.unread_check is None && r.unread_progress is None && exists|mid: UpdateCheckerState|
            received(*old(st), check, progress, mid)
                && #[trigger] frame(mid, *final(st), *old(screen), *final(screen), *input, r.step.effects@, r.step.command),
{
    if input.back {
        *screen = Screen::Extras;
        st.screen_state = UpdateCheckerScreenState::Idle;
        let mut effects: Vec<Effect> = Vec::new();
        effects.push(Effect::Play(Sound::Back));
        assert(effects@ =~= seq![Effect::Play(Sound::Back)]);
        return UpdateFrame { step: UpdateStep { effects, command: None }, unread_check: check, unread_progress: progress };
    }
    receive(st, check, progress);
    let ghost mid = *st;
    let step = frame_exec(st, screen, input);
    assert(frame(mid, *st, *old(screen), *screen, *input, step.effects@, step.command));
    UpdateFrame { step, unread_check: None, unread_progress: None }
}

// ---------------------------------------------------------------------
// The notes
// ---------------------------------------------------------------------

/// The pattern of a Markdown link, whose text is kept.
pub open spec fn md_link() -> Seq<char> {
    "\\[([^\\]]+)\\]\\([^)]+\\)"@
}

/// The notes shown for a release: image tags removed, then Markdown links
/// replaced by their text, then trimmed (`None` if a pattern did not
/// compile).
pub fn release_notes(body: &str) -> (r: Option<String>)
    ensures
        match crate::patterns::regex_replaced(crate::ui::theme_downloader::img_tag(), body@, ""@) {
            None => r is None,
            Some(a) => match crate::patterns::regex_replaced(md_link(), a, "$1"@) {
                None => r is None,
                Some(b) => (r matches Some(t) && t@ == crate::text::trim(b)),
            },
        },
{
    let a = match crate::patterns::regex_replace_all("<img[^>]*>", body, "") {
        Some(a) => a,
        None => return None,
    };
    let b = match crate::patterns::regex_replace_all("\\[([^\\]]+)\\]\\([^)]+\\)", a.as_str(), "$1") {
        Some(b) => b,
        None => return None,
    };
    Some(crate::text::trim_str(b.as_str()))
}

/// After the notes were laid out in `lines` lines of which `visible` fit:
/// the furthest they can scroll, and the offset kept within it.
pub fn clamp_scroll(st: &mut UpdateCheckerState, lines: usize, visible: usize)
    ensures
        final(st).max_description_scroll == (if lines > visible { lines - visible } else { 0 }),
        final(st).description_scroll_offset == (if old(st).description_scroll_offset < final(st).max_description_scroll {
            old(st).description_scroll_offset
        } else {
            final(st).max_description_scroll
        }),
        final(st).screen_state == old(st).screen_state,
{
    let m = if lines > visible { lines - visible } else { 0 };
    if st.description_scroll_offset > m {
        st.description_scroll_offset = m;
    }
    st.max_description_scroll = m;
}

// ---------------------------------------------------------------------
// Installing
// ---------------------------------------------------------------------

/// The asset that holds the update: the release's first `.zip`.
pub fn update_asset(release: &UpdateRelease) -> (r: Result<usize, String>)
    ensures
        match first_zip(asset_names(release.assets@)) {
            Some(i) => r == Ok::<usize, String>(i as usize),
            None => (r matches Err(m) && m@ == "No .zip asset found in the release."@),
        },
{
    let mut i: usize = 0;
    let ghost names = asset_names(release.assets@);
    while i < release.assets.len()
        invariant
            0 <= i <= release.assets@.len(),
            names == asset_names(release.assets@),
            first_zip(names.take(i as int)) is None,
        decreases release.assets.len() - i,
    {
        proof {
            assert(names.take(i + 1).drop_last() =~= names.take(i as int));
        }
        if crate::text::str_ends_with(release.assets[i].name.as_str(), ".zip") {
            proof {
                lemma_first_zip_at(names, i as int);
            }
            return Ok(i);
        }
        i = i + 1;
    }
    assert(names.take(release.assets.len() as int) =~= names);
    Err(String::from_str("No .zip asset found in the release."))
}

proof fn lemma_first_zip_at(names: Seq<Seq<char>>, i: int)
    requires
        0 <= i < names.len(),
        first_zip(names.take(i)) is None,
        crate::text::ends_with(names[i], ".zip"@),
    ensures
        first_zip(names) == Some(i),
    decreases names.len(),
{
    if names.len() - 1 > i {
        assert(names.drop_last().take(i) =~= names.take(i));
        assert(names.drop_last()[i] == names[i]);
        lemma_first_zip_at(names.drop_last(), i);
    } else {
        assert(names.drop_last() =~= names.take(i));
    }
}

/// The stages an installation reports.
pub enum UpdateStage {
    Downloading,
    Extracting,
    Applying,
}

/// The report of a stage.
pub fn stage_report(stage: UpdateStage) -> (r: UpdateProgressMessage)
    ensures
        r matches UpdateProgressMessage::Status(t) && t@ == (match stage {
            UpdateStage::Downloading => "Downloading update..."@,
            UpdateStage::Extracting => "Extracting archive..."@,
            UpdateStage::Applying => "Applying update... Do not turn off."@,
        }),
{
    UpdateProgressMessage::Status(String::from_str(match stage {
        UpdateStage::Downloading => "Downloading update...",
        UpdateStage::Extracting => "Extracting archive...",
        UpdateStage::Applying => "Applying update... Do not turn off.",
    }))
}

/// Why an installation stopped; each carries the error's text (or, for a
/// missing script, its path; for a failing script, its status).
pub enum UpdateFailure {
    Download(String),
    ReadBytes(String),
    CreateTemp(String),
    SaveTemp(String),
    ScriptMissing(String),
    Metadata(String),
    Permissions(String),
    RunScript(String),
    ScriptStatus(String),
    Report(String),
}

/// The message an installation failure shows.
pub fn failure_message(f: UpdateFailure) -> (m: String)
    ensures
        m@ == (match f {
            UpdateFailure::Download(e) => "Download failed: "@ + e@,
            UpdateFailure::ReadBytes(e) => "Failed to read bytes: "@ + e@,
            UpdateFailure::CreateTemp(e) => "Failed to create temp file: "@ + e@,
            UpdateFailure::SaveTemp(e) => "Failed to save update file: "@ + e@,
            UpdateFailure::ScriptMissing(p) => "Script not found at: "@ + p@,
            UpdateFailure::Metadata(e) => "Failed to read script metadata: "@ + e@,
            UpdateFailure::Permissions(e) => "Failed to set permissions: "@ + e@,
            UpdateFailure::RunScript(e) => "Failed to run upgrade script: "@ + e@,
            UpdateFailure::ScriptStatus(s) => "Upgrade script failed with status: "@ + s@,
            UpdateFailure::Report(e) => e@,
        }),
{
    proof {
        reveal_strlit("");
    }
    let (head, e) = match f {
        UpdateFailure::Download(e) => ("Download failed: ", e),
        UpdateFailure::ReadBytes(e) => ("Failed to read bytes: ", e),
        UpdateFailure::CreateTemp(e) => ("Failed to create temp file: ", e),
        UpdateFailure::SaveTemp(e) => ("Failed to save update file: ", e),
        UpdateFailure::ScriptMissing(p) => ("Script not found at: ", p),
        UpdateFailure::Metadata(e) => ("Failed to read script metadata: ", e),
        UpdateFailure::Permissions(e) => ("Failed to set permissions: ", e),
        UpdateFailure::RunScript(e) => ("Failed to run upgrade script: ", e),
        UpdateFailure::ScriptStatus(s) => ("Upgrade script failed with status: ", s),
        UpdateFailure::Report(e) => ("", e),
    };
    let m = message_text(head, e.as_str(), "");
    assert(m@ =~= head@ + e@);
    m
}

/// What to do with an entry of the update archive.
pub enum EntryAction {
    /// Make this folder.
    CreateDir(String),
    /// Write the entry's contents to this file, making its folder first.
    WriteFile(String),
}

/// The action for entry `index` of the archive, named `name` in it, whose
/// name once made safe is `enclosed` (none when it leaves the folder): a
/// name ending in `/` is a folder; an unsafe name stops the extraction.
pub fn entry_action(index: u64, name: &str, enclosed: Option<&str>, destination: &str) -> (r: Result<EntryAction, String>)
    ensures
        match enclosed {
            None => (r matches Err(m) && m@ == "Invalid file path in zip entry "@ + crate::numparse::dec_digits(index as nat)),
            Some(p) => if crate::text::ends_with(name@, "/"@) {
                r matches Ok(EntryAction::CreateDir(d)) && d@ == crate::paths::join(destination@, p@)
            } else {
                r matches Ok(EntryAction::WriteFile(d)) && d@ == crate::paths::join(destination@, p@)
            },
        },
{
    match enclosed {
        None => {
            proof {
                reveal_strlit("");
            }
            let n = crate::numparse::u64_to_string(index);
            let m = message_text("Invalid file path in zip entry ", n.as_str(), "");
            assert(m@ =~= "Invalid file path in zip entry "@ + n@);
            Err(m)
        },
        Some(p) => {
            let out = crate::paths::path_join(destination, p);
            if crate::text::str_ends_with(name, "/") {
                Ok(EntryAction::CreateDir(out))
            } else {
                Ok(EntryAction::WriteFile(out))
            }
        },
    }
}

/// Why reading the archive or one of its entries failed; each carries the
/// error's text.
pub enum ArchiveFailure {
    Open(String),
    Read(String),
    Entry(u64, String),
    CreateDir(String),
    CreateParent(String),
    CreateFile(String),
    WriteFile(String),
}

/// The message an extraction failure shows.
pub fn archive_failure_message(f: ArchiveFailure) -> (m: String)
    ensures
        m@ == (match f {
            ArchiveFailure::Open(e) => "Failed to open zip: "@ + e@,
            ArchiveFailure::Read(e) => "Failed to read zip: "@ + e@,
            ArchiveFailure::Entry(i, e) => "Failed to read zip entry "@ + crate::numparse::dec_digits(i as nat) + ": "@ + e@,
            ArchiveFailure::CreateDir(e) => "Failed to create dir: "@ + e@,
            ArchiveFailure::CreateParent(e) => "Failed to create parent dir: "@ + e@,
            ArchiveFailure::CreateFile(e) => "Failed to create file: "@ + e@,
            ArchiveFailure::WriteFile(e) => "Failed to write file: "@ + e@,
        }),
{
    proof {
        reveal_strlit("");
    }
    match f {
        ArchiveFailure::Entry(i, e) => {
            let n = crate::numparse::u64_to_string(i);
            let head = message_text("Failed to read zip entry ", n.as_str(), ": ");
            let m = message_text(head.as_str(), e.as_str(), "");
            assert(m@ =~= head@ + e@);
            m
        },
        ArchiveFailure::Open(e) => {
            let m = message_text("Failed to open zip: ", e.as_str(), "");
            assert(m@ =~= "Failed to open zip: "@ + e@);
            m
        },
        ArchiveFailure::Read(e) => {
            let m = message_text("Failed to read zip: ", e.as_str(), "");
            assert(m@ =~= "Failed to read zip: "@ + e@);
            m
        },
        ArchiveFailure::CreateDir(e) => {
            let m = message_text("Failed to create dir: ", e.as_str(), "");
            assert(m@ =~= "Failed to create dir: "@ + e@);
            m
        },
        ArchiveFailure::CreateParent(e) => {
            let m = message_text("Failed to create parent dir: ", e.as_str(), "");
            assert(m@ =~= "Failed to create parent dir: "@ + e@);
            m
        },
        ArchiveFailure::CreateFile(e) => {
            let m = message_text("Failed to create file: ", e.as_str(), "");
            assert(m@ =~= "Failed to create file: "@ + e@);
            m
        },
        ArchiveFailure::WriteFile(e) => {
            let m = message_text("Failed to write file: ", e.as_str(), "");
            assert(m@ =~= "Failed to write file: "@ + e@);
            m
        },
    }
}


/// Clamping the notes' scroll twice for the same layout changes nothing
/// more.
pub proof fn law_clamp_idempotent(offset: int, lines: int, visible: int)
    requires
        offset >= 0,
        lines >= 0,
        visible >= 0,
    ensures
        ({
            let m = if lines > visible { lines - visible } else { 0 };
            let o1 = if offset < m { offset } else { m };
            let o2 = if o1 < m { o1 } else { m };
            o2 == o1 && o1 <= m
        }),
{
}

} // verus!

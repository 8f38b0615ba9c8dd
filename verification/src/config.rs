//! The BIOS settings that are not numbers (volumes are kept by the
//! program), the main menu position, and how a theme changes them.
use vstd::prelude::*;
use crate::paths::join;

verus! {

/// Where the main menu stands on screen.
#[derive(PartialEq, Eq, Structural, Clone, Copy, Debug)]
pub enum MenuPosition {
    TopLeft,
    TopRight,
    BottomLeft,
    BottomRight,
    Center,
}

impl MenuPosition {
    /// The position after this one in the settings cycle
    /// (top left, top right, bottom left, bottom right, center).
    pub open spec fn spec_next(self) -> MenuPosition {
        match self {
            MenuPosition::TopLeft => MenuPosition::TopRight,
            MenuPosition::TopRight => MenuPosition::BottomLeft,
            MenuPosition::BottomLeft => MenuPosition::BottomRight,
            MenuPosition::BottomRight => MenuPosition::Center,
            MenuPosition::Center => MenuPosition::TopLeft,
        }
    }

    /// The position before this one in the settings cycle.
    pub open spec fn spec_prev(self) -> MenuPosition {
        match self {
            MenuPosition::TopLeft => MenuPosition::Center,
            MenuPosition::TopRight => MenuPosition::TopLeft,
            MenuPosition::BottomLeft => MenuPosition::TopRight,
            MenuPosition::BottomRight => MenuPosition::BottomLeft,
            MenuPosition::Center => MenuPosition::BottomRight,
        }
    }

    /// The name of the variant, as `{:?}` writes it.
    pub open spec fn spec_name(self) -> Seq<char> {
        match self {
            MenuPosition::TopLeft => "TopLeft"@,
            MenuPosition::TopRight => "TopRight"@,
            MenuPosition::BottomLeft => "BottomLeft"@,
            MenuPosition::BottomRight => "BottomRight"@,
            MenuPosition::Center => "Center"@,
        }
    }

    /// The next position, wrapping.
    pub fn next(self) -> (r: MenuPosition)
        ensures
            r == self.spec_next(),
    {
        match self {
            MenuPosition::TopLeft => MenuPosition::TopRight,
            MenuPosition::TopRight => MenuPosition::BottomLeft,
            MenuPosition::BottomLeft => MenuPosition::BottomRight,
            MenuPosition::BottomRight => MenuPosition::Center,
            MenuPosition::Center => MenuPosition::TopLeft,
        }
    }

    /// The previous position, wrapping.
    pub fn prev(self) -> (r: MenuPosition)
        ensures
            r == self.spec_prev(),
    {
        match self {
            MenuPosition::TopLeft => MenuPosition::Center,
            MenuPosition::TopRight => MenuPosition::TopLeft,
            MenuPosition::BottomLeft => MenuPosition::TopRight,
            MenuPosition::BottomRight => MenuPosition::BottomLeft,
            MenuPosition::Center => MenuPosition::BottomRight,
        }
    }

    /// The variant's name (`{:?}`).
    pub fn name(self) -> (r: String)
        ensures
            r@ == self.spec_name(),
    {
        match self {
            MenuPosition::TopLeft => String::from_str("TopLeft"),
            MenuPosition::TopRight => String::from_str("TopRight"),
            MenuPosition::BottomLeft => String::from_str("BottomLeft"),
            MenuPosition::BottomRight => String::from_str("BottomRight"),
            MenuPosition::Center => String::from_str("Center"),
        }
    }

    /// Parses a variant name; `None` for any other text.
    pub fn from_name(s: &str) -> (r: Option<MenuPosition>)
        ensures
            r matches Some(p) ==> p.spec_name() == s@,
            r is None ==> forall|p: MenuPosition| p.spec_name() != s@,
    {
        if crate::text::str_eq(s, "TopLeft") {
            Some(MenuPosition::TopLeft)
        } else if crate::text::str_eq(s, "TopRight") {
            Some(MenuPosition::TopRight)
        } else if crate::text::str_eq(s, "BottomLeft") {
            Some(MenuPosition::BottomLeft)
        } else if crate::text::str_eq(s, "BottomRight") {
            Some(MenuPosition::BottomRight)
        } else if crate::text::str_eq(s, "Center") {
            Some(MenuPosition::Center)
        } else {
            proof {
                assert forall|p: MenuPosition| p.spec_name() != s@ by {
                    match p {
                        MenuPosition::TopLeft => {},
                        MenuPosition::TopRight => {},
                        MenuPosition::BottomLeft => {},
                        MenuPosition::BottomRight => {},
                        MenuPosition::Center => {},
                    }
                }
            }
            None
        }
    }
}

/// Different positions have different names.
pub proof fn lemma_name_injective(p: MenuPosition, q: MenuPosition)
    requires
        p.spec_name() == q.spec_name(),
    ensures
        p == q,
{
    reveal_strlit("TopLeft");
    reveal_strlit("TopRight");
    reveal_strlit("BottomLeft");
    reveal_strlit("BottomRight");
    reveal_strlit("Center");
    assert("TopLeft"@.len() == 7);
    assert("TopRight"@.len() == 8);
    assert("BottomLeft"@.len() == 10);
    assert("BottomRight"@.len() == 11);
    assert("Center"@.len() == 6);
    assert(p.spec_name().len() == q.spec_name().len());
}

/// Stepping the menu position forward and back leaves it where it was.
pub proof fn law_menu_position_next_prev(p: MenuPosition)
    ensures
        p.spec_next().spec_prev() == p,
        p.spec_prev().spec_next() == p,
{
}

/// The settings kept in `kazeta.toml`, other than the two volumes.
pub struct Config {
    pub resolution: String,
    pub fullscreen: bool,
    pub show_splash_screen: bool,
    pub timezone: String,
    pub wifi: bool,
    pub audio_output: String,
    pub theme: String,
    pub menu_position: MenuPosition,
    pub font_color: String,
    pub cursor_color: String,
    pub background_scroll_speed: String,
    pub color_shift_speed: String,
    pub bgm_track: Option<String>,
    pub sfx_pack: String,
    pub logo_selection: String,
    pub background_selection: String,
    pub font_selection: String,
}

/// The look of the default theme.
pub open spec fn has_default_look(c: Config) -> bool {
    &&& c.menu_position == MenuPosition::Center
    &&& c.font_color@ == "WHITE"@
    &&& c.cursor_color@ == "WHITE"@
    &&& c.background_scroll_speed@ == "NORMAL"@
    &&& c.color_shift_speed@ == "NORMAL"@
    &&& c.bgm_track is None
    &&& c.sfx_pack@ == "Default"@
    &&& c.logo_selection@ == "Kazeta+ (Default)"@
    &&& c.background_selection@ == "Default"@
    &&& c.font_selection@ == "Default"@
}

/// The settings of a fresh install.
pub open spec fn is_default_config(c: Config) -> bool {
    &&& c.resolution@ == "640x360"@
    &&& !c.fullscreen
    &&& c.show_splash_screen
    &&& c.timezone@ == "UTC"@
    &&& c.wifi
    &&& c.audio_output@ == "Auto"@
    &&& c.theme@ == "Default"@
    &&& has_default_look(c)
}

impl Default for Config {
    fn default() -> (r: Config)
        ensures
            is_default_config(r),
    {
        Config {
            resolution: String::from_str("640x360"),
            fullscreen: false,
            show_splash_screen: true,
            timezone: String::from_str("UTC"),
            wifi: true,
            audio_output: String::from_str("Auto"),
            theme: String::from_str("Default"),
            menu_position: MenuPosition::Center,
            font_color: String::from_str("WHITE"),
            cursor_color: String::from_str("WHITE"),
            background_scroll_speed: String::from_str("NORMAL"),
            color_shift_speed: String::from_str("NORMAL"),
            bgm_track: None,
            sfx_pack: String::from_str("Default"),
            logo_selection: String::from_str("Kazeta+ (Default)"),
            background_selection: String::from_str("Default"),
            font_selection: String::from_str("Default"),
        }
    }
}

/// The settings a theme folder's `theme.toml` carries; asset names are
/// relative to the theme folder.
pub struct ThemeFile {
    pub menu_position: MenuPosition,
    pub font_color: String,
    pub cursor_color: String,
    pub background_scroll_speed: String,
    pub color_shift_speed: String,
    pub bgm_track: String,
    pub logo_selection: String,
    pub background_selection: String,
    pub font_selection: String,
}

/// The settings unchanged by applying a theme.
pub open spec fn same_non_theme_settings(a: Config, b: Config) -> bool {
    &&& a.resolution == b.resolution
    &&& a.fullscreen == b.fullscreen
    &&& a.show_splash_screen == b.show_splash_screen
    &&& a.timezone == b.timezone
    &&& a.wifi == b.wifi
    &&& a.audio_output == b.audio_output
    &&& a.theme == b.theme
}

/// Applies a theme read from `<theme_dir>/theme.toml`: its colours, speeds
/// and menu position, and its assets as paths inside the theme folder.
pub fn apply_theme_file(config: &mut Config, theme_dir: &str, theme: &ThemeFile)
    ensures
        same_non_theme_settings(*final(config), *old(config)),
        final(config).sfx_pack == old(config).sfx_pack,
        final(config).menu_position == theme.menu_position,
        final(config).font_color == theme.font_color,
        final(config).cursor_color == theme.cursor_color,
        final(config).background_scroll_speed == theme.background_scroll_speed,
        final(config).color_shift_speed == theme.color_shift_speed,
        final(config).bgm_track matches Some(t) && t@ == join(theme_dir@, theme.bgm_track@),
        final(config).logo_selection@ == join(theme_dir@, theme.logo_selection@),
        final(config).background_selection@ == join(theme_dir@, theme.background_selection@),
        final(config).font_selection@ == join(theme_dir@, theme.font_selection@),
{
    config.menu_position = theme.menu_position;
    config.font_color = theme.font_color.clone();
    config.cursor_color = theme.cursor_color.clone();
    config.background_scroll_speed = theme.background_scroll_speed.clone();
    config.color_shift_speed = theme.color_shift_speed.clone();
    config.bgm_track = Some(crate::paths::path_join(theme_dir, theme.bgm_track.as_str()));
    config.logo_selection = crate::paths::path_join(theme_dir, theme.logo_selection.as_str());
    config.background_selection = crate::paths::path_join(theme_dir, theme.background_selection.as_str());
    config.font_selection = crate::paths::path_join(theme_dir, theme.font_selection.as_str());
}

/// Why a theme's `theme.toml` could not be had.
pub enum ThemeFileFailure {
    /// There is no user data directory.
    NoDataDir,
    /// The file could not be read; the error's text.
    Read(String),
    /// The file holds no valid theme; the parser's message.
    Parse(String),
}

/// The message of a theme that could not be loaded.
pub open spec fn theme_failure_message(f: ThemeFileFailure) -> Seq<char> {
    match f {
        ThemeFileFailure::NoDataDir => "Could not find user data directory."@,
        ThemeFileFailure::Read(e) => "Could not read theme.toml: "@ + e@,
        ThemeFileFailure::Parse(e) => "Could not parse theme.toml: "@ + e@,
    }
}

fn theme_failure_text(f: ThemeFileFailure) -> (r: String)
    ensures
        r@ == theme_failure_message(f),
{
    match f {
        ThemeFileFailure::NoDataDir => String::from_str("Could not find user data directory."),
        ThemeFileFailure::Read(e) => {
            let mut r = String::from_str("Could not read theme.toml: ");
            r.append(e.as_str());
            r
        },
        ThemeFileFailure::Parse(e) => {
            let mut r = String::from_str("Could not parse theme.toml: ");
            r.append(e.as_str());
            r
        },
    }
}

/// Loads a theme into the settings. `"Default"` restores the settings of a
/// fresh install. Any other theme is taken from `loaded`: the theme folder
/// and its parsed `theme.toml`, or what went wrong in finding, reading or
/// parsing it, whose message is returned with the settings left as they
/// were.
pub fn load_theme(config: &mut Config, theme_name: &str, loaded: Result<(String, ThemeFile), ThemeFileFailure>) -> (r: Result<(), String>)
    ensures
        theme_name@ == "Default"@ ==> r is Ok && is_default_config(*final(config)),
        theme_name@ != "Default"@ ==> match loaded {
            Err(f) => (r matches Err(m) && m@ == theme_failure_message(f)) && *final(config) == *old(config),
            Ok((dir, t)) => r is Ok && same_non_theme_settings(*final(config), *old(config))
                && final(config).menu_position == t.menu_position
                && final(config).font_color == t.font_color
                && final(config).cursor_color == t.cursor_color
                && final(config).background_scroll_speed == t.background_scroll_speed
                && final(config).color_shift_speed == t.color_shift_speed
                && final(config).sfx_pack == old(config).sfx_pack
                && (final(config).bgm_track matches Some(b) && b@ == join(dir@, t.bgm_track@))
                && final(config).logo_selection@ == join(dir@, t.logo_selection@)
                && final(config).background_selection@ == join(dir@, t.background_selection@)
                && final(config).font_selection@ == join(dir@, t.font_selection@),
        },
{
    if crate::text::str_eq(theme_name, "Default") {
        *config = Config::default();
        return Ok(());
    }
    match loaded {
        Err(f) => Err(theme_failure_text(f)),
        Ok((dir, t)) => {
            apply_theme_file(config, dir.as_str(), &t);
            Ok(())
        },
    }
}

/// The settings a loaded theme may set; each is optional.
pub struct ThemeSettings {
    pub sfx_pack: Option<String>,
    pub bgm_track: Option<String>,
    pub logo_selection: Option<String>,
    pub background_selection: Option<String>,
    pub font_selection: Option<String>,
    pub menu_position: Option<String>,
    pub font_color: Option<String>,
    pub cursor_color: Option<String>,
    pub background_scroll_speed: Option<String>,
    pub color_shift_speed: Option<String>,
}

/// The value of an optional setting, or the fallback.
pub open spec fn or_default(o: Option<String>, d: Seq<char>) -> Seq<char> {
    match o {
        Some(s) => s@,
        None => d,
    }
}

/// An optional setting that replaces the current one only when present.
pub open spec fn overridden(o: Option<String>, current: String) -> String {
    match o {
        Some(s) => s,
        None => current,
    }
}

/// The menu position a theme names; an unknown name gives the center.
pub open spec fn position_from_theme(o: Option<String>, current: MenuPosition) -> MenuPosition {
    match o {
        Some(s) => if exists|p: MenuPosition| p.spec_name() == s@ {
            choose|p: MenuPosition| p.spec_name() == s@
        } else {
            MenuPosition::Center
        },
        None => current,
    }
}

fn or_default_string(o: &Option<String>, d: &str) -> (r: String)
    ensures
        r@ == or_default(*o, d@),
{
    match o {
        Some(s) => s.clone(),
        None => String::from_str(d),
    }
}

fn overridden_string(o: &Option<String>, current: &String) -> (r: String)
    ensures
        r == overridden(*o, *current),
{
    match o {
        Some(s) => s.clone(),
        None => current.clone(),
    }
}

/// A theme that was loaded at start-up, by folder name.
pub struct NamedTheme {
    pub name: String,
    pub settings: ThemeSettings,
}

/// The names of the loaded themes.
pub open spec fn theme_names(loaded: Seq<NamedTheme>) -> Seq<Seq<char>> {
    loaded.map_values(|t: NamedTheme| t.name@)
}

/// The themes to choose from after the themes were loaded again: the loaded
/// themes' names and `Default`, each once, in lexicographic order.
pub fn theme_choices(loaded: &Vec<NamedTheme>) -> (r: Vec<String>)
    ensures
        forall|i: int, j: int| 0 <= i < j < r.len() ==> crate::text::lex_lt(#[trigger] r@[i]@, #[trigger] r@[j]@),
        forall|x: Seq<char>| crate::sorting::views(r@).contains(x) <==> (x == "Default"@ || theme_names(loaded@).contains(x)),
{
    let mut names: Vec<String> = Vec::new();
    let mut i: usize = 0;
    while i < loaded.len()
        invariant
            0 <= i <= loaded.len(),
            crate::sorting::views(names@) == theme_names(loaded@).take(i as int),
        decreases loaded.len() - i,
    {
        names.push(loaded[i].name.clone());
        proof {
            assert(crate::sorting::views(names@) =~= crate::sorting::views(names@.drop_last()).push(loaded@[i as int].name@));
            assert(theme_names(loaded@).take(i + 1) =~= theme_names(loaded@).take(i as int).push(loaded@[i as int].name@));
        }
        i = i + 1;
    }
    assert(theme_names(loaded@).take(loaded.len() as int) =~= theme_names(loaded@));
    let ghost before = crate::sorting::views(names@);
    names.push(String::from_str("Default"));
    proof {
        assert(crate::sorting::views(names@) =~= before.push("Default"@));
        assert forall|x: Seq<char>| crate::sorting::views(names@).contains(x) <==> (x == "Default"@ || theme_names(
            loaded@,
        ).contains(x)) by {
            let vs = crate::sorting::views(names@);
            if vs.contains(x) {
                let k = choose|k: int| 0 <= k < vs.len() && vs[k] == x;
                if k < before.len() {
                    assert(theme_names(loaded@)[k] == x);
                }
            }
            if x == "Default"@ {
                assert(vs[vs.len() - 1] == x);
            }
            if theme_names(loaded@).contains(x) {
                let k = choose|k: int| 0 <= k < theme_names(loaded@).len() && theme_names(loaded@)[k] == x;
                assert(vs[k] == x);
            }
        }
    }
    crate::sorting::sort_dedup_strings(&names)
}

/// The settings of the first loaded theme with the given name.
pub open spec fn theme_lookup(list: Seq<NamedTheme>, name: Seq<char>) -> Option<ThemeSettings> {
    match crate::nav::first_index(list.map_values(|t: NamedTheme| t.name@), name) {
        Some(k) => Some(list[k].settings),
        None => None,
    }
}

/// A looked-up theme, by value.
pub open spec fn opt_settings(o: Option<&ThemeSettings>) -> Option<ThemeSettings> {
    match o {
        Some(t) => Some(*t),
        None => None,
    }
}

/// Looks a loaded theme up by name.
pub fn find_theme<'a>(list: &'a Vec<NamedTheme>, name: &str) -> (r: Option<&'a ThemeSettings>)
    ensures
        opt_settings(r) == theme_lookup(list@, name@),
{
    let ghost v = list@.map_values(|t: NamedTheme| t.name@);
    let mut i: usize = 0;
    while i < list.len()
        invariant
            0 <= i <= list.len(),
            v == list@.map_values(|t: NamedTheme| t.name@),
            forall|j: int| 0 <= j < i ==> v[j] != name@,
        decreases list.len() - i,
    {
        if crate::text::str_eq(list[i].name.as_str(), name) {
            proof {
                assert(v[i as int] == name@);
                crate::nav::lemma_first_exists(v, name@, i as int);
                let k = choose|k: int|
                    0 <= k < v.len() && v[k] == name@ && forall|j: int| 0 <= j < k ==> v[j] != name@;
                if k < i {
                } else if k > i {
                    assert(v[i as int] != name@);
                }
            }
            return Some(&list[i].settings);
        }
        i = i + 1;
    }
    None
}

/// What switching from `c0` to the theme `new_theme` makes of the settings:
/// the theme name is recorded and the display, clock, network and audio
/// output settings stay; `"Default"` brings back the default look; a theme
/// found among the loaded ones sets its assets (falling back to the
/// defaults) and overrides the look where it says so; a theme not found
/// changes nothing more.
pub open spec fn theme_switched(c0: Config, c1: Config, new_theme: Seq<char>, found: Option<ThemeSettings>) -> bool {
    &&& c1.theme@ == new_theme
    &&& c1.resolution == c0.resolution
    &&& c1.fullscreen == c0.fullscreen
    &&& c1.show_splash_screen == c0.show_splash_screen
    &&& c1.timezone == c0.timezone
    &&& c1.wifi == c0.wifi
    &&& c1.audio_output == c0.audio_output
    &&& new_theme == "Default"@ ==> has_default_look(c1)
    &&& new_theme != "Default"@ ==> match found {
        None => c1.menu_position == c0.menu_position
            && c1.font_color == c0.font_color
            && c1.cursor_color == c0.cursor_color
            && c1.background_scroll_speed == c0.background_scroll_speed
            && c1.color_shift_speed == c0.color_shift_speed
            && c1.bgm_track == c0.bgm_track
            && c1.sfx_pack == c0.sfx_pack
            && c1.logo_selection == c0.logo_selection
            && c1.background_selection == c0.background_selection
            && c1.font_selection == c0.font_selection,
        Some(t) => c1.sfx_pack@ == or_default(t.sfx_pack, "Default"@)
            && c1.bgm_track == t.bgm_track
            && c1.logo_selection@ == or_default(t.logo_selection, "Kazeta+ (Default)"@)
            && c1.background_selection@ == or_default(t.background_selection, "Default"@)
            && c1.font_selection@ == or_default(t.font_selection, "Default"@)
            && c1.menu_position == position_from_theme(t.menu_position, c0.menu_position)
            && c1.font_color == overridden(t.font_color, c0.font_color)
            && c1.cursor_color == overridden(t.cursor_color, c0.cursor_color)
            && c1.background_scroll_speed == overridden(t.background_scroll_speed, c0.background_scroll_speed)
            && c1.color_shift_speed == overridden(t.color_shift_speed, c0.color_shift_speed),
    }
}

/// Switches the settings to another theme, as the GUI settings page does.
/// Nothing changes when the theme is already the current one. Returns
/// whether the theme changed.
pub fn switch_theme(config: &mut Config, new_theme: &str, found: Option<&ThemeSettings>) -> (changed: bool)
    ensures
        changed == (old(config).theme@ != new_theme@),
        !changed ==> *final(config) == *old(config),
        changed ==> theme_switched(*old(config), *final(config), new_theme@, opt_settings(found)),
{
    if crate::text::str_eq(config.theme.as_str(), new_theme) {
        return false;
    }
    config.theme = String::from_str(new_theme);
    if crate::text::str_eq(new_theme, "Default") {
        let d = Config::default();
        config.sfx_pack = d.sfx_pack;
        config.bgm_track = d.bgm_track;
        config.logo_selection = d.logo_selection;
        config.background_selection = d.background_selection;
        config.font_selection = d.font_selection;
        config.menu_position = d.menu_position;
        config.font_color = d.font_color;
        config.cursor_color = d.cursor_color;
        config.background_scroll_speed = d.background_scroll_speed;
        config.color_shift_speed = d.color_shift_speed;
    } else {
        match found {
            None => {},
            Some(t) => {
                config.sfx_pack = or_default_string(&t.sfx_pack, "Default");
                config.bgm_track = match &t.bgm_track {
                    Some(b) => Some(b.clone()),
                    None => None,
                };
                config.logo_selection = or_default_string(&t.logo_selection, "Kazeta+ (Default)");
                config.background_selection = or_default_string(&t.background_selection, "Default");
                config.font_selection = or_default_string(&t.font_selection, "Default");
                match &t.menu_position {
                    Some(v) => {
                        config.menu_position = match MenuPosition::from_name(v.as_str()) {
                            Some(p) => {
                                proof {
                                    let q = choose|q: MenuPosition| q.spec_name() == v@;
                                    lemma_name_injective(p, q);
                                }
                                p
                            },
                            None => MenuPosition::Center,
                        };
                    },
                    None => {},
                }
                let fc = overridden_string(&t.font_color, &config.font_color);
                config.font_color = fc;
                let cc = overridden_string(&t.cursor_color, &config.cursor_color);
                config.cursor_color = cc;
                let bs = overridden_string(&t.background_scroll_speed, &config.background_scroll_speed);
                config.background_scroll_speed = bs;
                let cs = overridden_string(&t.color_shift_speed, &config.color_shift_speed);
                config.color_shift_speed = cs;
            },
        }
    }
    true
}

} // verus!

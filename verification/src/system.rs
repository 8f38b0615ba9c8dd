//! What the BIOS reads about the machine: values from system files, the
//! audio outputs `wpctl` lists, the battery, the network address, and the
//! clock in the configured time zone. The commands and files themselves
//! are read by the caller.
use vstd::prelude::*;
use crate::text::{lines_spec, lines_of, starts_with, trim, trim_str, replace_all, replace_str, contains, piece_after, nth_piece, words};
use crate::sorting::views;
use crate::patterns::{regex_captured, regex_captures, opt_view};
use crate::ui::settings::AudioSink;

verus! {

/// What the system information screen shows.
pub struct SystemInfo {
    pub os_name: String,
    pub kernel: String,
    pub cpu: String,
    pub gpu: String,
    pub ram_total: String,
}

/// The battery's charge and state, as the kernel reports them.
pub struct BatteryInfo {
    pub percentage: String,
    pub status: String,
}

// ---------------------------------------------------------------------
// Values in system files
// ---------------------------------------------------------------------

/// The first line that starts with `key`.
pub open spec fn first_line_with(lines: Seq<Seq<char>>, key: Seq<char>) -> Option<Seq<char>>
    decreases lines.len(),
{
    if lines.len() == 0 {
        None
    } else if starts_with(lines[0], key) {
        Some(lines[0])
    } else {
        first_line_with(lines.drop_first(), key)
    }
}

/// The value a file's contents give for `key`: its first line that starts
/// with `key`, with every occurrence of `key` removed, trimmed.
pub open spec fn line_value_spec(content: Seq<char>, key: Seq<char>) -> Option<Seq<char>> {
    match first_line_with(lines_spec(content), key) {
        Some(l) => Some(trim(replace_all(l, key, Seq::empty()))),
        None => None,
    }
}

/// See `line_value_spec`.
pub fn line_value(content: &str, key: &str) -> (r: Option<String>)
    ensures
        opt_view(r) == line_value_spec(content@, key@),
{
    let lines = lines_of(content);
    let ghost lv = views(lines@);
    let mut i: usize = 0;
    assert(lv.skip(0) =~= lv);
    while i < lines.len()
        invariant
            0 <= i <= lines@.len(),
            lv == views(lines@),
            lv == lines_spec(content@),
            first_line_with(lv, key@) == first_line_with(lv.skip(i as int), key@),
        decreases lines.len() - i,
    {
        proof {
            assert(lv.skip(i as int).drop_first() =~= lv.skip(i + 1));
            assert(lv.skip(i as int)[0] == lv[i as int]);
            assert(lv[i as int] == lines@[i as int]@);
        }
        if crate::text::str_starts_with(lines[i].as_str(), key) {
            proof {
                reveal_strlit("");
                assert(""@ =~= Seq::<char>::empty());
            }
            let stripped = replace_str(lines[i].as_str(), key, "");
            return Some(trim_str(stripped.as_str()));
        }
        i = i + 1;
    }
    assert(lv.skip(lines.len() as int) =~= Seq::<Seq<char>>::empty());
    None
}

/// The name of the system, from the `PRETTY_NAME=` line of `os-release`
/// without its quotes, or a default.
pub fn os_name(pretty_name: Option<String>) -> (r: String)
    ensures
        match pretty_name {
            Some(n) => r@ == replace_all(n@, "\""@, Seq::empty()),
            None => r@ == "Kazeta+ OS"@,
        },
{
    match pretty_name {
        Some(n) => {
            proof {
                reveal_strlit("\"");
                reveal_strlit("");
                assert(""@ =~= Seq::<char>::empty());
            }
            replace_str(n.as_str(), "\"", "")
        },
        None => String::from_str("Kazeta+ OS"),
    }
}

/// The kernel version: what `uname -r` printed, trimmed, or `N/A`.
pub fn kernel_text(output: Option<&str>) -> (r: String)
    ensures
        match output {
            Some(o) => r@ == trim(o@),
            None => r@ == "N/A"@,
        },
{
    match output {
        Some(o) => trim_str(o),
        None => String::from_str("N/A"),
    }
}

/// The processor: the `model name` line of `cpuinfo` without its `: `, or
/// `N/A`.
pub fn cpu_name(model_line: Option<String>) -> (r: String)
    ensures
        match model_line {
            Some(n) => r@ == replace_all(n@, ": "@, Seq::empty()),
            None => r@ == "N/A"@,
        },
{
    match model_line {
        Some(n) => {
            proof {
                reveal_strlit(": ");
                reveal_strlit("");
                assert(""@ =~= Seq::<char>::empty());
            }
            replace_str(n.as_str(), ": ", "")
        },
        None => String::from_str("N/A"),
    }
}

/// The graphics adapter named by the first line of the `lspci` lines
/// about display devices: its third `: `-separated field, trimmed.
pub open spec fn gpu_spec(output: Option<Seq<char>>) -> Seq<char> {
    match output {
        None => "N/A"@,
        Some(o) => {
            let ls = lines_spec(o);
            if ls.len() == 0 {
                "N/A"@
            } else {
                match piece_after(ls[0], ": "@, 0, 2) {
                    Some(f) => trim(f),
                    None => "N/A"@,
                }
            }
        },
    }
}

/// See `gpu_spec`.
pub fn gpu_name(output: Option<&str>) -> (r: String)
    ensures
        r@ == gpu_spec(match output {
            Some(o) => Some(o@),
            None => None,
        }),
{
    match output {
        None => String::from_str("N/A"),
        Some(o) => {
            let ls = lines_of(o);
            if ls.len() == 0 {
                return String::from_str("N/A");
            }
            assert(views(ls@)[0] == ls@[0]@);
            proof {
                reveal_strlit(": ");
            }
            match nth_piece(ls[0].as_str(), ": ", 2) {
                Some(f) => trim_str(f.as_str()),
                None => String::from_str("N/A"),
            }
        },
    }
}

/// The text of the `MemTotal:` value without its unit, to be read as a
/// number of kilobytes.
pub fn ram_kb_text(mem_line: Option<String>) -> (r: Option<String>)
    ensures
        match mem_line {
            Some(v) => (r matches Some(t) && t@ == trim(replace_all(v@, "kB"@, Seq::empty()))),
            None => r is None,
        },
{
    match mem_line {
        Some(v) => {
            proof {
                reveal_strlit("kB");
                reveal_strlit("");
                assert(""@ =~= Seq::<char>::empty());
            }
            let s = replace_str(v.as_str(), "kB", "");
            Some(trim_str(s.as_str()))
        },
        None => None,
    }
}

// ---------------------------------------------------------------------
// Audio outputs
// ---------------------------------------------------------------------

/// The pattern of a line that lists an output: an optional `*` (the
/// default), its number, a dot, its name, then its volume.
pub open spec fn sink_pattern() -> Seq<char> {
    "([*]?)\\s*(\\d+)\\.\\s+(.+?)\\s+\\[vol:"@
}

/// The name shown for an output: `Analog Stereo` dropped, `Digital Stereo
/// (HDMI 2)` shortened to `HDMI`, trimmed.
pub open spec fn sink_name(raw: Seq<char>) -> Seq<char> {
    trim(replace_all(replace_all(raw, "Analog Stereo"@, Seq::empty()), "Digital Stereo (HDMI 2)"@, "HDMI"@))
}

/// The output a line lists, from the groups the pattern captured in it:
/// the number (group 2) and the name (group 3), when both took part and the
/// number fits a `u32`.
pub open spec fn sink_of(caps: Option<Option<Seq<Option<Seq<char>>>>>) -> Option<(u32, Seq<char>)> {
    match caps {
        Some(Some(g)) => if g.len() > 3 {
            match (g[2], g[3]) {
                (Some(id), Some(name)) => match crate::numparse::parse_unsigned(id, u32::MAX as int) {
                    Some(v) => Some((v as u32, sink_name(name))),
                    None => None,
                },
                _ => None,
            }
        } else {
            None
        },
        _ => None,
    }
}

/// The result of a capture by views.
pub open spec fn caps_view(caps: Option<Option<Vec<Option<String>>>>) -> Option<Option<Seq<Option<Seq<char>>>>> {
    match caps {
        None => None,
        Some(None) => Some(None),
        Some(Some(g)) => Some(Some(g@.map_values(|x: Option<String>| opt_view(x)))),
    }
}

/// See `sink_of`.
pub fn sink_from_captures(caps: Option<Option<Vec<Option<String>>>>) -> (r: Option<AudioSink>)
    ensures
        match sink_of(caps_view(caps)) {
            Some((id, name)) => (r matches Some(s) && s.id == id && s.name@ == name),
            None => r is None,
        },
{
    match caps {
        Some(Some(g)) => {
            if g.len() <= 3 {
                return None;
            }
            let ghost gv = g@.map_values(|x: Option<String>| opt_view(x));
            assert(gv[2] == opt_view(g@[2]));
            assert(gv[3] == opt_view(g@[3]));
            match (&g[2], &g[3]) {
                (Some(id), Some(name)) => match crate::numparse::parse_u32(id.as_str()) {
                    Some(v) => {
                        proof {
                            reveal_strlit("Analog Stereo");
                            reveal_strlit("Digital Stereo (HDMI 2)");
                            reveal_strlit("HDMI");
                            reveal_strlit("");
                            assert(""@ =~= Seq::<char>::empty());
                        }
                        let a = replace_str(name.as_str(), "Analog Stereo", "");
                        let b = replace_str(a.as_str(), "Digital Stereo (HDMI 2)", "HDMI");
                        Some(AudioSink { id: v, name: trim_str(b.as_str()) })
                    },
                    None => None,
                },
                _ => None,
            }
        },
        _ => None,
    }
}

/// The lines of the sinks section: after the first line that mentions
/// `Sinks:`, up to (not including) the next line that mentions `Sources:`
/// or `Filters:`.
pub open spec fn sink_section(lines: Seq<Seq<char>>, inside: bool) -> Seq<Seq<char>>
    decreases lines.len(),
{
    if lines.len() == 0 {
        Seq::empty()
    } else {
        let l = lines[0];
        if contains(l, "Sinks:"@) {
            sink_section(lines.drop_first(), true)
        } else if inside && (contains(l, "Sources:"@) || contains(l, "Filters:"@)) {
            Seq::empty()
        } else if inside {
            seq![l] + sink_section(lines.drop_first(), true)
        } else {
            sink_section(lines.drop_first(), false)
        }
    }
}

/// The outputs listed in a section's lines, in order.
pub open spec fn sinks_of(lines: Seq<Seq<char>>) -> Seq<(u32, Seq<char>)>
    decreases lines.len(),
{
    if lines.len() == 0 {
        Seq::empty()
    } else {
        sinks_of(lines.drop_last()) + match sink_of(regex_captured(sink_pattern(), lines.last())) {
            Some(x) => seq![x],
            None => Seq::empty(),
        }
    }
}

/// The sinks as (id, name) pairs.
pub open spec fn sink_views(s: Seq<AudioSink>) -> Seq<(u32, Seq<char>)> {
    s.map_values(|x: AudioSink| (x.id, x.name@))
}

fn section_lines(output: &str) -> (r: Vec<String>)
    ensures
        views(r@) == sink_section(lines_spec(output@), false),
{
    let lines = lines_of(output);
    let ghost lv = views(lines@);
    let mut out: Vec<String> = Vec::new();
    let mut inside = false;
    let mut i: usize = 0;
    assert(lv.skip(0) =~= lv);
    while i < lines.len()
        invariant
            0 <= i <= lines@.len(),
            lv == views(lines@),
            lv == lines_spec(output@),
            views(out@) + sink_section(lv.skip(i as int), inside) == sink_section(lv, false),
        decreases lines.len() - i,
    {
        let ghost rest = lv.skip(i as int);
        proof {
            assert(rest.drop_first() =~= lv.skip(i + 1));
            assert(rest[0] == lv[i as int]);
            assert(lv[i as int] == lines@[i as int]@);
        }
        let l = lines[i].as_str();
        if crate::text::str_contains(l, "Sinks:") {
            inside = true;
        } else if inside && (crate::text::str_contains(l, "Sources:") || crate::text::str_contains(l, "Filters:")) {
            return out;
        } else if inside {
            let ghost before = views(out@);
            out.push(lines[i].clone());
            proof {
                assert(views(out@) =~= before.push(lv[i as int]));
                assert(sink_section(rest, true) == seq![lv[i as int]] + sink_section(lv.skip(i + 1), true));
                assert(before.push(lv[i as int]) + sink_section(lv.skip(i + 1), true) =~= before + (seq![lv[i as int]] + sink_section(lv.skip(i + 1), true)));
            }
        }
        i = i + 1;
    }
    assert(lv.skip(lines.len() as int) =~= Seq::<Seq<char>>::empty());
    assert(views(out@) + Seq::<Seq<char>>::empty() =~= views(out@));
    out
}

/// The audio outputs that `wpctl status` lists in its sinks section, in
/// order (see `sink_section` and `sink_of`).
pub fn get_available_sinks(output: &str) -> (r: Vec<AudioSink>)
    ensures
        sink_views(r@) == sinks_of(sink_section(lines_spec(output@), false)),
{
    let section = section_lines(output);
    let ghost sv = views(section@);
    let mut sinks: Vec<AudioSink> = Vec::new();
    let mut i: usize = 0;
    while i < section.len()
        invariant
            0 <= i <= section@.len(),
            sv == views(section@),
            sink_views(sinks@) == sinks_of(sv.take(i as int)),
        decreases section.len() - i,
    {
        proof {
            assert(sv.take(i + 1).drop_last() =~= sv.take(i as int));
            assert(sv.take(i + 1).last() == section@[i as int]@);
        }
        let caps = regex_captures("([*]?)\\s*(\\d+)\\.\\s+(.+?)\\s+\\[vol:", section[i].as_str());
        proof {
            assert(caps_view(caps) == regex_captured(sink_pattern(), section@[i as int]@));
        }
        let ghost before = sink_views(sinks@);
        match sink_from_captures(caps) {
            Some(s) => {
                sinks.push(s);
                assert(sink_views(sinks@) =~= before + seq![(s.id, s.name@)]);
            },
            None => {
                assert(sink_views(sinks@) =~= before + Seq::<(u32, Seq<char>)>::empty());
            },
        }
        i = i + 1;
    }
    assert(sv.take(section.len() as int) =~= sv);
    sinks
}

// ---------------------------------------------------------------------
// Battery and network
// ---------------------------------------------------------------------

/// A device the kernel lists under its power supplies: whether it is a
/// folder, and the contents of its `type`, `capacity` and `status` files
/// when they could be read.
pub struct PowerSupply {
    pub is_dir: bool,
    pub kind: Option<String>,
    pub capacity: Option<String>,
    pub status: Option<String>,
}

/// A power supply that is a battery with readable charge and state.
pub open spec fn battery_of(p: PowerSupply) -> Option<(Seq<char>, Seq<char>)> {
    if !p.is_dir {
        None
    } else {
        match (p.kind, p.capacity, p.status) {
            (Some(k), Some(c), Some(s)) => if trim(k@) == "Battery"@ {
                Some((trim(c@), trim(s@)))
            } else {
                None
            },
            _ => None,
        }
    }
}

/// The first battery among the power supplies, in order.
pub open spec fn first_battery(ps: Seq<PowerSupply>) -> Option<(Seq<char>, Seq<char>)>
    decreases ps.len(),
{
    if ps.len() == 0 {
        None
    } else {
        match battery_of(ps[0]) {
            Some(b) => Some(b),
            None => first_battery(ps.drop_first()),
        }
    }
}

/// The battery's charge and state (see `first_battery`).
pub fn get_battery_info(supplies: &Vec<PowerSupply>) -> (r: Option<BatteryInfo>)
    ensures
        match first_battery(supplies@) {
            Some((c, s)) => (r matches Some(b) && b.percentage@ == c && b.status@ == s),
            None => r is None,
        },
{
    let mut i: usize = 0;
    assert(supplies@.skip(0) =~= supplies@);
    while i < supplies.len()
        invariant
            0 <= i <= supplies@.len(),
            first_battery(supplies@) == first_battery(supplies@.skip(i as int)),
        decreases supplies.len() - i,
    {
        proof {
            assert(supplies@.skip(i as int).drop_first() =~= supplies@.skip(i + 1));
            assert(supplies@.skip(i as int)[0] == supplies@[i as int]);
        }
        let p = &supplies[i];
        if p.is_dir {
            match (&p.kind, &p.capacity, &p.status) {
                (Some(k), Some(c), Some(s)) => {
                    let kt = trim_str(k.as_str());
                    if crate::text::str_eq(kt.as_str(), "Battery") {
                        return Some(BatteryInfo { percentage: trim_str(c.as_str()), status: trim_str(s.as_str()) });
                    }
                },
                _ => {},
            }
        }
        i = i + 1;
    }
    assert(supplies@.skip(supplies.len() as int) =~= Seq::<PowerSupply>::empty());
    None
}

/// The address in the first `inet` line of `ip -4 addr show` that has one:
/// its second word up to the `/` of the prefix length.
pub open spec fn ip_of(lines: Seq<Seq<char>>) -> Option<Seq<char>>
    decreases lines.len(),
{
    if lines.len() == 0 {
        None
    } else {
        let t = trim(lines[0]);
        let ws = words(t);
        if starts_with(t, "inet"@) && ws.len() > 1 {
            Some(crate::text::split_on(ws[1], '/')[0])
        } else {
            ip_of(lines.drop_first())
        }
    }
}

/// The machine's address (see `ip_of`), or `N/A` when there is none or the
/// command failed.
pub fn get_ip_address(output: Option<&str>) -> (r: String)
    ensures
        match output {
            None => r@ == "N/A"@,
            Some(o) => match ip_of(lines_spec(o@)) {
                Some(a) => r@ == a,
                None => r@ == "N/A"@,
            },
        },
{
    match output {
        None => String::from_str("N/A"),
        Some(o) => ip_in(o),
    }
}

fn ip_in(o: &str) -> (r: String)
    ensures
        match ip_of(lines_spec(o@)) {
            Some(a) => r@ == a,
            None => r@ == "N/A"@,
        },
{
    let lines = lines_of(o);
    let ghost lv = views(lines@);
    let mut i: usize = 0;
    assert(lv.skip(0) =~= lv);
    while i < lines.len()
        invariant
            0 <= i <= lines@.len(),
            lv == views(lines@),
            lv == lines_spec(o@),
            ip_of(lv) == ip_of(lv.skip(i as int)),
        decreases lines.len() - i,
    {
        proof {
            assert(lv.skip(i as int).drop_first() =~= lv.skip(i + 1));
            assert(lv.skip(i as int)[0] == lv[i as int]);
            assert(lv[i as int] == lines@[i as int]@);
        }
        let t = trim_str(lines[i].as_str());
        let tc = crate::text::chars_of(t.as_str());
        let ws = crate::text::split_whitespace_chars(tc.as_slice());
        if crate::text::str_starts_with(t.as_str(), "inet") && ws.len() > 1 {
            let parts = crate::text::split_chars(ws[1].as_slice(), '/');
            proof {
                assert(ws@.map_values(|v: Vec<char>| v@)[1] == ws@[1]@);
                crate::text::lemma_split_on_nonempty(ws@[1]@, '/');
                assert(parts@.map_values(|v: Vec<char>| v@)[0] == parts@[0]@);
                assert(t@ == trim(lv[i as int]));
                assert(words(t@).len() > 1);
                assert(ip_of(lv.skip(i as int)) == Some(crate::text::split_on(ws@[1]@, '/')[0]));
            }
            let r = crate::text::string_from(parts[0].as_slice());
            assert(r@ == crate::text::split_on(ws@[1]@, '/')[0]);
            return r;
        }
        i = i + 1;
    }
    assert(lv.skip(lines.len() as int) =~= Seq::<Seq<char>>::empty());
    String::from_str("N/A")
}

// ---------------------------------------------------------------------
// The clock
// ---------------------------------------------------------------------

/// The hours a `UTC±h` time zone is offset by: the text left after
/// removing `UTC`, read as an `i32` (0 when empty or not a number).
pub open spec fn tz_hours(tz: Seq<char>) -> int {
    let rest = replace_all(tz, "UTC"@, Seq::empty());
    if rest.len() == 0 {
        0
    } else {
        match crate::numparse::parse_i32_spec(rest) {
            Some(h) => h,
            None => 0,
        }
    }
}

/// The offset in seconds the clock uses: the zone's hours, or none when
/// that is a day or more (as `FixedOffset::east_opt` refuses).
pub open spec fn offset_seconds(tz: Seq<char>) -> int {
    let s = tz_hours(tz) * 3600;
    if -86400 < s < 86400 { s } else { 0 }
}

/// See `tz_hours`.
pub fn timezone_hours(tz: &str) -> (h: i32)
    ensures
        h == tz_hours(tz@),
{
    proof {
        reveal_strlit("UTC");
        reveal_strlit("");
        assert(""@ =~= Seq::<char>::empty());
    }
    let rest = replace_str(tz, "UTC", "");
    assert(rest@ == replace_all(tz@, "UTC"@, Seq::empty()));
    if rest.as_str().is_empty() {
        assert(rest@.len() == 0);
        0
    } else {
        assert(rest@.len() != 0);
        proof {
            crate::numparse::lemma_parse_i32_range(rest@);
        }
        match crate::numparse::parse_i32(rest.as_str()) {
            Some(h) => h,
            None => 0,
        }
    }
}

/// See `offset_seconds`; the hours must not make the seconds wrap.
pub fn timezone_offset(tz: &str) -> (s: i32)
    requires
        i32::MIN <= tz_hours(tz@) * 3600 <= i32::MAX,
    ensures
        s == offset_seconds(tz@),
{
    let h = timezone_hours(tz);
    let s = h * 3600;
    if -86400 < s && s < 86400 {
        s
    } else {
        0
    }
}

/// Name for the clock text (`%-I:%M %p`, such as `5:08 PM`) chrono gives
/// for the instant `utc` seconds after the epoch seen at `offset` seconds
/// east of UTC: `None` when the instant is out of chrono's range.
pub uninterp spec fn clock_at(utc: i64, offset: i32) -> Option<Seq<char>>;

/// The text `%-I:%M %p` of the second `sec` of a day: the hour on a
/// 12-hour dial without padding (0 shows as 12), two-digit minutes, and
/// `AM` or `PM`.
pub open spec fn twelve_hour_text(sec: int) -> Seq<char> {
    let h = sec / 3600;
    let m = (sec % 3600) / 60;
    let h12 = if h % 12 == 0 { 12 } else { h % 12 };
    crate::numparse::dec_digits(h12 as nat) + ":"@ + crate::numparse::dec_digits2(m as nat) + (if h < 12 {
        " AM"@
    } else {
        " PM"@
    })
}

/// Instants within 2^40 seconds (about 34,800 years) of the epoch, well
/// inside chrono's range of dates.
pub open spec fn in_clock_range(utc: int) -> bool {
    -0x100_0000_0000 <= utc <= 0x100_0000_0000
}

/// `DateTime::from_timestamp(utc, 0)` seen through
/// `FixedOffset::east_opt(offset)` and formatted as `%-I:%M %p`. The text
/// depends on the two numbers alone and is given a name; when there is one
/// it is that of the local second of the day, `(utc + offset) mod 86400`.
/// `from_timestamp` gives a time for every instant in chrono's range, so
/// there is a text for every instant of `in_clock_range`; where exactly
/// chrono's range ends is left to the name.
#[verifier::external_body]
fn clock_text(utc: i64, offset: i32) -> (r: Option<String>)
    requires
        -86400 < offset < 86400,
    ensures
        opt_view(r) == clock_at(utc, offset),
        in_clock_range(utc as int) ==> r is Some,
        r matches Some(t) ==> t@ == twelve_hour_text((utc as int + offset as int) % 86400),
{
    let zone = chrono::FixedOffset::east_opt(offset).unwrap();
    match chrono::DateTime::from_timestamp(utc, 0) {
        Some(t) => Some(t.with_timezone(&zone).format("%-I:%M %p").to_string()),
        None => None,
    }
}

/// `Utc::now()`, in whole seconds since the epoch. It depends on the time;
/// nothing is claimed of it.
#[verifier::external_body]
fn utc_now() -> (r: i64) {
    chrono::Utc::now().timestamp()
}

/// The clock text at `utc` seconds in the time zone `tz` (see
/// `offset_seconds` and `clock_at`).
pub fn local_time_string(tz: &str, utc: i64) -> (r: Option<String>)
    requires
        i32::MIN <= tz_hours(tz@) * 3600 <= i32::MAX,
    ensures
        opt_view(r) == clock_at(utc, offset_seconds(tz@) as i32),
        in_clock_range(utc as int) ==> r is Some,
        r matches Some(t) ==> t@ == twelve_hour_text((utc as int + offset_seconds(tz@)) % 86400),
{
    let off = timezone_offset(tz);
    clock_text(utc, off)
}

/// The clock text now in the time zone `tz`: that of `local_time_string`
/// at the current time.
pub fn get_current_local_time_string(tz: &str) -> (r: Option<String>)
    requires
        i32::MIN <= tz_hours(tz@) * 3600 <= i32::MAX,
    ensures
        exists|t: i64|
            opt_view(r) == #[trigger] clock_at(t, offset_seconds(tz@) as i32) && (in_clock_range(t as int) ==> r is Some)
                && (r matches Some(x) ==> x@ == twelve_hour_text((t as int + offset_seconds(tz@)) % 86400)),
{
    let now = utc_now();
    let r = local_time_string(tz, now);
    assert(opt_view(r) == clock_at(now, offset_seconds(tz@) as i32));
    r
}

} // verus!

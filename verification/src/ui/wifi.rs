//! The Wi-Fi screen: the list of networks that `nmcli` reports, strongest
//! first, an on-screen keyboard for the password, and the connection's
//! outcome. Running `nmcli` is left to the caller.
use vstd::prelude::*;
use crate::ui::{Effect, Sound, InputState, Screen, only_if};
use crate::text::{split_on, lines_spec, lines_of, split_chars, chars_of, string_from, trim};
use crate::numparse::parse_unsigned;
use crate::sorting::{is_stable_int_order, stable_int_order};

verus! {

/// The rows of the on-screen keyboard, lower case.
pub const OSK_LAYOUT_LOWER: [&'static str; 4] = [
    "1234567890!@#$%^()",
    "qwertyuiop\\~-=+[]&",
    "asdfghjkl |;:'\"<>*",
    "zxcvbnm   _./?`{},",
];

/// The rows of the on-screen keyboard, upper case.
pub const OSK_LAYOUT_UPPER: [&'static str; 4] = [
    "1234567890!@#$%^()",
    "QWERTYUIOP\\~-=+[]&",
    "ASDFGHJKL |;:'\"<>*",
    "ZXCVBNM   _./?`{},",
];

/// The keys of the last row of the on-screen keyboard.
pub const OSK_SPECIAL_KEYS: [&'static str; 5] = ["SHOW", "SHIFT", "SPACE", "BACKSPACE", "ENTER"];

/// A network in range.
pub struct AccessPoint {
    pub ssid: String,
    pub signal_level: u8,
    /// Empty for an open network.
    pub security: String,
}

/// An access point as name, signal and security.
pub open spec fn ap_view(a: AccessPoint) -> (Seq<char>, int, Seq<char>) {
    (a.ssid@, a.signal_level as int, a.security@)
}

/// The network a line of `nmcli --terse --fields SSID,SIGNAL,SECURITY`
/// describes: at least three `:`-separated fields, a signal that reads as a
/// `u8`, and a non-empty name.
pub open spec fn ap_of_line(l: Seq<char>) -> Option<(Seq<char>, int, Seq<char>)> {
    let parts = split_on(l, ':');
    if parts.len() >= 3 {
        match parse_unsigned(parts[1], 255) {
            Some(v) => if parts[0].len() > 0 {
                Some((parts[0], v, parts[2]))
            } else {
                None
            },
            None => None,
        }
    } else {
        None
    }
}

/// The networks the lines describe, in order.
pub open spec fn listed_aps(lines: Seq<Seq<char>>) -> Seq<(Seq<char>, int, Seq<char>)>
    decreases lines.len(),
{
    if lines.len() == 0 {
        Seq::empty()
    } else {
        let r = listed_aps(lines.drop_last());
        match ap_of_line(lines.last()) {
            Some(a) => r.push(a),
            None => r,
        }
    }
}

/// `r` is `found` sorted by signal, strongest first, ties in their order.
pub open spec fn strongest_first(found: Seq<(Seq<char>, int, Seq<char>)>, r: Seq<(Seq<char>, int, Seq<char>)>) -> bool {
    exists|p: Seq<int>|
        is_stable_int_order(found.map_values(|a: (Seq<char>, int, Seq<char>)| -a.1), p) && r.len() == p.len()
            && forall|i: int| 0 <= i < r.len() ==> r[i] == found[#[trigger] p[i]]
}

fn ap_from_line(l: &str) -> (r: Option<AccessPoint>)
    ensures
        match ap_of_line(l@) {
            Some(a) => r matches Some(x) && ap_view(x) == a,
            None => r is None,
        },
{
    let cs = chars_of(l);
    let parts = split_chars(cs.as_slice(), ':');
    let ghost pv = parts@.map_values(|v: Vec<char>| v@);
    if parts.len() < 3 {
        return None;
    }
    proof {
        assert(pv[0] == parts@[0]@);
        assert(pv[1] == parts@[1]@);
        assert(pv[2] == parts@[2]@);
    }
    let signal_str = string_from(parts[1].as_slice());
    proof {
        let b = crate::numparse::unsigned_body(signal_str@);
        if b.len() > 0 && crate::numparse::all_digits(b) {
            crate::numparse::lemma_digits_value_nonneg(b);
        }
    }
    match crate::numparse::parse_u8(signal_str.as_str()) {
        Some(v) => {
            if parts[0].len() == 0 {
                return None;
            }
            Some(AccessPoint {
                ssid: string_from(parts[0].as_slice()),
                signal_level: v,
                security: string_from(parts[2].as_slice()),
            })
        },
        None => None,
    }
}

/// The networks in the output of `nmcli`, strongest first.
pub fn parse_networks(stdout: &str) -> (r: Vec<AccessPoint>)
    ensures
        strongest_first(listed_aps(lines_spec(stdout@)), r@.map_values(|a: AccessPoint| ap_view(a))),
{
    let lines = lines_of(stdout);
    let ghost lv = lines@.map_values(|l: String| l@);
    let mut found: Vec<AccessPoint> = Vec::new();
    let mut i: usize = 0;
    while i < lines.len()
        invariant
            0 <= i <= lines.len(),
            lv == lines@.map_values(|l: String| l@),
            found@.map_values(|a: AccessPoint| ap_view(a)) == listed_aps(lv.take(i as int)),
        decreases lines.len() - i,
    {
        proof {
            assert(lv.take(i + 1).drop_last() =~= lv.take(i as int));
        }
        let ghost before = found@.map_values(|a: AccessPoint| ap_view(a));
        match ap_from_line(lines[i].as_str()) {
            Some(a) => {
                found.push(a);
                proof {
                    assert(found@.map_values(|a: AccessPoint| ap_view(a)) =~= before.push(ap_view(found@.last())));
                }
            },
            None => {},
        }
        i = i + 1;
    }
    assert(lv.take(lines.len() as int) =~= lv);
    let ghost fv = found@.map_values(|a: AccessPoint| ap_view(a));
    let mut keys: Vec<u64> = Vec::new();
    let mut k: usize = 0;
    while k < found.len()
        invariant
            0 <= k <= found.len(),
            keys@.len() == k,
            forall|j: int| 0 <= j < k ==> #[trigger] keys@[j] == 255 - found@[j].signal_level,
        decreases found.len() - k,
    {
        keys.push(255 - found[k].signal_level as u64);
        k = k + 1;
    }
    let order = stable_int_order(&keys);
    let ghost kv = keys@.map_values(|x: u64| x as int);
    let ghost neg = fv.map_values(|a: (Seq<char>, int, Seq<char>)| -a.1);
    let ghost pv = order@.map_values(|x: usize| x as int);
    let mut r: Vec<AccessPoint> = Vec::new();
    let mut m: usize = 0;
    while m < order.len()
        invariant
            0 <= m <= order.len(),
            order.len() == found.len(),
            pv == order@.map_values(|x: usize| x as int),
            crate::sorting::is_perm(pv, found.len() as int),
            r@.len() == m,
            forall|j: int| 0 <= j < m ==> ap_view(#[trigger] r@[j]) == fv[pv[j]],
            fv == found@.map_values(|a: AccessPoint| ap_view(a)),
        decreases order.len() - m,
    {
        let idx = order[m];
        proof {
            assert(pv[m as int] == idx as int);
        }
        let a = &found[idx];
        r.push(AccessPoint { ssid: a.ssid.clone(), signal_level: a.signal_level, security: a.security.clone() });
        m = m + 1;
    }
    proof {
        assert forall|i: int, j: int| 0 <= i < j < pv.len() implies #[trigger] neg[pv[i]] <= #[trigger] neg[pv[j]] by {
            assert(kv[pv[i]] <= kv[pv[j]]);
        }
        assert forall|i: int, j: int| 0 <= i < j < pv.len() && neg[pv[i]] == neg[pv[j]] implies pv[i] < pv[j] by {
            assert(kv[pv[i]] == kv[pv[j]]);
        }
        let rv = r@.map_values(|a: AccessPoint| ap_view(a));
        assert(is_stable_int_order(neg, pv));
        assert forall|i: int| 0 <= i < rv.len() implies rv[i] == fv[#[trigger] pv[i]] by {}
    }
    r
}

/// Where the Wi-Fi screen stands.
pub enum WifiScreenState {
    Preparing,
    Scanning,
    List,
    PasswordInput,
    Connecting,
    Connected,
    Error(String),
}

/// The Wi-Fi screen's state.
pub struct WifiState {
    pub screen_state: WifiScreenState,
    pub networks: Result<Vec<AccessPoint>, String>,
    pub selected_index: usize,
    pub password_buffer: String,
    /// Row and column of the highlighted key.
    pub osk_coords: (usize, usize),
    pub osk_shift_active: bool,
    pub show_password: bool,
}

impl WifiState {
    /// A screen waiting for the network services to be prepared.
    pub fn new() -> (r: WifiState)
        ensures
            r.screen_state is Preparing,
            r.networks matches Ok(v) && v@.len() == 0,
            r.selected_index == 0,
            r.password_buffer@.len() == 0,
            r.osk_coords == (0usize, 0usize),
            !r.osk_shift_active,
            !r.show_password,
    {
        WifiState {
            screen_state: WifiScreenState::Preparing,
            networks: Ok(Vec::new()),
            selected_index: 0,
            password_buffer: String::new(),
            osk_coords: (0, 0),
            osk_shift_active: false,
            show_password: false,
        }
    }
}

/// The preparation of the network services ended: on success the networks
/// must be scanned (returns `true`); a failure is shown.
pub fn receive_preparation(st: &mut WifiState, msg: Result<(), String>) -> (scan: bool)
    ensures
        scan == (msg is Ok),
        match msg {
            Ok(_) => *final(st) == *old(st),
            Err(e) => *final(st) == (WifiState { screen_state: WifiScreenState::Error(e), ..*old(st) }),
        },
{
    match msg {
        Ok(_) => true,
        Err(e) => {
            st.screen_state = WifiScreenState::Error(e);
            false
        },
    }
}

/// The networks after a scan: those `nmcli` listed, strongest first, or the
/// reason it could not run; the list shows from its first entry.
pub fn apply_scan(st: &mut WifiState, result: Result<String, String>)
    ensures
        final(st).screen_state is List,
        final(st).selected_index == 0,
        match result {
            Ok(out) => final(st).networks matches Ok(v) && strongest_first(
                listed_aps(lines_spec(out@)),
                v@.map_values(|a: AccessPoint| ap_view(a)),
            ),
            Err(e) => final(st).networks matches Err(m) && m@ == "Failed to run nmcli: "@ + e@,
        },
        final(st).password_buffer == old(st).password_buffer,
        final(st).osk_coords == old(st).osk_coords,
        final(st).osk_shift_active == old(st).osk_shift_active,
        final(st).show_password == old(st).show_password,
{
    match result {
        Ok(out) => {
            st.networks = Ok(parse_networks(out.as_str()));
        },
        Err(e) => {
            let mut m = String::from_str("Failed to run nmcli: ");
            m.append(e.as_str());
            st.networks = Err(m);
        },
    }
    st.screen_state = WifiScreenState::List;
    st.selected_index = 0;
}

/// What to ask `nmcli` for: drop any profile of the network, then connect
/// to it, with the password when one was typed.
pub struct ConnectRequest {
    pub ssid: String,
    pub password: Option<String>,
}

/// Starting a connection to the highlighted network, when there is one.
pub open spec fn connecting(st0: WifiState, st1: WifiState, req: Option<ConnectRequest>) -> bool {
    match st0.networks {
        Ok(v) => if st0.selected_index < v@.len() {
            &&& st1 == (WifiState { screen_state: WifiScreenState::Connecting, ..st0 })
            &&& req matches Some(r) && r.ssid@ == v@[st0.selected_index as int].ssid@ && (if st0.password_buffer@.len() == 0 {
                r.password is None
            } else {
                r.password matches Some(p) && p@ == st0.password_buffer@
            })
        } else {
            st1 == st0 && req is None
        },
        Err(_) => st1 == st0 && req is None,
    }
}

/// Starts connecting to the highlighted network.
pub fn attempt_connection(st: &mut WifiState) -> (r: Option<ConnectRequest>)
    ensures
        connecting(*old(st), *final(st), r),
{
    let req = match &st.networks {
        Ok(v) => if st.selected_index < v.len() {
            let ssid = v[st.selected_index].ssid.clone();
            let password = if st.password_buffer.as_str().is_empty() {
                None
            } else {
                Some(st.password_buffer.clone())
            };
            Some(ConnectRequest { ssid, password })
        } else {
            None
        },
        Err(_) => None,
    };
    if req.is_some() {
        st.screen_state = WifiScreenState::Connecting;
    }
    req
}

/// The outcome of `nmcli`: success connects; a failure shows its trimmed
/// error output, or why it could not run.
pub fn connection_result(st: &mut WifiState, outcome: Result<(bool, String), String>)
    ensures
        match outcome {
            Ok((true, _)) => *final(st) == (WifiState { screen_state: WifiScreenState::Connected, ..*old(st) }),
            Ok((false, err)) => final(st).screen_state matches WifiScreenState::Error(m) && m@ == trim(err@)
                && *final(st) == (WifiState { screen_state: final(st).screen_state, ..*old(st) }),
            Err(e) => final(st).screen_state matches WifiScreenState::Error(m) && m@ == "Failed to run nmcli: "@ + e@
                && *final(st) == (WifiState { screen_state: final(st).screen_state, ..*old(st) }),
        },
{
    match outcome {
        Ok((ok, err)) => {
            if ok {
                st.screen_state = WifiScreenState::Connected;
            } else {
                st.screen_state = WifiScreenState::Error(crate::text::trim_str(err.as_str()));
            }
        },
        Err(e) => {
            let mut m = String::from_str("Failed to run nmcli: ");
            m.append(e.as_str());
            st.screen_state = WifiScreenState::Error(m);
        },
    }
}

/// The character rows of the keyboard, lower or upper case.
pub open spec fn layout(shift: bool) -> Seq<&'static str> {
    if shift {
        OSK_LAYOUT_UPPER@
    } else {
        OSK_LAYOUT_LOWER@
    }
}

/// The keys on a row of the keyboard: the character rows, then the row of
/// special keys.
pub open spec fn row_len(shift: bool, row: int) -> int {
    if row < layout(shift).len() {
        layout(shift)[row]@.len() as int
    } else {
        OSK_SPECIAL_KEYS@.len() as int
    }
}

/// Every character row has eighteen keys.
pub proof fn lemma_row_lengths()
    ensures
        forall|shift: bool, r: int| 0 <= r < 4 ==> #[trigger] row_len(shift, r) == 18,
{
    reveal_strlit("1234567890!@#$%^()");
    reveal_strlit("qwertyuiop\\~-=+[]&");
    reveal_strlit("asdfghjkl |;:'\"<>*");
    reveal_strlit("zxcvbnm   _./?`{},");
    reveal_strlit("QWERTYUIOP\\~-=+[]&");
    reveal_strlit("ASDFGHJKL |;:'\"<>*");
    reveal_strlit("ZXCVBNM   _./?`{},");
    assert forall|shift: bool, r: int| 0 <= r < 4 implies #[trigger] row_len(shift, r) == 18 by {
        if shift {
            assert(r == 0 || r == 1 || r == 2 || r == 3);
        } else {
            assert(r == 0 || r == 1 || r == 2 || r == 3);
        }
    }
}


/// The highlighted key after the arrow presses: down/up change the row
/// within the five rows, the column is kept within the row, right/left move
/// along it.
pub open spec fn osk_move(row: int, col: int, shift: bool, i: InputState) -> (int, int, Seq<Effect>) {
    let cm = seq![Effect::Play(Sound::CursorMove)];
    let d = i.down && row < 4;
    let r1 = if d { row + 1 } else { row };
    let u = i.up && r1 > 0;
    let r2 = if u { r1 - 1 } else { r1 };
    let len = row_len(shift, r2);
    let c1 = if col >= len { len - 1 } else { col };
    let rt = i.right && c1 < len - 1;
    let c2 = if rt { c1 + 1 } else { c1 };
    let lf = i.left && c2 > 0;
    let c3 = if lf { c2 - 1 } else { c2 };
    (r2, c3, only_if(d, cm) + only_if(u, cm) + only_if(rt, cm) + only_if(lf, cm))
}

/// Pressing the key at `(row, col)`: a character is typed (and a one-shot
/// shift below the digit row is released); SHOW and SHIFT toggle; SPACE
/// types a space; BACKSPACE removes the last character; ENTER connects.
pub open spec fn osk_select(st0: WifiState, st1: WifiState, row: int, col: int, req: Option<ConnectRequest>) -> bool {
    if row < 4 {
        let key = layout(st0.osk_shift_active)[row]@[col];
        &&& st1 == (WifiState {
            password_buffer: st1.password_buffer,
            osk_shift_active: if st0.osk_shift_active && row > 0 { false } else { st0.osk_shift_active },
            ..st0
        })
        &&& st1.password_buffer@ == st0.password_buffer@.push(key)
        &&& req is None
    } else if col == 0 {
        st1 == (WifiState { show_password: !st0.show_password, ..st0 }) && req is None
    } else if col == 1 {
        st1 == (WifiState { osk_shift_active: !st0.osk_shift_active, ..st0 }) && req is None
    } else if col == 2 {
        &&& st1 == (WifiState { password_buffer: st1.password_buffer, ..st0 })
        &&& st1.password_buffer@ == st0.password_buffer@.push(' ')
        &&& req is None
    } else if col == 3 {
        &&& st1 == (WifiState { password_buffer: st1.password_buffer, ..st0 })
        &&& st1.password_buffer@ == (if st0.password_buffer@.len() > 0 {
            st0.password_buffer@.drop_last()
        } else {
            st0.password_buffer@
        })
        &&& req is None
    } else if col == 4 {
        connecting(st0, st1, req)
    } else {
        st1 == st0 && req is None
    }
}

/// The list part of a frame: down/up move the highlight within the list;
/// select opens the highlighted network: an open one is connected to at
/// once, a secured one asks for its password on a fresh keyboard.
pub open spec fn list_select(st0: WifiState, st1: WifiState, i: InputState, effects: Seq<Effect>, req: Option<ConnectRequest>) -> bool {
    match st0.networks {
        Ok(v) => if v@.len() > 0 {
            let cm = seq![Effect::Play(Sound::CursorMove)];
            let dn = i.down && st0.selected_index < v@.len() - 1;
            let s1 = if dn { st0.selected_index + 1 } else { st0.selected_index as int };
            let up = i.up && s1 > 0;
            let s2 = if up { s1 - 1 } else { s1 };
            let mid = WifiState { selected_index: s2 as usize, ..st0 };
            let moves = only_if(dn, cm) + only_if(up, cm);
            if i.select {
                &&& effects == moves + seq![Effect::Play(Sound::Select)]
                &&& st1.password_buffer@.len() == 0
                &&& if v@[s2].security@.len() == 0 {
                    connecting(WifiState { password_buffer: st1.password_buffer, ..mid }, st1, req)
                } else {
                    &&& st1 == (WifiState {
                        password_buffer: st1.password_buffer,
                        osk_coords: (0usize, 0usize),
                        osk_shift_active: false,
                        show_password: false,
                        screen_state: WifiScreenState::PasswordInput,
                        ..mid
                    })
                    &&& req is None
                }
            } else {
                st1 == mid && effects == moves && req is None
            }
        } else {
            st1 == st0 && effects.len() == 0 && req is None
        },
        Err(_) => st1 == st0 && effects.len() == 0 && req is None,
    }
}

/// What `update` needs: the keyboard row is one of the five, and the
/// highlighted network is in the list.
pub open spec fn wifi_ready(st: WifiState) -> bool {
    &&& st.osk_coords.0 <= 4
    &&& st.selected_index < usize::MAX
    &&& st.networks matches Ok(v) ==> (v@.len() > 0 ==> st.selected_index < v@.len())
}

/// One frame of input on the Wi-Fi screen (after any message was taken).
pub open spec fn wifi_frame(
    st0: WifiState,
    st1: WifiState,
    i: InputState,
    sc0: Screen,
    sc1: Screen,
    effects: Seq<Effect>,
    req: Option<ConnectRequest>,
) -> bool {
    if i.back {
        &&& effects == seq![Effect::Play(Sound::Back)]
        &&& req is None
        &&& if st0.screen_state is PasswordInput && st0.show_password {
            st1 == (WifiState { show_password: false, ..st0 }) && sc1 == sc0
        } else if !(st0.screen_state is List) {
            &&& st1 == (WifiState {
                screen_state: WifiScreenState::List,
                password_buffer: st1.password_buffer,
                ..st0
            })
            &&& st1.password_buffer@.len() == 0
            &&& sc1 == sc0
        } else {
            st1 == st0 && sc1 == Screen::Extras
        }
    } else {
        &&& sc1 == sc0
        &&& match st0.screen_state {
            WifiScreenState::PasswordInput => {
                let (r, c, e) = osk_move(st0.osk_coords.0 as int, st0.osk_coords.1 as int, st0.osk_shift_active, i);
                let mid = WifiState { osk_coords: (r as usize, c as usize), ..st0 };
                if i.select {
                    effects == e + seq![Effect::Play(Sound::Select)] && osk_select(mid, st1, r, c, req)
                } else {
                    st1 == mid && effects == e && req is None
                }
            },
            WifiScreenState::List => list_select(st0, st1, i, effects, req),
            WifiScreenState::Connected => if i.select {
                st1 == (WifiState { screen_state: WifiScreenState::List, ..st0 }) && effects == seq![
                    Effect::Play(Sound::Select),
                ] && req is None
            } else {
                st1 == st0 && effects.len() == 0 && req is None
            },
            WifiScreenState::Error(_) => if i.select {
                st1 == (WifiState { screen_state: WifiScreenState::List, ..st0 }) && effects == seq![
                    Effect::Play(Sound::Select),
                ] && req is None
            } else {
                st1 == st0 && effects.len() == 0 && req is None
            },
            _ => st1 == st0 && effects.len() == 0 && req is None,
        }
    }
}

fn layout_row(shift: bool, r: usize) -> (s: &'static str)
    requires
        r < 4,
    ensures
        s@ == layout(shift)[r as int]@,
{
    if shift {
        OSK_LAYOUT_UPPER[r]
    } else {
        OSK_LAYOUT_LOWER[r]
    }
}

fn osk_move_exec(row0: usize, col0: usize, shift: bool, input: &InputState) -> (r: (usize, usize, Vec<Effect>))
    requires
        row0 <= 4,
    ensures
        (r.0 as int, r.1 as int, r.2@) == osk_move(row0 as int, col0 as int, shift, *input),
        r.0 <= 4,
        r.1 < row_len(shift, r.0 as int),
{
    proof {
        lemma_row_lengths();
    }
    let mut effects: Vec<Effect> = Vec::new();
    let mut row = row0;
    let mut col = col0;
    if input.down && row < 4 {
        row = row + 1;
        effects.push(Effect::Play(Sound::CursorMove));
    }
    let ghost e1 = effects@;
    if input.up && row > 0 {
        row = row - 1;
        effects.push(Effect::Play(Sound::CursorMove));
    }
    let ghost e2 = effects@;
    let len: usize = if row < 4 {
        let cs = chars_of(layout_row(shift, row));
        cs.len()
    } else {
        OSK_SPECIAL_KEYS.len()
    };
    assert(len == row_len(shift, row as int));
    if col >= len {
        col = len - 1;
    }
    if input.right && col < len - 1 {
        col = col + 1;
        effects.push(Effect::Play(Sound::CursorMove));
    }
    let ghost e3 = effects@;
    if input.left && col > 0 {
        col = col - 1;
        effects.push(Effect::Play(Sound::CursorMove));
    }
    proof {
        let cm = seq![Effect::Play(Sound::CursorMove)];
        assert(e1 =~= only_if(input.down && row0 < 4, cm));
        assert(e2 =~= e1 + only_if(input.up && (if input.down && row0 < 4 { row0 + 1 } else { row0 as int }) > 0, cm));
    }
    (row, col, effects)
}

fn push_char(buf: &String, c: char) -> (r: String)
    ensures
        r@ == buf@.push(c),
{
    let mut cs = chars_of(buf.as_str());
    cs.push(c);
    string_from(cs.as_slice())
}

fn pop_char(buf: &String) -> (r: String)
    ensures
        r@ == (if buf@.len() > 0 { buf@.drop_last() } else { buf@ }),
{
    let cs = chars_of(buf.as_str());
    if cs.len() > 0 {
        let v = crate::text::slice_to_vec(cs.as_slice(), 0, cs.len() - 1);
        assert(v@ =~= buf@.drop_last());
        string_from(v.as_slice())
    } else {
        string_from(cs.as_slice())
    }
}

fn osk_press(st: &mut WifiState, row: usize, col: usize) -> (req: Option<ConnectRequest>)
    requires
        row <= 4,
        col < row_len(old(st).osk_shift_active, row as int),
    ensures
        osk_select(*old(st), *final(st), row as int, col as int, req),
{
    proof {
        lemma_row_lengths();
    }
    if row < 4 {
        let cs = chars_of(layout_row(st.osk_shift_active, row));
        let key = cs[col];
        st.password_buffer = push_char(&st.password_buffer, key);
        if st.osk_shift_active && row > 0 {
            st.osk_shift_active = false;
        }
        None
    } else if col == 0 {
        st.show_password = !st.show_password;
        None
    } else if col == 1 {
        st.osk_shift_active = !st.osk_shift_active;
        None
    } else if col == 2 {
        st.password_buffer = push_char(&st.password_buffer, ' ');
        None
    } else if col == 3 {
        st.password_buffer = pop_char(&st.password_buffer);
        None
    } else if col == 4 {
        attempt_connection(st)
    } else {
        None
    }
}

fn list_update(st: &mut WifiState, input: &InputState) -> (r: (Vec<Effect>, Option<ConnectRequest>))
    requires
        old(st).screen_state is List,
        wifi_ready(*old(st)),
    ensures
        list_select(*old(st), *final(st), *input, r.0@, r.1),
{
    let mut effects: Vec<Effect> = Vec::new();
    let n = match &st.networks {
        Ok(v) => v.len(),
        Err(_) => 0,
    };
    if n == 0 {
        return (effects, None);
    }
    if input.down && st.selected_index < n - 1 {
        st.selected_index = st.selected_index + 1;
        effects.push(Effect::Play(Sound::CursorMove));
    }
    let ghost e1 = effects@;
    if input.up && st.selected_index > 0 {
        st.selected_index = st.selected_index - 1;
        effects.push(Effect::Play(Sound::CursorMove));
    }
    let ghost moves = effects@;
    proof {
        let cm = seq![Effect::Play(Sound::CursorMove)];
        let dn = input.down && old(st).selected_index < n - 1;
        let s1 = if dn { old(st).selected_index + 1 } else { old(st).selected_index as int };
        assert(e1 =~= only_if(dn, cm));
        assert(moves =~= e1 + only_if(input.up && s1 > 0, cm));
    }
    if !input.select {
        return (effects, None);
    }
    effects.push(Effect::Play(Sound::Select));
    assert(effects@ =~= moves + seq![Effect::Play(Sound::Select)]);
    let open = match &st.networks {
        Ok(v) => v[st.selected_index].security.as_str().is_empty(),
        Err(_) => false,
    };
    st.password_buffer = String::new();
    if open {
        let req = attempt_connection(st);
        (effects, req)
    } else {
        st.osk_coords = (0, 0);
        st.osk_shift_active = false;
        st.show_password = false;
        st.screen_state = WifiScreenState::PasswordInput;
        (effects, None)
    }
}

/// What a frame on the Wi-Fi screen decides.
pub struct WifiStep {
    pub effects: Vec<Effect>,
    /// A connection to make with `nmcli`; report with `connection_result`.
    pub connect: Option<ConnectRequest>,
}

/// One frame of input on the Wi-Fi screen. Back hides a shown password,
/// or leaves a sub-screen for the list (clearing the password), or leaves
/// the list for the extras. On the keyboard the arrows move and select
/// presses the key; on the list the arrows move and select opens the
/// network; on the outcome, select returns to the list.
pub fn update(st: &mut WifiState, input: &InputState, screen: &mut Screen) -> (r: WifiStep)
    requires
        wifi_ready(*old(st)),
    ensures
        wifi_frame(*old(st), *final(st), *input, *old(screen), *final(screen), r.effects@, r.connect),
{
    let mut effects: Vec<Effect> = Vec::new();
    if input.back {
        effects.push(Effect::Play(Sound::Back));
        assert(effects@ =~= seq![Effect::Play(Sound::Back)]);
        let in_password = match &st.screen_state {
            WifiScreenState::PasswordInput => true,
            _ => false,
        };
        let in_list = match &st.screen_state {
            WifiScreenState::List => true,
            _ => false,
        };
        if in_password && st.show_password {
            st.show_password = false;
        } else if !in_list {
            st.screen_state = WifiScreenState::List;
            st.password_buffer = String::new();
        } else {
            *screen = Screen::Extras;
        }
        return WifiStep { effects, connect: None };
    }
    match &st.screen_state {
        WifiScreenState::PasswordInput => {
            let (r, c, mut e) = osk_move_exec(st.osk_coords.0, st.osk_coords.1, st.osk_shift_active, input);
            st.osk_coords = (r, c);
            if input.select {
                let ghost e0 = e@;
                e.push(Effect::Play(Sound::Select));
                assert(e@ =~= e0 + seq![Effect::Play(Sound::Select)]);
                let req = osk_press(st, r, c);
                WifiStep { effects: e, connect: req }
            } else {
                WifiStep { effects: e, connect: None }
            }
        },
        WifiScreenState::List => {
            let (e, req) = list_update(st, input);
            WifiStep { effects: e, connect: req }
        },
        WifiScreenState::Connected | WifiScreenState::Error(_) => {
            if input.select {
                effects.push(Effect::Play(Sound::Select));
                assert(effects@ =~= seq![Effect::Play(Sound::Select)]);
                st.screen_state = WifiScreenState::List;
            }
            WifiStep { effects, connect: None }
        },
        _ => WifiStep { effects, connect: None },
    }
}

/// The password as shown: as typed, or one `*` per character.
pub fn password_display(buf: &String, show: bool) -> (r: String)
    ensures
        show ==> r@ == buf@,
        !show ==> r@.len() == buf@.len() && forall|k: int| 0 <= k < r@.len() ==> #[trigger] r@[k] == '*',
{
    let cs = chars_of(buf.as_str());
    if show {
        return string_from(cs.as_slice());
    }
    let mut v: Vec<char> = Vec::new();
    let mut i: usize = 0;
    while i < cs.len()
        invariant
            0 <= i <= cs.len(),
            v@.len() == i,
            forall|k: int| 0 <= k < i ==> #[trigger] v@[k] == '*',
        decreases cs.len() - i,
    {
        v.push('*');
        i = i + 1;
    }
    string_from(v.as_slice())
}

/// The outcome of the Wi-Fi setup script: success, its trimmed error output
/// on failure, or why it could not run.
pub fn setup_outcome(run: Result<(bool, String), String>) -> (r: Result<(), String>)
    ensures
        match run {
            Ok((true, _)) => r is Ok,
            Ok((false, err)) => r matches Err(m) && m@ == "Setup script failed: "@ + trim(err@),
            Err(e) => r matches Err(m) && m@ == "Failed to run setup script: "@ + e@,
        },
{
    match run {
        Ok((ok, err)) => {
            if ok {
                Ok(())
            } else {
                let mut m = String::from_str("Setup script failed: ");
                m.append(crate::text::trim_str(err.as_str()).as_str());
                Err(m)
            }
        },
        Err(e) => {
            let mut m = String::from_str("Failed to run setup script: ");
            m.append(e.as_str());
            Err(m)
        },
    }
}

} // verus!

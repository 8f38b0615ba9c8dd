//! Bluetooth pairing: the screen's states and input, and the decisions of
//! the background agent that watches the adapter (its table of devices, its
//! commands and the messages it sends). Talking to the adapter is left to
//! the caller.
use vstd::prelude::*;
use crate::ui::{Effect, Sound, InputState, Screen, only_if};
use crate::text::{chars_of, string_from, words, split_whitespace_chars, starts_with};
use crate::sorting::{is_stable_sort_of, views};

verus! {

/// A device that has a name.
pub struct BluetoothDevice {
    pub mac_address: String,
    pub name: String,
}

/// The devices the agent knows, one per address.
pub struct DeviceTable {
    pub devices: Vec<BluetoothDevice>,
}


/// Each address occurs once.
pub open spec fn unique_macs(d: Seq<BluetoothDevice>) -> bool {
    forall|i: int, j: int| 0 <= i < j < d.len() ==> (#[trigger] d[i]).mac_address@ != (#[trigger] d[j]).mac_address@
}

/// The table as a map from address to name.
pub open spec fn table_map(d: Seq<BluetoothDevice>) -> Map<Seq<char>, Seq<char>>
    decreases d.len(),
{
    if d.len() == 0 {
        Map::empty()
    } else {
        table_map(d.drop_last()).insert(d.last().mac_address@, d.last().name@)
    }
}

impl DeviceTable {
    /// Each address occurs once, and every device has a non-empty name.
    pub open spec fn wf(&self) -> bool {
        &&& unique_macs(self.devices@)
        &&& all_named(table_map(self.devices@))
    }

    /// The table as a map from address to name.
    pub open spec fn view(&self) -> Map<Seq<char>, Seq<char>> {
        table_map(self.devices@)
    }

    /// An empty table.
    pub fn new() -> (r: DeviceTable)
        ensures
            r.wf(),
            r.view() == Map::<Seq<char>, Seq<char>>::empty(),
    {
        DeviceTable { devices: Vec::new() }
    }
}

/// The map of a table holds exactly its addresses, with their names.
pub proof fn lemma_table_map(d: Seq<BluetoothDevice>)
    requires
        unique_macs(d),
    ensures
        forall|k: Seq<char>| #[trigger] table_map(d).contains_key(k) <==> exists|i: int| 0 <= i < d.len() && d[i].mac_address@ == k,
        forall|i: int| 0 <= i < d.len() ==> #[trigger] table_map(d)[d[i].mac_address@] == d[i].name@,
    decreases d.len(),
{
    if d.len() > 0 {
        let p = d.drop_last();
        assert(unique_macs(p));
        lemma_table_map(p);
        assert forall|k: Seq<char>| #[trigger] table_map(d).contains_key(k) <==> exists|i: int| 0 <= i < d.len() && d[i].mac_address@ == k by {
            if table_map(d).contains_key(k) && k != d.last().mac_address@ {
                assert(table_map(p).contains_key(k));
                let i = choose|i: int| 0 <= i < p.len() && p[i].mac_address@ == k;
                assert(p[i] == d[i]);
                assert(d[i].mac_address@ == k);
            }
            if table_map(d).contains_key(k) && k == d.last().mac_address@ {
                assert(d[d.len() - 1].mac_address@ == k);
            }
            if exists|i: int| 0 <= i < d.len() && d[i].mac_address@ == k {
                let i = choose|i: int| 0 <= i < d.len() && d[i].mac_address@ == k;
                if i < d.len() - 1 {
                    assert(p[i] == d[i]);
                    assert(p[i].mac_address@ == k);
                    assert(table_map(p).contains_key(k));
                }
            }
        }
        assert forall|i: int| 0 <= i < d.len() implies #[trigger] table_map(d)[d[i].mac_address@] == d[i].name@ by {
            if i < d.len() - 1 {
                assert(p[i] == d[i]);
                assert(d[i].mac_address@ != d[d.len() - 1].mac_address@);
                assert(table_map(p)[p[i].mac_address@] == p[i].name@);
            }
        }
    }
}

/// Position of the device with this address.
pub fn find_device(d: &Vec<BluetoothDevice>, mac: &str) -> (r: Option<usize>)
    ensures
        match r {
            Some(i) => i < d.len() && d@[i as int].mac_address@ == mac@,
            None => forall|i: int| 0 <= i < d.len() ==> (#[trigger] d@[i]).mac_address@ != mac@,
        },
{
    let mut i: usize = 0;
    while i < d.len()
        invariant
            0 <= i <= d.len(),
            forall|j: int| 0 <= j < i ==> (#[trigger] d@[j]).mac_address@ != mac@,
        decreases d.len() - i,
    {
        if crate::text::str_eq(d[i].mac_address.as_str(), mac) {
            return Some(i);
        }
        i = i + 1;
    }
    None
}

/// A device was discovered: it joins the table when it has a non-empty
/// name and its address is new. Returns whether the table changed.
pub fn device_added(t: &mut DeviceTable, mac: &str, name: Option<String>) -> (changed: bool)
    requires
        old(t).wf(),
    ensures
        final(t).wf(),
        changed == (name matches Some(n) && n@.len() > 0 && !old(t).view().contains_key(mac@)),
        changed ==> final(t).view() == old(t).view().insert(mac@, name->0@),
        !changed ==> final(t).view() == old(t).view(),
{
    proof {
        lemma_table_map(t.devices@);
    }
    match name {
        Some(n) => {
            if n.as_str().is_empty() {
                return false;
            }
            match find_device(&t.devices, mac) {
                Some(_) => false,
                None => {
                    let ghost old_d = t.devices@;
                    t.devices.push(BluetoothDevice { mac_address: String::from_str(mac), name: n });
                    proof {
                        assert(t.devices@.drop_last() =~= old_d);
                    }
                    true
                },
            }
        },
        None => false,
    }
}

/// A device went away: it leaves the table. Returns whether it was there.
pub fn device_removed(t: &mut DeviceTable, mac: &str) -> (changed: bool)
    requires
        old(t).wf(),
    ensures
        final(t).wf(),
        changed == old(t).view().contains_key(mac@),
        final(t).view() == old(t).view().remove(mac@),
{
    let ghost d0 = t.devices@;
    proof {
        lemma_table_map(d0);
    }
    match find_device(&t.devices, mac) {
        Some(i) => {
            t.devices.remove(i);
            proof {
                let d1 = t.devices@;
                assert(d1 == d0.remove(i as int));
                assert(unique_macs(d1)) by {
                    assert forall|a: int, b: int| 0 <= a < b < d1.len() implies (#[trigger] d1[a]).mac_address@ != (#[trigger] d1[b]).mac_address@ by {
                        let a0 = if a < i { a } else { a + 1 };
                        let b0 = if b < i { b } else { b + 1 };
                        assert(d1[a] == d0[a0] && d1[b] == d0[b0]);
                    }
                }
                lemma_table_map(d1);
                assert forall|k: Seq<char>| #[trigger] table_map(d1).contains_key(k) <==> table_map(d0).remove(mac@).contains_key(k) by {
                    if table_map(d1).contains_key(k) {
                        let j = choose|j: int| 0 <= j < d1.len() && d1[j].mac_address@ == k;
                        let j0 = if j < i { j } else { j + 1 };
                        assert(d1[j] == d0[j0]);
                    }
                    if table_map(d0).remove(mac@).contains_key(k) {
                        let j0 = choose|j: int| 0 <= j < d0.len() && d0[j].mac_address@ == k;
                        assert(j0 != i);
                        let j = if j0 < i { j0 } else { j0 - 1 };
                        assert(d1[j] == d0[j0]);
                    }
                }
                assert forall|k: Seq<char>| #[trigger] table_map(d1).contains_key(k) implies table_map(d1)[k] == table_map(d0).remove(mac@)[k] by {
                    let j = choose|j: int| 0 <= j < d1.len() && d1[j].mac_address@ == k;
                    let j0 = if j < i { j } else { j + 1 };
                    assert(d1[j] == d0[j0]);
                }
                assert(table_map(d1) =~= table_map(d0).remove(mac@));
            }
            true
        },
        None => {
            proof {
                assert(!table_map(d0).contains_key(mac@));
                assert(table_map(d0).remove(mac@) =~= table_map(d0));
            }
            false
        },
    }
}

/// Sets the name of an address, adding it when it is new.
fn table_insert(d: &mut Vec<BluetoothDevice>, mac: &str, name: String)
    requires
        unique_macs(old(d)@),
    ensures
        unique_macs(final(d)@),
        table_map(final(d)@) == table_map(old(d)@).insert(mac@, name@),
{
    let ghost d0 = d@;
    let ghost nm = name@;
    proof {
        lemma_table_map(d0);
    }
    match find_device(d, mac) {
        Some(j) => {
            d.set(j, BluetoothDevice { mac_address: String::from_str(mac), name });
            proof {
                let d1 = d@;
                assert forall|a: int, b: int| 0 <= a < b < d1.len() implies (#[trigger] d1[a]).mac_address@ != (#[trigger] d1[b]).mac_address@ by {
                    if a != j && b != j {
                        assert(d1[a] == d0[a] && d1[b] == d0[b]);
                    } else if a == j {
                        assert(d1[b] == d0[b]);
                        assert(d0[j as int].mac_address@ == mac@);
                    } else {
                        assert(d1[a] == d0[a]);
                        assert(d0[j as int].mac_address@ == mac@);
                    }
                }
                lemma_table_map(d1);
                assert forall|k: Seq<char>| #[trigger] table_map(d1).contains_key(k) <==> table_map(d0).insert(mac@, nm).contains_key(k) by {
                    if table_map(d1).contains_key(k) {
                        let i = choose|i: int| 0 <= i < d1.len() && d1[i].mac_address@ == k;
                        if i != j {
                            assert(d1[i] == d0[i]);
                        }
                    }
                    if table_map(d0).contains_key(k) {
                        let i = choose|i: int| 0 <= i < d0.len() && d0[i].mac_address@ == k;
                        if i != j {
                            assert(d1[i] == d0[i]);
                        } else {
                            assert(d1[i].mac_address@ == k);
                        }
                    }
                    if k == mac@ {
                        assert(d1[j as int].mac_address@ == k);
                    }
                }
                assert forall|k: Seq<char>| #[trigger] table_map(d1).contains_key(k) implies table_map(d1)[k] == table_map(d0).insert(mac@, nm)[k] by {
                    let i = choose|i: int| 0 <= i < d1.len() && d1[i].mac_address@ == k;
                    if i != j {
                        assert(d1[i] == d0[i]);
                    }
                }
                assert(table_map(d1) =~= table_map(d0).insert(mac@, nm));
            }
        },
        None => {
            d.push(BluetoothDevice { mac_address: String::from_str(mac), name });
            proof {
                assert(d@.drop_last() =~= d0);
            }
        },
    }
}

/// Whether every entry of `a` is in `b` with the same name.
fn included(a: &Vec<BluetoothDevice>, b: &Vec<BluetoothDevice>) -> (r: bool)
    requires
        unique_macs(a@),
        unique_macs(b@),
    ensures
        r == forall|k: Seq<char>| #[trigger] table_map(a@).contains_key(k) ==> table_map(b@).contains_key(k)
            && table_map(b@)[k] == table_map(a@)[k],
{
    proof {
        lemma_table_map(a@);
        lemma_table_map(b@);
    }
    let mut i: usize = 0;
    while i < a.len()
        invariant
            0 <= i <= a.len(),
            unique_macs(a@),
            unique_macs(b@),
            forall|j: int| 0 <= j < i ==> table_map(b@).contains_key(#[trigger] a@[j].mac_address@)
                && table_map(b@)[a@[j].mac_address@] == a@[j].name@,
        decreases a.len() - i,
    {
        proof {
            lemma_table_map(a@);
            lemma_table_map(b@);
        }
        match find_device(b, a[i].mac_address.as_str()) {
            Some(j) => {
                if !crate::text::str_eq(b[j].name.as_str(), a[i].name.as_str()) {
                    proof {
                        assert(table_map(a@).contains_key(a@[i as int].mac_address@));
                    }
                    return false;
                }
            },
            None => {
                proof {
                    assert(table_map(a@).contains_key(a@[i as int].mac_address@));
                }
                return false;
            },
        }
        i = i + 1;
    }
    proof {
        assert forall|k: Seq<char>| #[trigger] table_map(a@).contains_key(k) implies table_map(b@).contains_key(k)
            && table_map(b@)[k] == table_map(a@)[k] by {
            let j = choose|j: int| 0 <= j < a@.len() && a@[j].mac_address@ == k;
            assert(table_map(b@).contains_key(a@[j].mac_address@));
        }
    }
    true
}

/// What the adapter reports for an address: the address and maybe a name.
pub open spec fn report_view(r: (String, Option<String>)) -> (Seq<char>, Option<Seq<char>>) {
    (
        r.0@,
        match r.1 {
            Some(n) => Some(n@),
            None => None,
        },
    )
}

/// The devices a poll found: those with a non-empty name; an address
/// reported twice keeps its last name.
pub open spec fn found_map(found: Seq<(Seq<char>, Option<Seq<char>>)>) -> Map<Seq<char>, Seq<char>>
    decreases found.len(),
{
    if found.len() == 0 {
        Map::empty()
    } else {
        let m = found_map(found.drop_last());
        match found.last().1 {
            Some(n) => if n.len() > 0 {
                m.insert(found.last().0, n)
            } else {
                m
            },
            None => m,
        }
    }
}

/// A poll of the adapter: when the devices found differ from the table,
/// they replace it. Returns whether the table changed.
pub fn poll_devices(t: &mut DeviceTable, found: &Vec<(String, Option<String>)>) -> (changed: bool)
    requires
        old(t).wf(),
    ensures
        final(t).wf(),
        ({
            let fm = found_map(found@.map_values(|r: (String, Option<String>)| report_view(r)));
            &&& changed == (fm != old(t).view())
            &&& final(t).view() == fm
        }),
{
    let ghost fv = found@.map_values(|r: (String, Option<String>)| report_view(r));
    let mut fresh: Vec<BluetoothDevice> = Vec::new();
    let mut i: usize = 0;
    while i < found.len()
        invariant
            0 <= i <= found.len(),
            fv == found@.map_values(|r: (String, Option<String>)| report_view(r)),
            unique_macs(fresh@),
            table_map(fresh@) == found_map(fv.take(i as int)),
        decreases found.len() - i,
    {
        proof {
            assert(fv.take(i + 1).drop_last() =~= fv.take(i as int));
        }
        match &found[i].1 {
            Some(n) => {
                if !n.as_str().is_empty() {
                    table_insert(&mut fresh, found[i].0.as_str(), n.clone());
                }
            },
            None => {},
        }
        i = i + 1;
    }
    assert(fv.take(found.len() as int) =~= fv);
    proof {
        law_poll_reports_named_devices(fv);
    }
    let same = included(&fresh, &t.devices) && included(&t.devices, &fresh);
    proof {
        if same {
            assert(table_map(fresh@) =~= table_map(t.devices@));
        }
    }
    if !same {
        t.devices = fresh;
    }
    !same
}

/// A copy of the devices, entry by entry.
fn copy_devices(d: &Vec<BluetoothDevice>) -> (r: Vec<BluetoothDevice>)
    ensures
        device_views(r@) == device_views(d@),
{
    let mut r: Vec<BluetoothDevice> = Vec::new();
    let mut i: usize = 0;
    while i < d.len()
        invariant
            0 <= i <= d.len(),
            device_views(r@) == device_views(d@).take(i as int),
        decreases d.len() - i,
    {
        r.push(BluetoothDevice { mac_address: d[i].mac_address.clone(), name: d[i].name.clone() });
        proof {
            assert(device_views(r@) =~= device_views(r@.drop_last()).push(device_view(d@[i as int])));
            assert(device_views(d@).take(i + 1) =~= device_views(d@).take(i as int).push(device_view(d@[i as int])));
        }
        i = i + 1;
    }
    assert(device_views(d@).take(d.len() as int) =~= device_views(d@));
    r
}

/// The device list the agent sends after a discovery event or a poll: the
/// table when it changed, nothing otherwise. A list sent has one entry per
/// address, a non-empty name for each, and holds exactly the table.
pub fn scan_report(t: &DeviceTable, changed: bool) -> (r: Option<BluetoothMessage>)
    requires
        t.wf(),
    ensures
        !changed ==> r is None,
        changed ==> (r matches Some(BluetoothMessage::ScanResult(Ok(l))) && {
            &&& device_views(l@) == device_views(t.devices@)
            &&& unique_macs(l@)
            &&& forall|i: int| 0 <= i < l@.len() ==> (#[trigger] l@[i]).name@.len() > 0
            &&& table_map(l@) == t.view()
        }),
{
    if !changed {
        return None;
    }
    let l = copy_devices(&t.devices);
    proof {
        let d = t.devices@;
        lemma_table_map(d);
        assert(device_views(l@).len() == l@.len() && device_views(d).len() == d.len());
        assert forall|i: int| 0 <= i < l@.len() implies l@[i].mac_address@ == d[i].mac_address@ && l@[i].name@ == d[i].name@ by {
            assert(device_views(l@)[i] == device_views(d)[i]);
        }
        assert forall|i: int| 0 <= i < l@.len() implies (#[trigger] l@[i]).name@.len() > 0 by {
            assert(device_views(l@)[i] == device_views(d)[i]);
            assert(0 <= i < d.len() && d[i].mac_address@ == d[i].mac_address@);
            assert(table_map(d)[d[i].mac_address@] == d[i].name@);
            assert(table_map(d).contains_key(d[i].mac_address@));
        }
        lemma_same_views_same_map(l@, d);
    }
    Some(BluetoothMessage::ScanResult(Ok(l)))
}

/// Two lists with the same addresses and names make the same table.
proof fn lemma_same_views_same_map(a: Seq<BluetoothDevice>, b: Seq<BluetoothDevice>)
    requires
        device_views(a) == device_views(b),
    ensures
        table_map(a) == table_map(b),
        unique_macs(a) == unique_macs(b),
    decreases a.len(),
{
    assert(a.len() == device_views(a).len());
    assert forall|i: int| 0 <= i < a.len() implies a[i].mac_address@ == b[i].mac_address@ && a[i].name@ == b[i].name@ by {
        assert(device_views(a)[i] == device_views(b)[i]);
    }
    if a.len() > 0 {
        assert(device_views(a.drop_last()) =~= device_views(b.drop_last()));
        lemma_same_views_same_map(a.drop_last(), b.drop_last());
    }
    assert(unique_macs(a) == unique_macs(b)) by {
        if unique_macs(a) {
            assert forall|i: int, j: int| 0 <= i < j < b.len() implies (#[trigger] b[i]).mac_address@ != (#[trigger] b[j]).mac_address@ by {
                assert(a[i].mac_address@ != a[j].mac_address@);
            }
        }
        if unique_macs(b) {
            assert forall|i: int, j: int| 0 <= i < j < a.len() implies (#[trigger] a[i]).mac_address@ != (#[trigger] a[j]).mac_address@ by {
                assert(b[i].mac_address@ != b[j].mac_address@);
            }
        }
    }
}

/// A command from the screen to the agent.
pub enum AgentCommand {
    /// Pair with and connect to the device at this address.
    Pair(String),
    /// Remove the device at this address.
    Forget(String),
    Other,
}

/// The second word of a command, or nothing.
pub open spec fn command_arg(cmd: Seq<char>) -> Seq<char> {
    if words(cmd).len() > 1 {
        words(cmd)[1]
    } else {
        Seq::empty()
    }
}

/// Reads a command: `pair …` or `forget …`, the address being its second
/// word (empty when missing).
pub fn parse_command(cmd: &str) -> (r: AgentCommand)
    ensures
        starts_with(cmd@, "pair"@) ==> (r matches AgentCommand::Pair(m) && m@ == command_arg(cmd@)),
        !starts_with(cmd@, "pair"@) && starts_with(cmd@, "forget"@) ==> (r matches AgentCommand::Forget(m) && m@
            == command_arg(cmd@)),
        !starts_with(cmd@, "pair"@) && !starts_with(cmd@, "forget"@) ==> r is Other,
{
    let cs = chars_of(cmd);
    let ws = split_whitespace_chars(cs.as_slice());
    let ghost wv = ws@.map_values(|v: Vec<char>| v@);
    let arg = if ws.len() > 1 {
        proof {
            assert(wv[1] == ws@[1]@);
        }
        string_from(ws[1].as_slice())
    } else {
        String::new()
    };
    if crate::text::str_starts_with(cmd, "pair") {
        AgentCommand::Pair(arg)
    } else if crate::text::str_starts_with(cmd, "forget") {
        AgentCommand::Forget(arg)
    } else {
        AgentCommand::Other
    }
}

/// The command that pairs with a device.
pub fn pair_command(mac: &str) -> (r: String)
    ensures
        r@ == "pair "@ + mac@,
{
    let mut r = String::from_str("pair ");
    r.append(mac);
    r
}

/// The command that removes a device.
pub fn forget_command(mac: &str) -> (r: String)
    ensures
        r@ == "forget "@ + mac@,
{
    let mut r = String::from_str("forget ");
    r.append(mac);
    r
}

/// What the agent tells the screen.
pub enum BluetoothMessage {
    ScanResult(Result<Vec<BluetoothDevice>, String>),
    PairingSuccess(String),
    ConnectionUpdate(String),
    ForgetSuccess(String),
    Error(String),
}

fn prefixed(prefix: &str, e: &str) -> (r: String)
    ensures
        r@ == prefix@ + e@,
{
    let mut r = String::from_str(prefix);
    r.append(e);
    r
}

/// The device a pair command names: its name, or the error that it is not
/// known.
pub fn pair_target(t: &DeviceTable, mac: &str) -> (r: Result<String, String>)
    requires
        t.wf(),
    ensures
        t.view().contains_key(mac@) ==> (r matches Ok(n) && n@ == t.view()[mac@]),
        !t.view().contains_key(mac@) ==> (r matches Err(e) && e@ == "Device not found: "@ + mac@),
{
    proof {
        lemma_table_map(t.devices@);
    }
    match find_device(&t.devices, mac) {
        Some(i) => Ok(t.devices[i].name.clone()),
        None => Err(prefixed("Device not found: ", mac)),
    }
}

/// The messages after pairing with the device named `name`: a failed pairing
/// is reported; a successful one is announced, then the connection's
/// outcome.
pub fn pair_messages(name: &str, pair: Result<(), String>, connect: Result<(), String>) -> (r: Vec<BluetoothMessage>)
    ensures
        match pair {
            Err(e) => r@.len() == 1 && (r@[0] matches BluetoothMessage::Error(m) && m@ == "Pairing Failed: "@ + e@),
            Ok(_) => r@.len() == 2 && (r@[0] matches BluetoothMessage::PairingSuccess(n) && n@ == name@) && match connect {
                Err(e) => r@[1] matches BluetoothMessage::Error(m) && m@ == "Connection Failed: "@ + e@,
                Ok(_) => r@[1] matches BluetoothMessage::ConnectionUpdate(n) && n@ == name@,
            },
        },
{
    let mut r: Vec<BluetoothMessage> = Vec::new();
    match pair {
        Err(e) => {
            r.push(BluetoothMessage::Error(prefixed("Pairing Failed: ", e.as_str())));
        },
        Ok(_) => {
            r.push(BluetoothMessage::PairingSuccess(String::from_str(name)));
            match connect {
                Err(e) => r.push(BluetoothMessage::Error(prefixed("Connection Failed: ", e.as_str()))),
                Ok(_) => r.push(BluetoothMessage::ConnectionUpdate(String::from_str(name))),
            }
        },
    }
    r
}

/// The message after removing a device: its name (or its address when it
/// is not known) on success, the error otherwise.
pub fn forget_message(t: &DeviceTable, mac: &str, removed: Result<(), String>) -> (r: BluetoothMessage)
    requires
        t.wf(),
    ensures
        match removed {
            Ok(_) => r matches BluetoothMessage::ForgetSuccess(n) && n@ == (if t.view().contains_key(mac@) {
                t.view()[mac@]
            } else {
                mac@
            }),
            Err(e) => r matches BluetoothMessage::Error(m) && m@ == "Failed to remove: "@ + e@,
        },
{
    proof {
        lemma_table_map(t.devices@);
    }
    match removed {
        Ok(_) => {
            let name = match find_device(&t.devices, mac) {
                Some(i) => t.devices[i].name.clone(),
                None => String::from_str(mac),
            };
            BluetoothMessage::ForgetSuccess(name)
        },
        Err(e) => BluetoothMessage::Error(prefixed("Failed to remove: ", e.as_str())),
    }
}

/// Errors the agent reports on its own.
#[derive(PartialEq, Eq, Structural, Clone, Copy, Debug)]
pub enum AgentError {
    InvalidMac,
    Filter,
    Polling,
    Agent,
}

/// The text an agent error starts with.
pub open spec fn agent_error_prefix(k: AgentError) -> Seq<char> {
    match k {
        AgentError::InvalidMac => "Invalid MAC: "@,
        AgentError::Filter => "Filter failed: "@,
        AgentError::Polling => "Polling failed: "@,
        AgentError::Agent => "Agent failed: "@,
    }
}

/// The error message the agent sends for a failure of this kind.
pub fn agent_error(kind: AgentError, e: &str) -> (r: BluetoothMessage)
    ensures
        r matches BluetoothMessage::Error(m) && m@ == agent_error_prefix(kind) + e@,
{
    let prefix = match kind {
        AgentError::InvalidMac => "Invalid MAC: ",
        AgentError::Filter => "Filter failed: ",
        AgentError::Polling => "Polling failed: ",
        AgentError::Agent => "Agent failed: ",
    };
    BluetoothMessage::Error(prefixed(prefix, e))
}

/// A device as its address and name.
pub open spec fn device_view(d: BluetoothDevice) -> (Seq<char>, Seq<char>) {
    (d.mac_address@, d.name@)
}

/// The devices as addresses and names.
pub open spec fn device_views(d: Seq<BluetoothDevice>) -> Seq<(Seq<char>, Seq<char>)> {
    d.map_values(|x: BluetoothDevice| device_view(x))
}

/// The names of the devices.
pub open spec fn device_names(d: Seq<BluetoothDevice>) -> Seq<Seq<char>> {
    d.map_values(|x: BluetoothDevice| x.name@)
}

/// The devices sorted by name, ties in their order.
pub fn sort_by_name(v: &Vec<BluetoothDevice>) -> (r: Vec<BluetoothDevice>)
    ensures
        is_stable_sort_of(device_views(v@), device_names(v@), device_views(r@)),
{
    let mut names: Vec<String> = Vec::new();
    let mut i: usize = 0;
    while i < v.len()
        invariant
            0 <= i <= v.len(),
            views(names@) == device_names(v@).take(i as int),
        decreases v.len() - i,
    {
        let ghost before = names@;
        names.push(v[i].name.clone());
        proof {
            assert(names@ == before.push(names@.last()));
            assert(views(names@) =~= views(before).push(v@[i as int].name@));
            assert(device_names(v@).take(i + 1) =~= device_names(v@).take(i as int).push(v@[i as int].name@));
        }
        i = i + 1;
    }
    assert(device_names(v@).take(v.len() as int) =~= device_names(v@));
    let keys = crate::sorting::string_keys(&names);
    let p = crate::sorting::stable_order(&keys);
    let ghost pv = p@.map_values(|x: usize| x as int);
    let ghost ks = device_names(v@);
    let mut r: Vec<BluetoothDevice> = Vec::new();
    let mut j: usize = 0;
    while j < p.len()
        invariant
            0 <= j <= p.len(),
            p.len() == v.len(),
            pv == p@.map_values(|x: usize| x as int),
            crate::sorting::is_stable_order(ks, pv),
            r.len() == j,
            forall|k: int| 0 <= k < j ==> device_view(#[trigger] r@[k]) == device_view(v@[pv[k]]),
        decreases p.len() - j,
    {
        let idx = p[j];
        assert(pv[j as int] == idx as int);
        r.push(BluetoothDevice { mac_address: v[idx].mac_address.clone(), name: v[idx].name.clone() });
        j = j + 1;
    }
    proof {
        let rv = device_views(r@);
        assert forall|k: int| 0 <= k < rv.len() implies rv[k] == device_views(v@)[#[trigger] pv[k]] by {}
    }
    r
}

/// Where the Bluetooth screen stands.
pub enum BluetoothScreenState {
    DeviceList,
    Pairing(String),
    Connecting(String),
    Connected(String),
    Error(String),
    ForgetConfirm(BluetoothDevice),
}

/// The Bluetooth screen's state.
pub struct BluetoothState {
    pub screen_state: BluetoothScreenState,
    pub devices: Vec<BluetoothDevice>,
    pub selected_index: usize,
}

impl BluetoothState {
    /// The device list, empty, with the first row highlighted.
    pub fn new() -> (r: BluetoothState)
        ensures
            r.screen_state is DeviceList,
            r.devices@.len() == 0,
            r.selected_index == 0,
    {
        BluetoothState { screen_state: BluetoothScreenState::DeviceList, devices: Vec::new(), selected_index: 0 }
    }
}

/// A message from the agent: a new device list (sorted by name), an error,
/// or the progress of a pairing.
pub fn receive(st: &mut BluetoothState, msg: BluetoothMessage)
    ensures
        match msg {
            BluetoothMessage::ScanResult(Ok(devs)) => is_stable_sort_of(
                device_views(devs@),
                device_names(devs@),
                device_views(final(st).devices@),
            ) && final(st).selected_index == old(st).selected_index && final(st).screen_state == old(st).screen_state,
            BluetoothMessage::ScanResult(Err(e)) => *final(st) == (BluetoothState {
                screen_state: BluetoothScreenState::Error(e),
                ..*old(st)
            }),
            BluetoothMessage::Error(e) => *final(st) == (BluetoothState {
                screen_state: BluetoothScreenState::Error(e),
                ..*old(st)
            }),
            BluetoothMessage::PairingSuccess(n) => *final(st) == (BluetoothState {
                screen_state: BluetoothScreenState::Connecting(n),
                ..*old(st)
            }),
            BluetoothMessage::ConnectionUpdate(n) => *final(st) == (BluetoothState {
                screen_state: BluetoothScreenState::Connected(n),
                ..*old(st)
            }),
            BluetoothMessage::ForgetSuccess(_) => *final(st) == *old(st),
        },
{
    match msg {
        BluetoothMessage::ScanResult(Ok(devs)) => {
            st.devices = sort_by_name(&devs);
        },
        BluetoothMessage::ScanResult(Err(e)) => {
            st.screen_state = BluetoothScreenState::Error(e);
        },
        BluetoothMessage::Error(e) => {
            st.screen_state = BluetoothScreenState::Error(e);
        },
        BluetoothMessage::PairingSuccess(n) => {
            st.screen_state = BluetoothScreenState::Connecting(n);
        },
        BluetoothMessage::ConnectionUpdate(n) => {
            st.screen_state = BluetoothScreenState::Connected(n);
        },
        BluetoothMessage::ForgetSuccess(_) => {},
    }
}

/// What a frame on the Bluetooth screen decides.
pub struct BluetoothStep {
    pub effects: Vec<Effect>,
    /// Commands for the agent, in order.
    pub commands: Vec<String>,
}


/// One frame on the device list: down/up move the highlight within the
/// list; select starts pairing with the highlighted device; the secondary
/// button asks whether to forget it; back leaves for the extras.
pub open spec fn list_frame(
    st0: BluetoothState,
    st1: BluetoothState,
    i: InputState,
    sc0: Screen,
    sc1: Screen,
    effects: Seq<Effect>,
    commands: Seq<Seq<char>>,
) -> bool {
    let n = st0.devices@.len();
    let cm = seq![Effect::Play(Sound::CursorMove)];
    let sel = Seq::<Effect>::empty().push(Effect::Play(Sound::Select));
    let back = only_if(i.back, seq![Effect::Play(Sound::Back)]);
    &&& sc1 == (if i.back { Screen::Extras } else { sc0 })
    &&& st1.devices == st0.devices
    &&& if n > 0 {
        let dn = i.down && st0.selected_index < n - 1;
        let s1 = if dn { st0.selected_index + 1 } else { st0.selected_index as int };
        let up = i.up && s1 > 0;
        let s2 = if up { s1 - 1 } else { s1 };
        let d = st0.devices@[s2];
        &&& st1.selected_index == s2
        &&& effects == only_if(dn, cm) + only_if(up, cm) + only_if(i.select, sel) + only_if(i.secondary, sel) + back
        &&& commands == only_if(i.select, seq!["pair "@ + d.mac_address@])
        &&& if i.secondary {
            st1.screen_state matches BluetoothScreenState::ForgetConfirm(x) && device_view(x) == device_view(d)
        } else if i.select {
            st1.screen_state matches BluetoothScreenState::Pairing(m) && m@ == d.name@
        } else {
            st1.screen_state == st0.screen_state
        }
    } else {
        &&& st1 == st0
        &&& effects == back
        &&& commands.len() == 0
    }
}

/// One frame of input on the Bluetooth screen (after any message was
/// taken). On the list, see `list_frame`. Asked to forget a device, select
/// sends the command and returns to the top of the list, back returns to
/// the list. On an outcome, select or back return to the top of the list;
/// while pairing or connecting, back does.
pub open spec fn bluetooth_frame(
    st0: BluetoothState,
    st1: BluetoothState,
    i: InputState,
    sc0: Screen,
    sc1: Screen,
    effects: Seq<Effect>,
    commands: Seq<Seq<char>>,
) -> bool {
    match st0.screen_state {
        BluetoothScreenState::DeviceList => list_frame(st0, st1, i, sc0, sc1, effects, commands),
        BluetoothScreenState::ForgetConfirm(d) => {
            &&& sc1 == sc0
            &&& if i.select {
                &&& st1 == (BluetoothState {
                    screen_state: BluetoothScreenState::DeviceList,
                    selected_index: 0,
                    ..st0
                })
                &&& effects == seq![Effect::Play(Sound::Select)]
                &&& commands == seq!["forget "@ + d.mac_address@]
            } else if i.back {
                &&& st1 == (BluetoothState { screen_state: BluetoothScreenState::DeviceList, ..st0 })
                &&& effects == seq![Effect::Play(Sound::Back)]
                &&& commands.len() == 0
            } else {
                st1 == st0 && effects.len() == 0 && commands.len() == 0
            }
        },
        BluetoothScreenState::Error(_) | BluetoothScreenState::Connected(_) => {
            &&& sc1 == sc0
            &&& commands.len() == 0
            &&& if i.select || i.back {
                &&& st1 == (BluetoothState {
                    screen_state: BluetoothScreenState::DeviceList,
                    selected_index: 0,
                    ..st0
                })
                &&& effects == seq![Effect::Play(Sound::Select)]
            } else {
                st1 == st0 && effects.len() == 0
            }
        },
        _ => {
            &&& sc1 == sc0
            &&& commands.len() == 0
            &&& if i.back {
                &&& st1 == (BluetoothState {
                    screen_state: BluetoothScreenState::DeviceList,
                    selected_index: 0,
                    ..st0
                })
                &&& effects == seq![Effect::Play(Sound::Back)]
            } else {
                st1 == st0 && effects.len() == 0
            }
        },
    }
}

fn list_update(st: &mut BluetoothState, input: &InputState, screen: &mut Screen) -> (r: BluetoothStep)
    requires
        old(st).screen_state is DeviceList,
        old(st).devices@.len() > 0 ==> old(st).selected_index < old(st).devices@.len(),
    ensures
        list_frame(
            *old(st),
            *final(st),
            *input,
            *old(screen),
            *final(screen),
            r.effects@,
            r.commands@.map_values(|c: String| c@),
        ),
{
    let mut effects: Vec<Effect> = Vec::new();
    let mut commands: Vec<String> = Vec::new();
    let n = st.devices.len();
    if n > 0 {
        if input.down && st.selected_index < n - 1 {
            st.selected_index = st.selected_index + 1;
            effects.push(Effect::Play(Sound::CursorMove));
        }
        let ghost e1 = effects@;
        if input.up && st.selected_index > 0 {
            st.selected_index = st.selected_index - 1;
            effects.push(Effect::Play(Sound::CursorMove));
        }
        let ghost e2 = effects@;
        let k = st.selected_index;
        if input.select {
            st.screen_state = BluetoothScreenState::Pairing(st.devices[k].name.clone());
            effects.push(Effect::Play(Sound::Select));
            commands.push(pair_command(st.devices[k].mac_address.as_str()));
        }
        let ghost e3 = effects@;
        if input.secondary {
            let d = BluetoothDevice {
                mac_address: st.devices[k].mac_address.clone(),
                name: st.devices[k].name.clone(),
            };
            st.screen_state = BluetoothScreenState::ForgetConfirm(d);
            effects.push(Effect::Play(Sound::Select));
        }
        let ghost e4 = effects@;
        proof {
            let cm = seq![Effect::Play(Sound::CursorMove)];
            let sel = Seq::<Effect>::empty().push(Effect::Play(Sound::Select));
            let dn = input.down && old(st).selected_index < n - 1;
            let s1 = if dn { old(st).selected_index + 1 } else { old(st).selected_index as int };
            assert(e1 =~= only_if(dn, cm));
            assert(e2 =~= e1 + only_if(input.up && s1 > 0, cm));
            assert(e3 =~= e2 + only_if(input.select, sel));
            assert(e4 =~= e3 + only_if(input.secondary, sel));
            assert(commands@.map_values(|c: String| c@) =~= only_if(
                input.select,
                seq!["pair "@ + st.devices@[k as int].mac_address@],
            ));
        }
    }
    let ghost e5 = effects@;
    if input.back {
        *screen = Screen::Extras;
        effects.push(Effect::Play(Sound::Back));
    }
    proof {
        assert(effects@ =~= e5 + only_if(input.back, seq![Effect::Play(Sound::Back)]));
        if n == 0 {
            assert(commands@.map_values(|c: String| c@) =~= Seq::<Seq<char>>::empty());
        }
    }
    BluetoothStep { effects, commands }
}

/// One frame of input on the Bluetooth screen.
pub fn update(st: &mut BluetoothState, input: &InputState, screen: &mut Screen) -> (r: BluetoothStep)
    requires
        old(st).devices@.len() > 0 ==> old(st).selected_index < old(st).devices@.len(),
    ensures
        bluetooth_frame(
            *old(st),
            *final(st),
            *input,
            *old(screen),
            *final(screen),
            r.effects@,
            r.commands@.map_values(|c: String| c@),
        ),
{
    let mut effects: Vec<Effect> = Vec::new();
    let mut commands: Vec<String> = Vec::new();
    let kind: u8 = match &st.screen_state {
        BluetoothScreenState::DeviceList => 0,
        BluetoothScreenState::ForgetConfirm(_) => 1,
        BluetoothScreenState::Error(_) => 2,
        BluetoothScreenState::Connected(_) => 2,
        _ => 3,
    };
    if kind == 0 {
        return list_update(st, input, screen);
    }
    if kind == 1 {
        if input.select {
            let cmd = match &st.screen_state {
                BluetoothScreenState::ForgetConfirm(d) => forget_command(d.mac_address.as_str()),
                _ => String::new(),
            };
            commands.push(cmd);
            st.screen_state = BluetoothScreenState::DeviceList;
            st.selected_index = 0;
            effects.push(Effect::Play(Sound::Select));
        } else if input.back {
            st.screen_state = BluetoothScreenState::DeviceList;
            effects.push(Effect::Play(Sound::Back));
        }
    } else if kind == 2 {
        if input.select || input.back {
            st.screen_state = BluetoothScreenState::DeviceList;
            st.selected_index = 0;
            effects.push(Effect::Play(Sound::Select));
        }
    } else {
        if input.back {
            st.screen_state = BluetoothScreenState::DeviceList;
            st.selected_index = 0;
            effects.push(Effect::Play(Sound::Back));
        }
    }
    proof {
        if effects@.len() == 1 {
            assert(effects@ =~= seq![effects@[0]]);
        }
        if commands@.len() == 1 {
            assert(commands@.map_values(|c: String| c@) =~= seq![commands@[0]@]);
        } else {
            assert(commands@.map_values(|c: String| c@) =~= Seq::<Seq<char>>::empty());
        }
    }
    BluetoothStep { effects, commands }
}


/// Every device of the map has a non-empty name.
pub open spec fn all_named(m: Map<Seq<char>, Seq<char>>) -> bool {
    forall|k: Seq<char>| #[trigger] m.contains_key(k) ==> m[k].len() > 0
}

/// A poll reports only named devices: the table a poll leaves (one entry
/// per address, see `DeviceTable::wf`, and reported exactly when it
/// differs from the table before, see `poll_devices`) gives every device a
/// non-empty name.
pub proof fn law_poll_reports_named_devices(found: Seq<(Seq<char>, Option<Seq<char>>)>)
    ensures
        all_named(found_map(found)),
    decreases found.len(),
{
    if found.len() > 0 {
        law_poll_reports_named_devices(found.drop_last());
        let m = found_map(found.drop_last());
        match found.last().1 {
            Some(n) => if n.len() > 0 {
                assert forall|k: Seq<char>| #[trigger] m.insert(found.last().0, n).contains_key(k) implies m.insert(
                    found.last().0,
                    n,
                )[k].len() > 0 by {
                    if k != found.last().0 {
                        assert(m.contains_key(k));
                    }
                }
            },
            None => {},
        }
    }
}

/// Discovery events keep every device named: a removal, and an addition
/// with a non-empty name (the only kind `device_added` makes).
pub proof fn law_events_keep_names(m: Map<Seq<char>, Seq<char>>, mac: Seq<char>, name: Seq<char>)
    requires
        all_named(m),
    ensures
        all_named(m.remove(mac)),
        name.len() > 0 ==> all_named(m.insert(mac, name)),
{
    assert forall|k: Seq<char>| #[trigger] m.remove(mac).contains_key(k) implies m.remove(mac)[k].len() > 0 by {
        assert(m.contains_key(k));
    }
    if name.len() > 0 {
        assert forall|k: Seq<char>| #[trigger] m.insert(mac, name).contains_key(k) implies m.insert(mac, name)[k].len()
            > 0 by {
            if k != mac {
                assert(m.contains_key(k));
            }
        }
    }
}

/// A device that was discovered and then went away leaves the table as it
/// was before.
pub proof fn law_added_then_removed(t0: Map<Seq<char>, Seq<char>>, mac: Seq<char>, name: Seq<char>)
    requires
        !t0.contains_key(mac),
    ensures
        t0.insert(mac, name).remove(mac) == t0,
{
    assert(t0.insert(mac, name).remove(mac) =~= t0);
}

} // verus!

//! Save data on the internal drive and on cartridges: what the save data
//! screen lists, how a copy or a delete is decided, and how the storage
//! devices are found.
use vstd::prelude::*;
use crate::paths::{extension, join, is_internal_drive};
use crate::sorting::is_stable_sort_of;
use crate::text::{starts_with, ends_with, lower_of};

verus! {

// ---------------------------------------------------------------------
// Drives
// ---------------------------------------------------------------------

/// Whether a drive holds save data. The internal drive always does; for
/// another drive the caller reports whether its save directory exists once
/// it has been created if missing.
pub fn has_save_dir(drive_name: &str, save_dir_exists: bool) -> (r: bool)
    ensures
        r == (drive_name@ == "internal"@ || save_dir_exists),
{
    if crate::text::str_eq(drive_name, "internal") {
        return true;
    }
    save_dir_exists
}

/// Whether a drive is a cartridge: not the internal drive, and a `.kzi`
/// file was found at its mount point (searching one level deep).
pub fn is_cart(drive_name: &str, kzi_found: bool) -> (r: bool)
    ensures
        r == (drive_name@ != "internal"@ && kzi_found),
{
    if crate::text::str_eq(drive_name, "internal") {
        return false;
    }
    kzi_found
}

// ---------------------------------------------------------------------
// Metadata files
// ---------------------------------------------------------------------

/// The value of the first `attribute=value` line, or the empty string.
pub open spec fn attribute_value_spec(lines: Seq<Seq<char>>, attribute: Seq<char>) -> Seq<char>
    decreases lines.len(),
{
    if lines.len() == 0 {
        seq![]
    } else if starts_with(lines[0], attribute.push('=')) {
        lines[0].skip(attribute.len() as int + 1)
    } else {
        attribute_value_spec(lines.drop_first(), attribute)
    }
}

/// The value of `attribute` in the lines of a `metadata.kzi` file: the rest
/// of the first line that starts with `attribute=`, or `""` when no line does.
pub fn attribute_value(lines: &Vec<String>, attribute: &str) -> (r: String)
    ensures
        r@ == attribute_value_spec(crate::sorting::views(lines@), attribute@),
{
    let mut key = crate::text::chars_of(attribute);
    key.push('=');
    let ghost vs = crate::sorting::views(lines@);
    let mut i: usize = 0;
    assert(vs.skip(0) == vs);
    while i < lines.len()
        invariant
            0 <= i <= lines.len(),
            vs == crate::sorting::views(lines@),
            key@ == attribute@.push('='),
            attribute_value_spec(vs, attribute@) == attribute_value_spec(vs.skip(i as int), attribute@),
        decreases lines.len() - i,
    {
        let line = crate::text::chars_of(lines[i].as_str());
        assert(vs.skip(i as int)[0] == line@);
        assert(vs.skip(i as int).drop_first() == vs.skip(i + 1));
        if crate::text::seq_starts_with(line.as_slice(), key.as_slice()) {
            let rest = crate::text::slice_to_vec(line.as_slice(), key.len(), line.len());
            assert(rest@ == line@.skip(attribute@.len() as int + 1));
            return crate::text::string_from(rest.as_slice());
        }
        i = i + 1;
    }
    String::new()
}

/// A save file name without its `.tar` suffix.
pub open spec fn cart_id_spec(file_name: Seq<char>) -> Seq<char> {
    if ends_with(file_name, ".tar"@) {
        file_name.take(file_name.len() - 4)
    } else {
        file_name
    }
}

/// The cartridge id of a save: the file name with a trailing `.tar` removed.
pub fn cart_id_from_file_name(file_name: &str) -> (r: String)
    ensures
        r@ == cart_id_spec(file_name@),
{
    let c = crate::text::chars_of(file_name);
    proof { reveal_strlit(".tar"); }
    if crate::text::str_ends_with(file_name, ".tar") {
        let t = crate::text::slice_to_vec(c.as_slice(), 0, c.len() - 4);
        crate::text::string_from(t.as_slice())
    } else {
        crate::text::string_from(c.as_slice())
    }
}

/// Where the metadata of a cartridge is cached: `<cache>/<cart id>/metadata.kzi`.
pub fn metadata_path(cache_dir: &str, cart_id: &str) -> (r: String)
    ensures
        r@ == join(join(cache_dir@, cart_id@), "metadata.kzi"@),
{
    let d = crate::paths::path_join(cache_dir, cart_id);
    crate::paths::path_join(d.as_str(), "metadata.kzi")
}

/// The icon of a cartridge: `<cache>/<cart id>/icon.png`, always written
/// with `/` separators.
pub fn icon_path(cache_dir: &str, cart_id: &str) -> (r: String)
    ensures
        r@ == cache_dir@ + "/"@ + cart_id@ + "/icon.png"@,
{
    let mut s = String::from_str(cache_dir);
    s.append("/");
    s.append(cart_id);
    s.append("/icon.png");
    s
}

/// A size in bytes as tenths of a megabyte, rounded up:
/// `ceil(bytes / 2^20 * 10) / 10`, kept in tenths.
pub open spec fn tenths_of_mb(bytes: int) -> int {
    (bytes * 10 + 1048575) / 1048576
}

/// A size in bytes as tenths of a megabyte, rounded up.
pub fn size_in_tenths_of_mb(bytes: u64) -> (r: u64)
    ensures
        r == tenths_of_mb(bytes as int),
{
    let t = (bytes as u128) * 10 + 1048575;
    let q = t / 1048576;
    assert(q <= u64::MAX) by (nonlinear_arith)
        requires
            q == t / 1048576,
            t == (bytes as u128) * 10 + 1048575,
            bytes <= u64::MAX,
    ;
    q as u64
}

/// One save as the save data screen lists it.
pub struct SaveDetail {
    pub cart_id: String,
    pub name: String,
    pub icon: String,
    /// Size in tenths of a megabyte, rounded up.
    pub size_tenths: u64,
}

/// The detail of one entry of a save directory, given its file name, the
/// `Name` attribute read from its metadata (empty when unreadable) and its
/// size in bytes (the file size of a `.tar`, the sum of the files of a
/// directory).
pub fn save_detail(cache_dir: &str, file_name: &str, name: String, size_bytes: u64) -> (r: SaveDetail)
    ensures
        r.cart_id@ == cart_id_spec(file_name@),
        r.name == name,
        r.icon@ == cache_dir@ + "/"@ + cart_id_spec(file_name@) + "/icon.png"@,
        r.size_tenths == tenths_of_mb(size_bytes as int),
{
    let id = cart_id_from_file_name(file_name);
    let icon = icon_path(cache_dir, id.as_str());
    let size = size_in_tenths_of_mb(size_bytes);
    SaveDetail { cart_id: id, name, icon, size_tenths: size }
}

/// The name a save is listed under: its `Name`, or its cartridge id when
/// that is empty.
pub open spec fn display_name(d: SaveDetail) -> Seq<char> {
    if d.name@.len() == 0 {
        d.cart_id@
    } else {
        d.name@
    }
}

/// The key the saves are sorted by: the display name in lower case.
pub open spec fn detail_key(d: SaveDetail) -> Seq<char> {
    lower_of(display_name(d))
}

fn copy_detail(d: &SaveDetail) -> (r: SaveDetail)
    ensures
        r == *d,
{
    SaveDetail {
        cart_id: d.cart_id.clone(),
        name: d.name.clone(),
        icon: d.icon.clone(),
        size_tenths: d.size_tenths,
    }
}

/// The saves sorted alphabetically by display name, ignoring case; saves
/// with equal keys keep their order.
pub fn sort_save_details(details: &Vec<SaveDetail>) -> (r: Vec<SaveDetail>)
    ensures
        is_stable_sort_of(details@, details@.map_values(|d: SaveDetail| detail_key(d)), r@),
{
    let ghost keys_spec = details@.map_values(|d: SaveDetail| detail_key(d));
    let mut keys: Vec<Vec<char>> = Vec::new();
    let mut i: usize = 0;
    while i < details.len()
        invariant
            0 <= i <= details.len(),
            keys_spec == details@.map_values(|d: SaveDetail| detail_key(d)),
            keys.len() == i,
            forall|j: int| 0 <= j < i ==> #[trigger] keys@[j]@ == keys_spec[j],
        decreases details.len() - i,
    {
        let d = &details[i];
        let shown = if crate::text::chars_of(d.name.as_str()).len() == 0 {
            d.cart_id.as_str()
        } else {
            d.name.as_str()
        };
        let low = crate::text::to_lower(shown);
        keys.push(crate::text::chars_of(low.as_str()));
        i = i + 1;
    }
    assert(keys@.map_values(|k: Vec<char>| k@) == keys_spec);
    let p = crate::sorting::stable_order(&keys);
    let ghost pv = p@.map_values(|x: usize| x as int);
    let mut r: Vec<SaveDetail> = Vec::new();
    let mut k: usize = 0;
    while k < p.len()
        invariant
            0 <= k <= p.len(),
            p.len() == details.len(),
            pv == p@.map_values(|x: usize| x as int),
            crate::sorting::is_stable_order(keys_spec, pv),
            r.len() == k,
            forall|j: int| 0 <= j < k ==> r@[j] == details@[#[trigger] pv[j]],
        decreases p.len() - k,
    {
        let idx = p[k];
        assert(pv[k as int] == idx as int);
        r.push(copy_detail(&details[idx]));
        k = k + 1;
    }
    r
}

// ---------------------------------------------------------------------
// Copying and deleting
// ---------------------------------------------------------------------

/// How a save is carried from one drive to another.
#[derive(PartialEq, Eq, Structural, Clone, Copy, Debug)]
pub enum CopyMode {
    /// Internal to external: the save directory is packed into a tar archive.
    PackArchive,
    /// External to internal: the archive is unpacked into a directory.
    UnpackArchive,
    /// External to external: the archive file is copied as it is.
    CopyArchive,
}

/// "Save file for <id> does not exist on '<drive>' drive"
pub open spec fn msg_missing(cart_id: Seq<char>, drive: Seq<char>) -> Seq<char> {
    "Save file for "@ + cart_id + " does not exist on '"@ + drive + "' drive"@
}

/// "Save file for <id> already exists on '<drive>'"
pub open spec fn msg_exists(cart_id: Seq<char>, drive: Seq<char>) -> Seq<char> {
    "Save file for "@ + cart_id + " already exists on '"@ + drive + "'"@
}

fn missing_message(cart_id: &str, drive: &str) -> (r: String)
    ensures
        r@ == msg_missing(cart_id@, drive@),
{
    let mut s = String::from_str("Save file for ");
    s.append(cart_id);
    s.append(" does not exist on '");
    s.append(drive);
    s.append("' drive");
    s
}

/// The decision `copy_save` takes before it touches any file.
pub open spec fn copy_plan_spec(
    cart_id: Seq<char>,
    from_drive: Seq<char>,
    to_drive: Seq<char>,
    from_dir_exists: bool,
    from_tar_exists: bool,
    to_dir_exists: bool,
    to_tar_exists: bool,
) -> Result<CopyMode, Seq<char>> {
    if from_drive == to_drive {
        Err("Cannot copy to same location"@)
    } else if !from_dir_exists && !from_tar_exists {
        Err(msg_missing(cart_id, from_drive))
    } else if to_dir_exists || to_tar_exists {
        Err(msg_exists(cart_id, to_drive))
    } else if from_drive == "internal"@ {
        Ok(CopyMode::PackArchive)
    } else if to_drive == "internal"@ {
        Ok(CopyMode::UnpackArchive)
    } else {
        Ok(CopyMode::CopyArchive)
    }
}

/// Decides whether and how a save can be copied, from whether the save
/// exists as a directory or a `.tar` on each side.
pub fn plan_copy(
    cart_id: &str,
    from_drive: &str,
    to_drive: &str,
    from_dir_exists: bool,
    from_tar_exists: bool,
    to_dir_exists: bool,
    to_tar_exists: bool,
) -> (r: Result<CopyMode, String>)
    ensures
        match (r, copy_plan_spec(cart_id@, from_drive@, to_drive@, from_dir_exists, from_tar_exists, to_dir_exists, to_tar_exists)) {
            (Ok(m), Ok(n)) => m == n,
            (Err(e), Err(f)) => e@ == f,
            _ => false,
        },
{
    if crate::text::str_eq(from_drive, to_drive) {
        return Err(String::from_str("Cannot copy to same location"));
    }
    if !from_dir_exists && !from_tar_exists {
        return Err(missing_message(cart_id, from_drive));
    }
    if to_dir_exists || to_tar_exists {
        let mut s = String::from_str("Save file for ");
        s.append(cart_id);
        s.append(" already exists on '");
        s.append(to_drive);
        s.append("'");
        return Err(s);
    }
    if crate::text::str_eq(from_drive, "internal") {
        Ok(CopyMode::PackArchive)
    } else if crate::text::str_eq(to_drive, "internal") {
        Ok(CopyMode::UnpackArchive)
    } else {
        Ok(CopyMode::CopyArchive)
    }
}

/// Where a copy is allowed (two different drives, the save present on the
/// source and absent from the destination), a copy out of the internal
/// drive packs the save directory into an archive, a copy into the
/// internal drive unpacks the archive, and a copy between two external
/// drives copies the archive as it is. A copy onto the same drive, of a
/// save that is not there, or over one that already is, is refused.
pub proof fn law_copy_direction(
    cart_id: Seq<char>,
    from_drive: Seq<char>,
    to_drive: Seq<char>,
    from_dir_exists: bool,
    from_tar_exists: bool,
    to_dir_exists: bool,
    to_tar_exists: bool,
)
    ensures
        ({
            let plan = copy_plan_spec(cart_id, from_drive, to_drive, from_dir_exists, from_tar_exists, to_dir_exists, to_tar_exists);
            let allowed = from_drive != to_drive && (from_dir_exists || from_tar_exists) && !to_dir_exists && !to_tar_exists;
            &&& allowed <==> plan is Ok
            &&& allowed && from_drive == "internal"@ ==> plan == Ok::<CopyMode, Seq<char>>(CopyMode::PackArchive)
            &&& allowed && to_drive == "internal"@ ==> plan == Ok::<CopyMode, Seq<char>>(CopyMode::UnpackArchive)
            &&& allowed && from_drive != "internal"@ && to_drive != "internal"@ ==> plan == Ok::<CopyMode, Seq<char>>(
                CopyMode::CopyArchive,
            )
            &&& from_drive == to_drive ==> plan == Err::<CopyMode, Seq<char>>("Cannot copy to same location"@)
            &&& from_drive != to_drive && !from_dir_exists && !from_tar_exists ==> plan == Err::<CopyMode, Seq<char>>(
                "Save file for "@ + cart_id + " does not exist on '"@ + from_drive + "' drive"@,
            )
            &&& from_drive != to_drive && (from_dir_exists || from_tar_exists) && (to_dir_exists || to_tar_exists)
                ==> plan == Err::<CopyMode, Seq<char>>("Save file for "@ + cart_id + " already exists on '"@ + to_drive + "'"@)
        }),
{
}

/// The internal drive's free space is that of the first disk whose mount
/// point is a prefix of the Kazeta base directory: no earlier disk holds
/// it; when no disk holds it there is none.
pub proof fn law_internal_disk(disks: Seq<MountedDisk>, dir: Seq<char>)
    ensures
        match containing_disk(disks, dir) {
            Some(k) => 0 <= k < disks.len() && starts_with(dir, disks[k].mount_point@) && forall|j: int|
                0 <= j < k ==> !starts_with(dir, #[trigger] disks[j].mount_point@),
            None => forall|j: int| 0 <= j < disks.len() ==> !starts_with(dir, #[trigger] disks[j].mount_point@),
        },
    decreases disks.len(),
{
    if disks.len() > 0 {
        let t = disks.drop_first();
        law_internal_disk(t, dir);
        assert forall|j: int| 0 < j < disks.len() implies disks[j] == #[trigger] t[j - 1] by {}
        if !starts_with(dir, disks[0].mount_point@) {
            match containing_disk(t, dir) {
                Some(i) => {
                    assert forall|j: int| 0 <= j < i + 1 implies !starts_with(dir, #[trigger] disks[j].mount_point@) by {
                        if j > 0 {
                            assert(disks[j] == t[j - 1]);
                        }
                    }
                    assert(disks[i + 1] == t[i]);
                },
                None => {
                    assert forall|j: int| 0 <= j < disks.len() implies !starts_with(dir, #[trigger] disks[j].mount_point@) by {
                        if j > 0 {
                            assert(disks[j] == t[j - 1]);
                        }
                    }
                },
            }
        }
    }
}

/// What a delete removes.
#[derive(PartialEq, Eq, Structural, Clone, Copy, Debug)]
pub enum DeleteTarget {
    /// The save directory on the internal drive.
    Directory,
    /// The `.tar` archive on an external drive.
    Archive,
}

/// Decides what deleting a save removes: an error when the save exists in
/// neither form; the directory on the internal drive, the archive elsewhere.
pub fn plan_delete(cart_id: &str, from_drive: &str, dir_exists: bool, tar_exists: bool) -> (r: Result<DeleteTarget, String>)
    ensures
        (!dir_exists && !tar_exists) <==> r is Err,
        r matches Err(e) ==> e@ == msg_missing(cart_id@, from_drive@),
        r matches Ok(t) ==> (t == DeleteTarget::Directory <==> from_drive@ == "internal"@),
{
    if !dir_exists && !tar_exists {
        return Err(missing_message(cart_id, from_drive));
    }
    if crate::text::str_eq(from_drive, "internal") {
        Ok(DeleteTarget::Directory)
    } else {
        Ok(DeleteTarget::Archive)
    }
}

/// What is removed again when a copy fails: the unpacked directory when the
/// target is the internal drive, the archive otherwise.
pub fn cleanup_target(to_drive: &str) -> (r: DeleteTarget)
    ensures
        r == DeleteTarget::Directory <==> to_drive@ == "internal"@,
{
    if crate::text::str_eq(to_drive, "internal") {
        DeleteTarget::Directory
    } else {
        DeleteTarget::Archive
    }
}

/// Copy progress in percent, `current * 100 / total`, as stored in a `u16`
/// (wrapping, as an `as u16` cast does).
pub fn progress_percent(current: u64, total: u64) -> (r: u16)
    requires
        total > 0,
        (current as int) * 100 <= u64::MAX,
    ensures
        r == ((current as int) * 100 / (total as int)) % 65536,
        current <= total ==> r <= 100,
{
    let p = current * 100 / total;
    assert(current <= total ==> p <= 100) by (nonlinear_arith)
        requires
            p == (current as int) * 100 / (total as int),
            total > 0,
    ;
    (p % 65536) as u16
}

/// The checks a copy makes of the amount of data it handled.
#[derive(PartialEq, Eq, Structural, Clone, Copy, Debug)]
pub enum CopyCheck {
    /// The files to pack, counted before packing.
    FilesToPack,
    /// The files added to the archive.
    FilesPacked,
    /// The size of the archive written.
    ArchiveWritten,
    /// The files unpacked from the archive.
    FilesUnpacked,
}

/// The error a copy reports when a count it checks is zero.
pub open spec fn empty_copy_message(check: CopyCheck) -> Seq<char> {
    match check {
        CopyCheck::FilesToPack => "No files found to archive"@,
        CopyCheck::FilesPacked => "No files were added to the archive"@,
        CopyCheck::ArchiveWritten => "Created archive is empty"@,
        CopyCheck::FilesUnpacked => "No files were extracted from the archive"@,
    }
}

/// A copy fails when one of its byte counts is zero.
pub fn check_copied_bytes(check: CopyCheck, bytes: u64) -> (r: Result<(), String>)
    ensures
        bytes == 0 <==> r is Err,
        r matches Err(e) ==> e@ == empty_copy_message(check),
{
    if bytes != 0 {
        return Ok(());
    }
    let m = match check {
        CopyCheck::FilesToPack => String::from_str("No files found to archive"),
        CopyCheck::FilesPacked => String::from_str("No files were added to the archive"),
        CopyCheck::ArchiveWritten => String::from_str("Created archive is empty"),
        CopyCheck::FilesUnpacked => String::from_str("No files were extracted from the archive"),
    };
    Err(m)
}

// ---------------------------------------------------------------------
// Storage devices
// ---------------------------------------------------------------------

/// A mounted disk: its mount point and the space available on it in bytes.
pub struct MountedDisk {
    pub mount_point: String,
    pub available: u64,
}

/// The last `/`-separated segment of a path (`str::split('/').last()`).
pub open spec fn last_segment(s: Seq<char>) -> Seq<char> {
    match crate::text::rfind_char(s, '/') {
        Some(i) => s.skip(i + 1),
        None => s,
    }
}

/// Megabytes, truncated, as stored in a `u32` (`as u32` wraps).
pub open spec fn mb_u32(bytes: int) -> int {
    (bytes / 1048576) % 0x1_0000_0000
}

/// The external drives among the mounted disks: those mounted under the
/// media base, named by the last segment of the mount point, except the
/// internal `frzr_efi` partition.
pub open spec fn external_devices_spec(disks: Seq<MountedDisk>, base: Seq<char>) -> Seq<(Seq<char>, int)>
    decreases disks.len(),
{
    if disks.len() == 0 {
        seq![]
    } else {
        let rest = external_devices_spec(disks.drop_last(), base);
        let d = disks.last();
        if starts_with(d.mount_point@, base) && last_segment(d.mount_point@) != "frzr_efi"@ {
            rest.push((last_segment(d.mount_point@), mb_u32(d.available as int)))
        } else {
            rest
        }
    }
}

/// Every external drive listed is named by the text after the last `/` of
/// the mount point of a disk mounted under the media base: the name holds
/// no `/`, the mount point ends with it, and a `/` (if anything) comes just
/// before it. None is named `frzr_efi`.
pub proof fn law_external_names(disks: Seq<MountedDisk>, base: Seq<char>)
    ensures
        forall|j: int| 0 <= j < external_devices_spec(disks, base).len() ==> {
            let name = #[trigger] external_devices_spec(disks, base)[j].0;
            &&& !name.contains('/')
            &&& name != "frzr_efi"@
            &&& exists|k: int| 0 <= k < disks.len() && {
                let mp = #[trigger] disks[k].mount_point@;
                &&& starts_with(mp, base)
                &&& mp.len() >= name.len()
                &&& mp.skip(mp.len() - name.len()) == name
                &&& mp.len() > name.len() ==> mp[mp.len() - name.len() - 1] == '/'
                &&& external_devices_spec(disks, base)[j].1 == mb_u32(disks[k].available as int)
            }
        },
    decreases disks.len(),
{
    if disks.len() > 0 {
        let p = disks.drop_last();
        law_external_names(p, base);
        let d = disks.last();
        let mp = d.mount_point@;
        crate::text::lemma_rfind_char(mp, '/');
        let seg = last_segment(mp);
        let all = external_devices_spec(disks, base);
        let rest = external_devices_spec(p, base);
        assert forall|j: int| 0 <= j < all.len() implies {
            let name = #[trigger] all[j].0;
            &&& !name.contains('/')
            &&& name != "frzr_efi"@
            &&& exists|k: int| 0 <= k < disks.len() && {
                let m = #[trigger] disks[k].mount_point@;
                &&& starts_with(m, base)
                &&& m.len() >= name.len()
                &&& m.skip(m.len() - name.len()) == name
                &&& m.len() > name.len() ==> m[m.len() - name.len() - 1] == '/'
                &&& all[j].1 == mb_u32(disks[k].available as int)
            }
        } by {
            if j < rest.len() {
                assert(all[j] == rest[j]);
                let name = rest[j].0;
                let k = choose|k: int| 0 <= k < p.len() && {
                    let m = #[trigger] p[k].mount_point@;
                    &&& starts_with(m, base)
                    &&& m.len() >= name.len()
                    &&& m.skip(m.len() - name.len()) == name
                    &&& m.len() > name.len() ==> m[m.len() - name.len() - 1] == '/'
                    &&& rest[j].1 == mb_u32(p[k].available as int)
                };
                assert(disks[k] == p[k]);
            } else {
                assert(all[j] == (seg, mb_u32(d.available as int)));
                let k = disks.len() - 1;
                assert(disks[k] == d);
                match crate::text::rfind_char(mp, '/') {
                    Some(i) => {
                        assert(seg == mp.skip(i + 1));
                        assert forall|x: int| 0 <= x < seg.len() implies seg[x] != '/' by {
                            assert(seg[x] == mp[i + 1 + x]);
                        }
                        assert(mp.skip(mp.len() - seg.len()) =~= seg);
                    },
                    None => {
                        assert(seg == mp);
                        assert(mp.skip(0) =~= mp);
                    },
                }
            }
        }
    }
}

/// The first disk whose mount point is a prefix of `dir`.
pub open spec fn containing_disk(disks: Seq<MountedDisk>, dir: Seq<char>) -> Option<int>
    decreases disks.len(),
{
    if disks.len() == 0 {
        None
    } else if starts_with(dir, disks[0].mount_point@) {
        Some(0)
    } else {
        match containing_disk(disks.drop_first(), dir) {
            Some(i) => Some(i + 1),
            None => None,
        }
    }
}

spec fn rfind_char_spec_is_some(s: Seq<char>) -> bool {
    crate::text::rfind_char(s, '/') is Some
}

/// `last_segment` on a character slice.
pub fn last_segment_of(s: &[char]) -> (r: Vec<char>)
    ensures
        r@ == last_segment(s@),
{
    proof { crate::text::lemma_rfind_char(s@, '/'); }
    let o = crate::paths::rfind_char_exec(s, '/');
    match o {
        Some(i) => {
            assert(rfind_char_spec_is_some(s@) && i < s.len());
            crate::text::slice_to_vec(s, i + 1, s.len())
        },
        None => crate::text::slice_to_vec(s, 0, s.len()),
    }
}

/// The storage devices the save data screen offers: the internal drive,
/// with the free space of the disk that holds the Kazeta base directory,
/// then the external drives. Fails when no disk holds the base directory.
pub fn list_devices(disks: &Vec<MountedDisk>, base_dir: &str, external_base: &str) -> (r: Result<Vec<(String, u32)>, String>)
    ensures
        match containing_disk(disks@, base_dir@) {
            None => r matches Err(e) && e@ == "Could not find internal disk"@,
            Some(k) => r matches Ok(v) && v.len() >= 1 && v@[0].0@ == "internal"@ && v@[0].1 == mb_u32(
                disks@[k].available as int,
            ) && v@.skip(1).map_values(|p: (String, u32)| (p.0@, p.1 as int))
                == external_devices_spec(disks@, external_base@),
        },
{
    let mut k: usize = 0;
    let ghost ds = disks@;
    assert(ds.skip(0) == ds);
    while k < disks.len() && !crate::text::str_starts_with(base_dir, disks[k].mount_point.as_str())
        invariant
            0 <= k <= disks.len(),
            ds == disks@,
            containing_disk(ds, base_dir@) == match containing_disk(ds.skip(k as int), base_dir@) {
                Some(i) => Some(i + k),
                None => None,
            },
        decreases disks.len() - k,
    {
        assert(ds.skip(k as int)[0] == ds[k as int]);
        assert(ds.skip(k as int).drop_first() == ds.skip(k + 1));
        k = k + 1;
    }
    if k == disks.len() {
        assert(ds.skip(k as int).len() == 0);
        return Err(String::from_str("Could not find internal disk"));
    }
    assert(ds.skip(k as int)[0] == ds[k as int]);
    let mut v: Vec<(String, u32)> = Vec::new();
    let free = ((disks[k].available / 1048576) % 0x1_0000_0000) as u32;
    v.push((String::from_str("internal"), free));
    let ghost base = external_base@;
    let mut i: usize = 0;
    while i < disks.len()
        invariant
            0 <= i <= disks.len(),
            v.len() >= 1,
            v@[0].0@ == "internal"@,
            v@[0].1 == free,
            base == external_base@,
            v@.skip(1).map_values(|p: (String, u32)| (p.0@, p.1 as int)) == external_devices_spec(
                disks@.take(i as int),
                base,
            ),
        decreases disks.len() - i,
    {
        let d = &disks[i];
        let mp = crate::text::chars_of(d.mount_point.as_str());
        let seg = last_segment_of(mp.as_slice());
        let frzr = crate::text::chars_of("frzr_efi");
        proof {
            assert(disks@.take(i + 1).drop_last() == disks@.take(i as int));
            assert(disks@.take(i + 1).last() == disks@[i as int]);
        }
        if crate::text::str_starts_with(d.mount_point.as_str(), external_base) && !crate::text::seq_eq(
            seg.as_slice(),
            frzr.as_slice(),
        ) {
            let mb = ((d.available / 1048576) % 0x1_0000_0000) as u32;
            let ghost old_v = v@;
            v.push((crate::text::string_from(seg.as_slice()), mb));
            proof {
                assert(v@.skip(1) == old_v.skip(1).push(v@[v.len() - 1]));
            }
        }
        i = i + 1;
    }
    assert(disks@.take(disks.len() as int) == disks@);
    Ok(v)
}

// ---------------------------------------------------------------------
// Searching for files by extension
// ---------------------------------------------------------------------

/// ASCII case folding of one character, as a code point.
pub open spec fn ascii_lower(c: char) -> u32 {
    if 'A' <= c && c <= 'Z' {
        ((c as u32) + 32) as u32
    } else {
        c as u32
    }
}

/// `str::eq_ignore_ascii_case`.
pub open spec fn eq_ignore_ascii_case(a: Seq<char>, b: Seq<char>) -> bool {
    a.len() == b.len() && forall|i: int| 0 <= i < a.len() ==> ascii_lower(#[trigger] a[i]) == ascii_lower(b[i])
}

fn ascii_lower_exec(c: char) -> (r: u32)
    ensures
        r == ascii_lower(c),
{
    if 'A' <= c && c <= 'Z' {
        c as u32 + 32
    } else {
        c as u32
    }
}

/// Whether two strings are equal up to ASCII case.
pub fn eq_ignore_ascii_case_exec(a: &[char], b: &[char]) -> (r: bool)
    ensures
        r == eq_ignore_ascii_case(a@, b@),
{
    if a.len() != b.len() {
        return false;
    }
    let mut i: usize = 0;
    while i < a.len()
        invariant
            a.len() == b.len(),
            0 <= i <= a.len(),
            forall|j: int| 0 <= j < i ==> ascii_lower(#[trigger] a@[j]) == ascii_lower(b@[j]),
        decreases a.len() - i,
    {
        if ascii_lower_exec(a[i]) != ascii_lower_exec(b[i]) {
            return false;
        }
        i = i + 1;
    }
    true
}

/// One entry met while searching: its path, its kind, and its file name.
pub struct SearchEntry {
    pub path: String,
    pub file_name: String,
    pub is_file: bool,
    pub is_dir: bool,
}

/// What one directory of a breadth-first search yields.
pub struct SearchLevel {
    /// The files with the wanted extension, in listing order.
    pub matches: Vec<String>,
    /// The subdirectories to search next, in listing order.
    pub subdirs: Vec<String>,
    /// Whether the search stops here (a match was found and only the first
    /// one is wanted).
    pub stop: bool,
}

/// Whether an entry is a file whose extension equals `ext` up to ASCII case.
pub open spec fn entry_matches(e: SearchEntry, ext: Seq<char>) -> bool {
    e.is_file && match extension(e.file_name@) {
        Some(x) => eq_ignore_ascii_case(x, ext),
        None => false,
    }
}

/// The matches among `entries`, in order.
pub open spec fn level_matches(entries: Seq<SearchEntry>, ext: Seq<char>) -> Seq<Seq<char>> {
    entries.filter(|e: SearchEntry| entry_matches(e, ext)).map_values(|e: SearchEntry| e.path@)
}

/// The subdirectories among `entries` that are descended into.
pub open spec fn level_subdirs(entries: Seq<SearchEntry>, ext: Seq<char>, descend: bool) -> Seq<Seq<char>> {
    if descend {
        entries.filter(|e: SearchEntry| !e.is_file && e.is_dir).map_values(|e: SearchEntry| e.path@)
    } else {
        seq![]
    }
}

/// The decision `find_files_by_extension` takes for one directory at
/// `depth`: the files with extension `ext` (up to ASCII case), and, when
/// `depth < max_depth`, the subdirectories to search next. With
/// `find_first`, the search stops at the first match and reports it alone.
pub fn search_level(entries: &Vec<SearchEntry>, ext: &str, depth: usize, max_depth: usize, find_first: bool) -> (r: SearchLevel)
    ensures
        !find_first ==> !r.stop && crate::sorting::views(r.matches@) == level_matches(entries@, ext@)
            && crate::sorting::views(r.subdirs@) == level_subdirs(entries@, ext@, depth < max_depth),
        find_first ==> (r.stop <==> level_matches(entries@, ext@).len() > 0),
        find_first && r.stop ==> crate::sorting::views(r.matches@) == seq![level_matches(entries@, ext@)[0]],
        find_first && !r.stop ==> r.matches.len() == 0
            && crate::sorting::views(r.subdirs@) == level_subdirs(entries@, ext@, depth < max_depth),
{
    let e = crate::text::chars_of(ext);
    let ghost mf = |x: SearchEntry| entry_matches(x, ext@);
    let ghost df = |x: SearchEntry| !x.is_file && x.is_dir;
    let descend = depth < max_depth;
    let mut matches: Vec<String> = Vec::new();
    let mut subdirs: Vec<String> = Vec::new();
    let mut i: usize = 0;
    while i < entries.len()
        invariant
            0 <= i <= entries.len(),
            e@ == ext@,
            descend == (depth < max_depth),
            mf == (|x: SearchEntry| entry_matches(x, ext@)),
            df == (|x: SearchEntry| !x.is_file && x.is_dir),
            crate::sorting::views(matches@) == entries@.take(i as int).filter(mf).map_values(|x: SearchEntry| x.path@),
            crate::sorting::views(subdirs@) == level_subdirs(entries@.take(i as int), ext@, descend),
            find_first ==> matches.len() == 0,
        decreases entries.len() - i,
    {
        let en = &entries[i];
        let name = crate::text::chars_of(en.file_name.as_str());
        let is_match = if en.is_file {
            match crate::paths::file_extension(name.as_slice()) {
                Some(x) => eq_ignore_ascii_case_exec(x.as_slice(), e.as_slice()),
                None => false,
            }
        } else {
            false
        };
        let ghost pre = entries@.take(i as int);
        proof {
            assert(entries@.take(i + 1) == pre.push(entries@[i as int]));
            pre.lemma_filter_push(entries@[i as int], mf);
            pre.lemma_filter_push(entries@[i as int], df);
            assert(is_match == mf(entries@[i as int]));
        }
        proof {
            let mp = |x: SearchEntry| x.path@;
            if is_match {
                assert(entries@.take(i + 1).filter(mf) == pre.filter(mf).push(entries@[i as int]));
                assert(entries@.take(i + 1).filter(mf).map_values(mp) == pre.filter(mf).map_values(mp).push(en.path@));
            } else {
                assert(entries@.take(i + 1).filter(mf) == pre.filter(mf));
            }
            if !en.is_file && en.is_dir {
                assert(entries@.take(i + 1).filter(df) == pre.filter(df).push(entries@[i as int]));
                assert(entries@.take(i + 1).filter(df).map_values(mp) == pre.filter(df).map_values(mp).push(en.path@));
            } else {
                assert(entries@.take(i + 1).filter(df) == pre.filter(df));
            }
            assert(pre.filter(mf).map_values(mp).len() == pre.filter(mf).len());
        }
        if is_match {
            matches.push(en.path.clone());
            proof {
                assert(crate::sorting::views(matches@) == crate::sorting::views(matches@.drop_last()).push(en.path@));
            }
            if find_first {
                proof {
                    // this is the first match of all entries
                    assert(pre.filter(mf).len() == 0);
                    assert(entries@.take(i + 1).filter(mf) == seq![entries@[i as int]]);
                    lemma_filter_prefix_first(entries@, mf, i as int);
                }
                return SearchLevel { matches, subdirs: Vec::new(), stop: true };
            }
        } else if !en.is_file && en.is_dir && descend {
            subdirs.push(en.path.clone());
            proof {
                assert(crate::sorting::views(subdirs@) == crate::sorting::views(subdirs@.drop_last()).push(en.path@));
            }
        }
        i = i + 1;
    }
    proof {
        assert(entries@.take(entries.len() as int) == entries@);
        if find_first {
            assert(entries@.filter(mf).len() == 0);
        }
    }
    SearchLevel { matches, subdirs, stop: false }
}

/// Whether the directory a search starts from can be listed.
pub enum SearchRoot {
    /// It does not exist.
    Missing,
    /// It exists but cannot be listed; the error's text.
    Unreadable(String),
    Readable,
}

/// A breadth-first search for files by extension, higher directories
/// first: the directories still to list with their depth, in order, and
/// the files found so far.
pub struct FileSearch {
    pub queue: Vec<(String, usize)>,
    pub found: Vec<String>,
    pub ext: String,
    pub max_depth: usize,
    pub find_first: bool,
}

/// The queue of a search by views.
pub open spec fn queue_view(q: Seq<(String, usize)>) -> Seq<(Seq<char>, usize)> {
    q.map_values(|e: (String, usize)| (e.0@, e.1))
}

/// Directories queued at depth `d`.
pub open spec fn at_depth(paths: Seq<Seq<char>>, d: usize) -> Seq<(Seq<char>, usize)> {
    paths.map_values(|p: Seq<char>| (p, d))
}

/// A listing by its view.
pub open spec fn listing_view(l: Option<Vec<SearchEntry>>) -> Option<Seq<SearchEntry>> {
    match l {
        Some(v) => Some(v@),
        None => None,
    }
}

/// One step of a search (see `search_step`) on the queue and the files
/// found: the directory at the front is taken with its listing.
pub open spec fn step_model(
    q: Seq<(Seq<char>, usize)>,
    found: Seq<Seq<char>>,
    listing: Option<Seq<SearchEntry>>,
    ext: Seq<char>,
    max_depth: usize,
    first: bool,
) -> (Seq<(Seq<char>, usize)>, Seq<Seq<char>>) {
    let d = q[0].1;
    match listing {
        None => (q.skip(1), found),
        Some(es) => {
            let m = level_matches(es, ext);
            if first && m.len() > 0 {
                (seq![], found.push(m[0]))
            } else {
                (q.skip(1) + at_depth(level_subdirs(es, ext, d < max_depth), (d + 1) as usize), found + m)
            }
        },
    }
}

/// The files a search finds in at most `steps` steps when `tree` gives the
/// listing of each directory (`None` for one that cannot be listed).
pub open spec fn search_model(
    q: Seq<(Seq<char>, usize)>,
    found: Seq<Seq<char>>,
    tree: spec_fn(Seq<char>) -> Option<Seq<SearchEntry>>,
    ext: Seq<char>,
    max_depth: usize,
    first: bool,
    steps: nat,
) -> Seq<Seq<char>>
    decreases steps,
{
    if steps == 0 || q.len() == 0 {
        found
    } else {
        let (q2, f2) = step_model(q, found, tree(q[0].0), ext, max_depth, first);
        search_model(q2, f2, tree, ext, max_depth, first, (steps - 1) as nat)
    }
}

/// A search only adds to the files already found.
proof fn lemma_search_keeps_found(
    q: Seq<(Seq<char>, usize)>,
    found: Seq<Seq<char>>,
    tree: spec_fn(Seq<char>) -> Option<Seq<SearchEntry>>,
    ext: Seq<char>,
    max_depth: usize,
    first: bool,
    steps: nat,
)
    ensures
        search_model(q, found, tree, ext, max_depth, first, steps).len() >= found.len(),
        search_model(q, found, tree, ext, max_depth, first, steps).take(found.len() as int) == found,
    decreases steps,
{
    if steps > 0 && q.len() > 0 {
        let (q2, f2) = step_model(q, found, tree(q[0].0), ext, max_depth, first);
        lemma_search_keeps_found(q2, f2, tree, ext, max_depth, first, (steps - 1) as nat);
        let r = search_model(q2, f2, tree, ext, max_depth, first, (steps - 1) as nat);
        assert(f2.take(found.len() as int) =~= found);
        assert(r.take(found.len() as int) =~= f2.take(found.len() as int));
    }
}

/// From the same queue and nothing found yet, a search for the first match
/// finds the first file of the full search, or nothing when it finds none.
proof fn lemma_first_of_full(
    q: Seq<(Seq<char>, usize)>,
    tree: spec_fn(Seq<char>) -> Option<Seq<SearchEntry>>,
    ext: Seq<char>,
    max_depth: usize,
    steps: nat,
)
    ensures
        ({
            let all = search_model(q, seq![], tree, ext, max_depth, false, steps);
            search_model(q, seq![], tree, ext, max_depth, true, steps) == all.take(if all.len() > 0 { 1int } else { 0 })
        }),
    decreases steps,
{
    let all = search_model(q, seq![], tree, ext, max_depth, false, steps);
    if steps == 0 || q.len() == 0 {
        assert(all.take(0) =~= Seq::<Seq<char>>::empty());
    } else {
        let l = tree(q[0].0);
        let (qa, fa) = step_model(q, seq![], l, ext, max_depth, false);
        let (qo, fo) = step_model(q, seq![], l, ext, max_depth, true);
        match l {
            None => {
                lemma_first_of_full(qa, tree, ext, max_depth, (steps - 1) as nat);
            },
            Some(es) => {
                let m = level_matches(es, ext);
                if m.len() > 0 {
                    assert(qo.len() == 0);
                    assert(search_model(qo, fo, tree, ext, max_depth, true, (steps - 1) as nat) == fo);
                    lemma_search_keeps_found(qa, fa, tree, ext, max_depth, false, (steps - 1) as nat);
                    assert(fa =~= m);
                    assert(all.take(m.len() as int) == m);
                    assert(all.take(1) =~= seq![m[0]]);
                    assert(fo =~= seq![m[0]]);
                } else {
                    assert(fa =~= Seq::<Seq<char>>::empty());
                    assert(qa == qo && fa == fo);
                    lemma_first_of_full(qa, tree, ext, max_depth, (steps - 1) as nat);
                }
            },
        }
    }
}

/// A search for the first match only gives the first file the full search
/// finds (breadth first), or nothing when the full search finds nothing:
/// whatever the directories hold and however many steps are taken.
pub proof fn law_first_only(
    root: Seq<char>,
    tree: spec_fn(Seq<char>) -> Option<Seq<SearchEntry>>,
    ext: Seq<char>,
    max_depth: usize,
    steps: nat,
)
    ensures
        ({
            let q = seq![(root, 0usize)];
            let all = search_model(q, seq![], tree, ext, max_depth, false, steps);
            &&& search_model(q, seq![], tree, ext, max_depth, true, steps) == all.take(
                if all.len() > 0 { 1int } else { 0 },
            )
            &&& search_model(q, seq![], tree, ext, max_depth, true, steps).len() <= 1
        }),
{
    lemma_first_of_full(seq![(root, 0usize)], tree, ext, max_depth, steps);
}

/// Starts a search at `root`: only a root that is missing or cannot be
/// listed is an error (`Directory does not exist: ` and the root, or the
/// listing's error); directories further down that cannot be listed are
/// skipped by `search_step`.
pub fn start_search(root: &str, access: SearchRoot, ext: &str, max_depth: usize, find_first: bool) -> (r: Result<FileSearch, String>)
    ensures
        match access {
            SearchRoot::Missing => r matches Err(m) && m@ == "Directory does not exist: "@ + root@,
            SearchRoot::Unreadable(e) => r matches Err(m) && m@ == e@,
            SearchRoot::Readable => r matches Ok(s) && queue_view(s.queue@) == seq![(root@, 0usize)]
                && s.found@.len() == 0 && s.ext@ == ext@ && s.max_depth == max_depth && s.find_first == find_first,
        },
{
    match access {
        SearchRoot::Missing => {
            let mut m = String::from_str("Directory does not exist: ");
            m.append(root);
            Err(m)
        },
        SearchRoot::Unreadable(e) => Err(e),
        SearchRoot::Readable => {
            let mut queue: Vec<(String, usize)> = Vec::new();
            queue.push((String::from_str(root), 0));
            assert(queue_view(queue@) =~= seq![(root@, 0usize)]);
            Ok(FileSearch { queue, found: Vec::new(), ext: String::from_str(ext), max_depth, find_first })
        },
    }
}

/// The directory to list next, or `None` when the search is over.
pub fn next_dir(s: &FileSearch) -> (r: Option<String>)
    ensures
        s.queue@.len() == 0 ==> r is None,
        s.queue@.len() > 0 ==> (r matches Some(d) && d@ == s.queue@[0].0@),
{
    if s.queue.len() == 0 {
        None
    } else {
        Some(s.queue[0].0.clone())
    }
}

/// Takes the listing of the directory at the front of the queue (`None`
/// when it could not be listed, which skips it). Its matching files join
/// those found; with `find_first` the first match ends the search;
/// otherwise, below `max_depth`, its subdirectories join the end of the
/// queue one level deeper.
pub fn search_step(s: &mut FileSearch, listing: Option<Vec<SearchEntry>>)
    requires
        old(s).queue@.len() > 0,
    ensures
        final(s).ext == old(s).ext,
        final(s).max_depth == old(s).max_depth,
        final(s).find_first == old(s).find_first,
        (queue_view(final(s).queue@), crate::sorting::views(final(s).found@)) == step_model(
            queue_view(old(s).queue@),
            crate::sorting::views(old(s).found@),
            listing_view(listing),
            old(s).ext@,
            old(s).max_depth,
            old(s).find_first,
        ),
        ({
            let d = old(s).queue@[0].1;
            let rest = queue_view(old(s).queue@.skip(1));
            match listing {
                None => queue_view(final(s).queue@) == rest && final(s).found@ == old(s).found@,
                Some(es) => {
                    let m = level_matches(es@, old(s).ext@);
                    if old(s).find_first && m.len() > 0 {
                        &&& final(s).queue@.len() == 0
                        &&& crate::sorting::views(final(s).found@) == crate::sorting::views(old(s).found@).push(m[0])
                    } else {
                        &&& crate::sorting::views(final(s).found@) == crate::sorting::views(old(s).found@) + m
                        &&& queue_view(final(s).queue@) == rest + at_depth(
                            level_subdirs(es@, old(s).ext@, d < old(s).max_depth),
                            (d + 1) as usize,
                        )
                    }
                },
            }
        }),
{
    let ghost q0 = s.queue@;
    let ghost f0 = s.found@;
    let front = s.queue.remove(0);
    let depth = front.1;
    assert(s.queue@ == q0.skip(1));
    match listing {
        None => {},
        Some(es) => {
            let mut lvl = search_level(&es, s.ext.as_str(), depth, s.max_depth, s.find_first);
            let ghost m = level_matches(es@, s.ext@);
            let ghost mv = crate::sorting::views(lvl.matches@);
            let ghost sub = crate::sorting::views(lvl.subdirs@);
            let ghost ml = lvl.matches@;
            s.found.append(&mut lvl.matches);
            proof {
                assert(s.found@ == f0 + ml);
                assert(crate::sorting::views(s.found@) =~= crate::sorting::views(f0) + mv);
            }
            if lvl.stop {
                s.queue = Vec::new();
                proof {
                    assert(mv == seq![m[0]]);
                    assert(crate::sorting::views(f0) + mv =~= crate::sorting::views(f0).push(m[0]));
                }
                return;
            }
            proof {
                if s.find_first {
                    assert(m.len() == 0);
                    assert(mv =~= m);
                }
            }
            let ghost qs = s.queue@;
            assert(sub.len() > 0 ==> depth < s.max_depth);
            let mut k: usize = 0;
            while k < lvl.subdirs.len()
                invariant
                    0 <= k <= lvl.subdirs.len(),
                    sub == crate::sorting::views(lvl.subdirs@),
                    sub.len() > 0 ==> depth < s.max_depth,
                    s.ext == old(s).ext,
                    s.max_depth == old(s).max_depth,
                    s.find_first == old(s).find_first,
                    s.found@ == f0 + ml,
                    queue_view(s.queue@) == queue_view(qs) + at_depth(sub.take(k as int), (depth + 1) as usize),
                decreases lvl.subdirs.len() - k,
            {
                let ghost before = s.queue@;
                s.queue.push((lvl.subdirs[k].clone(), depth + 1));
                proof {
                    assert(s.queue@ == before.push((lvl.subdirs@[k as int], (depth + 1) as usize)));
                    assert(sub.take(k + 1) == sub.take(k as int).push(sub[k as int]));
                    assert(queue_view(s.queue@) =~= queue_view(before).push((sub[k as int], (depth + 1) as usize)));
                    assert(at_depth(sub.take(k + 1), (depth + 1) as usize) =~= at_depth(sub.take(k as int), (depth + 1) as usize).push(
                        (sub[k as int], (depth + 1) as usize),
                    ));
                }
                k = k + 1;
            }
            proof {
                assert(sub.take(sub.len() as int) =~= sub);
            }
        },
    }
}

/// When no entry before `i` satisfies `f` and entry `i` does, it is the
/// first of the filtered sequence.
proof fn lemma_filter_prefix_first(s: Seq<SearchEntry>, f: spec_fn(SearchEntry) -> bool, i: int)
    requires
        0 <= i < s.len(),
        s.take(i).filter(f).len() == 0,
        f(s[i]),
    ensures
        s.filter(f).len() > 0,
        s.filter(f)[0] == s[i],
    decreases s.len() - i,
{
    if i == s.len() - 1 {
        assert(s.take(i + 1) == s);
        s.take(i).lemma_filter_push(s[i], f);
        assert(s == s.take(i).push(s[i]));
    } else {
        let t = s.drop_last();
        assert(t.take(i) == s.take(i));
        lemma_filter_prefix_first(t, f, i);
        t.lemma_filter_push(s.last(), f);
        assert(s == t.push(s.last()));
    }
}

// ---------------------------------------------------------------------
// Memories (the saves of one drive as the data screen holds them)
// ---------------------------------------------------------------------

/// One save as the data screen holds it.
pub struct Memory {
    pub id: String,
    pub name: Option<String>,
    pub drive_name: String,
}

/// Whether a save with the same cartridge id is among `memories`
/// (`check_save_exists` once the target's saves are loaded).
pub fn contains_memory_id(memories: &Vec<Memory>, id: &str) -> (r: bool)
    ensures
        r == exists|i: int| 0 <= i < memories.len() && #[trigger] memories@[i].id@ == id@,
{
    let mut i: usize = 0;
    while i < memories.len()
        invariant
            0 <= i <= memories.len(),
            forall|j: int| 0 <= j < i ==> #[trigger] memories@[j].id@ != id@,
        decreases memories.len() - i,
    {
        if crate::text::str_eq(memories[i].id.as_str(), id) {
            return true;
        }
        i = i + 1;
    }
    false
}

/// The memories of a drive built from its save details, and the icons to
/// load: every save whose icon is not cached yet (`cached[i]` tells).
#[verifier::spinoff_prover]
pub fn load_memories(details: &Vec<SaveDetail>, drive_name: &str, cached: &Vec<bool>) -> (r: (Vec<Memory>, Vec<(String, String)>))
    requires
        cached.len() == details.len(),
    ensures
        r.0.len() == details.len(),
        forall|i: int| 0 <= i < details.len() ==> {
            &&& #[trigger] r.0@[i].id == details@[i].cart_id
            &&& r.0@[i].name == Some(details@[i].name)
            &&& r.0@[i].drive_name@ == drive_name@
        },
        r.1@.map_values(|q: (String, String)| (q.0@, q.1@)) == uncached_icons(details@, cached@),
{
    let mut ms: Vec<Memory> = Vec::new();
    let mut queue: Vec<(String, String)> = Vec::new();
    let mut i: usize = 0;
    while i < details.len()
        invariant
            0 <= i <= details.len(),
            cached.len() == details.len(),
            ms.len() == i,
            forall|j: int| 0 <= j < i ==> {
                &&& #[trigger] ms@[j].id == details@[j].cart_id
                &&& ms@[j].name == Some(details@[j].name)
                &&& ms@[j].drive_name@ == drive_name@
            },
            queue@.map_values(|q: (String, String)| (q.0@, q.1@)) == uncached_icons(details@.take(i as int), cached@.take(i as int)),
        decreases details.len() - i,
    {
        let d = &details[i];
        proof {
            assert(details@.take(i + 1).drop_last() == details@.take(i as int));
            assert(cached@.take(i + 1).drop_last() == cached@.take(i as int));
        }
        if !cached[i] {
            let ghost old_q = queue@;
            queue.push((d.cart_id.clone(), d.icon.clone()));
            assert(queue@ == old_q.push(queue@[queue.len() - 1]));
        }
        ms.push(Memory { id: d.cart_id.clone(), name: Some(d.name.clone()), drive_name: String::from_str(drive_name) });
        i = i + 1;
    }
    proof {
        assert(details@.take(details.len() as int) == details@);
        assert(cached@.take(cached.len() as int) == cached@);
    }
    (ms, queue)
}

/// The (cartridge id, icon path) pairs of the saves whose icon is not cached.
pub open spec fn uncached_icons(details: Seq<SaveDetail>, cached: Seq<bool>) -> Seq<(Seq<char>, Seq<char>)>
    decreases details.len(),
{
    if details.len() == 0 || cached.len() == 0 {
        seq![]
    } else {
        let rest = uncached_icons(details.drop_last(), cached.drop_last());
        if !cached.last() {
            rest.push((details.last().cart_id@, details.last().icon@))
        } else {
            rest
        }
    }
}

} // verus!

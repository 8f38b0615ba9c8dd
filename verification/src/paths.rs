//! Where the BIOS keeps its files: path joining, file extensions, and the
//! directories derived from the home directory and the drive names.
use vstd::prelude::*;
use crate::text::{chars_of, string_from, starts_with, ends_with, rfind_char, contains};

verus! {

/// `PathBuf::push` on Unix: an absolute `p` replaces `base`; otherwise `p`
/// is appended, with a `/` between when `base` is non-empty and does not
/// already end in one.
pub open spec fn join(base: Seq<char>, p: Seq<char>) -> Seq<char> {
    if p.len() > 0 && p[0] == '/' {
        p
    } else if base.len() == 0 {
        p
    } else if base.last() == '/' {
        base + p
    } else {
        base + seq!['/'] + p
    }
}

/// `Path::extension` of a file name: the part after the last `.`, when that
/// dot is not the first character; `..` has none.
pub open spec fn extension(name: Seq<char>) -> Option<Seq<char>> {
    if name == seq!['.', '.'] {
        None
    } else {
        match rfind_char(name, '.') {
            None => None,
            Some(i) => if i == 0 {
                None
            } else {
                Some(name.skip(i + 1))
            },
        }
    }
}

/// `join` on character slices.
pub fn join_chars(base: &[char], p: &[char]) -> (r: Vec<char>)
    ensures
        r@ == join(base@, p@),
{
    if p.len() > 0 && p[0] == '/' {
        return crate::text::slice_to_vec(p, 0, p.len());
    }
    let mut r = crate::text::slice_to_vec(base, 0, base.len());
    assert(p@.subrange(0, p.len() as int) == p@);
    assert(base@.subrange(0, base.len() as int) == base@);
    if base.len() > 0 && base[base.len() - 1] != '/' {
        r.push('/');
    }
    crate::text::push_all(&mut r, p);
    r
}

/// Joins two path strings as `Path::join` does.
pub fn path_join(base: &str, p: &str) -> (r: String)
    ensures
        r@ == join(base@, p@),
{
    let b = chars_of(base);
    let q = chars_of(p);
    let j = join_chars(b.as_slice(), q.as_slice());
    string_from(j.as_slice())
}

/// Index of the last `c` in `s`, as `str::rfind` counts it in characters.
pub fn rfind_char_exec(s: &[char], c: char) -> (r: Option<usize>)
    ensures
        match rfind_char(s@, c) {
            Some(i) => r == Some(i as usize),
            None => r is None,
        },
{
    let mut i = s.len();
    assert(s@.take(s.len() as int) == s@);
    while i > 0
        invariant
            0 <= i <= s.len(),
            rfind_char(s@, c) == rfind_char(s@.take(i as int), c),
        decreases i,
    {
        proof {
            assert(s@.take(i as int).drop_last() == s@.take(i - 1));
        }
        if s[i - 1] == c {
            return Some(i - 1);
        }
        i = i - 1;
    }
    None
}

/// `Path::extension` of a file name.
pub fn file_extension(name: &[char]) -> (r: Option<Vec<char>>)
    ensures
        match extension(name@) {
            Some(e) => r is Some && r->0@ == e,
            None => r is None,
        },
{
    if name.len() == 2 && name[0] == '.' && name[1] == '.' {
        assert(name@ == seq!['.', '.']);
        return None;
    }
    assert(name@ != seq!['.', '.']) by {
        if name@ == seq!['.', '.'] {
            assert(name@[0] == '.' && name@[1] == '.');
        }
    }
    proof { crate::text::lemma_rfind_char(name@, '.'); }
    match rfind_char_exec(name, '.') {
        None => None,
        Some(i) => if i == 0 {
            None
        } else {
            let v = crate::text::slice_to_vec(name, i + 1, name.len());
            Some(v)
        },
    }
}

/// The Kazeta+ data directory under the home directory
/// (`~/.local/share/kazeta-plus`).
pub fn get_user_data_dir(home: &str) -> (r: String)
    ensures
        r@ == join(home@, ".local/share/kazeta-plus"@),
{
    path_join(home, ".local/share/kazeta-plus")
}

/// The configuration file inside the data directory.
pub fn config_file_path(user_data_dir: &str) -> (r: String)
    ensures
        r@ == join(user_data_dir@, "kazeta.toml"@),
{
    path_join(user_data_dir, "kazeta.toml")
}

/// The base directory of the Kazeta session data (`~/.local/share/kazeta`).
pub fn kazeta_base_dir(home: &str) -> (r: String)
    ensures
        r@ == join(home@, ".local/share/kazeta"@),
{
    path_join(home, ".local/share/kazeta")
}

/// Whether a drive name stands for the internal storage: `"internal"` or
/// the empty name.
pub open spec fn is_internal_drive(drive_name: Seq<char>) -> bool {
    drive_name == "internal"@ || drive_name.len() == 0
}

/// Where removable media are mounted: `/media` when it has entries;
/// otherwise `/run/media/<user>` when that exists, else `/run/media`.
pub open spec fn external_base_spec(media_has_entries: bool, user_dir_exists: bool, username: Seq<char>) -> Seq<char> {
    if media_has_entries {
        "/media"@
    } else if user_dir_exists {
        "/run/media/"@ + username
    } else {
        "/run/media"@
    }
}

/// Where external drives are mounted: `/media` when it has entries, else
/// the user's folder under `/run/media` when it exists, else `/run/media`.
pub fn external_media_base(media_has_entries: bool, user_dir_exists: bool, username: &str) -> (r: String)
    ensures
        r@ == external_base_spec(media_has_entries, user_dir_exists, username@),
{
    if media_has_entries {
        String::from_str("/media")
    } else if user_dir_exists {
        let mut s = String::from_str("/run/media/");
        s.append(username);
        s
    } else {
        String::from_str("/run/media")
    }
}

/// The save directory of a drive: `saves/default` under the Kazeta base for
/// the internal drive, `<drive>/kazeta/saves` under the media base otherwise.
pub open spec fn save_dir_spec(drive_name: Seq<char>, home: Seq<char>, external_base: Seq<char>) -> Seq<char> {
    if is_internal_drive(drive_name) {
        join(join(home, ".local/share/kazeta"@), "saves/default"@)
    } else {
        join(join(external_base, drive_name), "kazeta/saves"@)
    }
}

/// The icon and metadata cache directory of a drive.
pub open spec fn cache_dir_spec(drive_name: Seq<char>, home: Seq<char>, external_base: Seq<char>) -> Seq<char> {
    if is_internal_drive(drive_name) {
        join(join(home, ".local/share/kazeta"@), "cache"@)
    } else {
        join(join(external_base, drive_name), "kazeta/cache"@)
    }
}

/// Whether a drive name stands for the internal storage.
pub fn drive_is_internal(drive_name: &str) -> (r: bool)
    ensures
        r == is_internal_drive(drive_name@),
{
    crate::text::str_eq(drive_name, "internal") || chars_of(drive_name).len() == 0
}

/// The save directory of a drive (the directory itself is created by the
/// caller).
pub fn get_save_dir_from_drive_name(drive_name: &str, home: &str, external_base: &str) -> (r: String)
    ensures
        r@ == save_dir_spec(drive_name@, home@, external_base@),
{
    if drive_is_internal(drive_name) {
        let base = kazeta_base_dir(home);
        path_join(base.as_str(), "saves/default")
    } else {
        let d = path_join(external_base, drive_name);
        path_join(d.as_str(), "kazeta/saves")
    }
}

/// The cache directory of a drive (the directory itself is created by the
/// caller).
pub fn get_cache_dir_from_drive_name(drive_name: &str, home: &str, external_base: &str) -> (r: String)
    ensures
        r@ == cache_dir_spec(drive_name@, home@, external_base@),
{
    if drive_is_internal(drive_name) {
        let base = kazeta_base_dir(home);
        path_join(base.as_str(), "cache")
    } else {
        let d = path_join(external_base, drive_name);
        path_join(d.as_str(), "kazeta/cache")
    }
}

/// The mount point of an external drive: its directory under the media base.
pub fn cart_mount_point(drive_name: &str, external_base: &str) -> (r: String)
    ensures
        r@ == join(external_base@, drive_name@),
{
    path_join(external_base, drive_name)
}

/// The parts of the home directory that size counting and copying skip.
pub open spec fn excluded_path(p: Seq<char>) -> bool {
    ||| contains(p, ".cache"@)
    ||| contains(p, ".local/share/umu"@)
    ||| contains(p, ".config/pulse/cookie"@)
}

/// Whether a path lies in one of the excluded directories (`.cache`,
/// `.local/share/umu`, `.config/pulse/cookie`), by substring. A path that
/// is not valid UTF-8 is handed in as the empty string.
pub fn should_exclude_path(path: &str) -> (r: bool)
    ensures
        r == excluded_path(path@),
{
    crate::text::str_contains(path, ".cache") || crate::text::str_contains(path, ".local/share/umu")
        || crate::text::str_contains(path, ".config/pulse/cookie")
}

/// Where runtimes are installed: under the data directory in development
/// mode, `/usr/share/kazeta/runtimes` otherwise.
pub fn get_runtime_dir(dev_mode: bool, user_data_dir: Option<&str>) -> (r: String)
    ensures
        dev_mode ==> r@ == join(
            match user_data_dir {
                Some(d) => d@,
                None => "."@,
            },
            "runtimes"@,
        ),
        !dev_mode ==> r@ == "/usr/share/kazeta/runtimes"@,
{
    if dev_mode {
        match user_data_dir {
            Some(d) => path_join(d, "runtimes"),
            None => path_join(".", "runtimes"),
        }
    } else {
        String::from_str("/usr/share/kazeta/runtimes")
    }
}

/// A file name without what follows its last `.` (the dot included); a name
/// without a dot is kept whole.
pub open spec fn trim_ext(name: Seq<char>) -> Seq<char> {
    match rfind_char(name, '.') {
        Some(i) => name.take(i),
        None => name,
    }
}

/// Removes the extension of a file name: everything from the last `.` on.
pub fn trim_extension(filename: &str) -> (r: String)
    ensures
        r@ == trim_ext(filename@),
{
    let cs = chars_of(filename);
    match rfind_char_exec(cs.as_slice(), '.') {
        Some(i) => {
            proof {
                crate::text::lemma_rfind_char(filename@, '.');
            }
            let v = crate::text::slice_to_vec(cs.as_slice(), 0, i);
            assert(v@ == filename@.take(i as int));
            string_from(v.as_slice())
        },
        None => String::from_str(filename),
    }
}

/// Name for the path `PathBuf::set_extension` makes of `path` and `ext`.
pub uninterp spec fn extension_set(path: Seq<char>, ext: Seq<char>) -> Seq<char>;

/// `PathBuf::set_extension`: replaces the extension of the path's file name
/// by `ext`. The result is a function of the two strings alone and is
/// given a name; nothing else is claimed. The call panics on an extension
/// that holds a path separator, so `ext` holds no `/`.
#[verifier::external_body]
pub(crate) fn with_extension(path: &str, ext: &str) -> (r: String)
    requires
        !ext@.contains('/'),
    ensures
        r@ == extension_set(path@, ext@),
{
    let mut p = std::path::PathBuf::from(path);
    p.set_extension(ext);
    p.to_string_lossy().to_string()
}

} // verus!

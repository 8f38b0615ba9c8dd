//! Character-level string helpers shared by the rest of the library.
//!
//! Every helper works on the character sequence of a string (its view),
//! so that contracts elsewhere can be stated over `Seq<char>`.
use vstd::prelude::*;

verus! {

// ---------------------------------------------------------------------
// Specifications
// ---------------------------------------------------------------------

/// Rust's `char::is_whitespace`: the Unicode `White_Space` property.
pub open spec fn is_ws(c: char) -> bool {
    ||| c == '\t' || c == '\n' || c == '\u{0B}' || c == '\u{0C}' || c == '\r' || c == ' '
    ||| c == '\u{85}' || c == '\u{A0}' || c == '\u{1680}'
    ||| ('\u{2000}' as u32) <= (c as u32) <= ('\u{200A}' as u32)
    ||| c == '\u{2028}' || c == '\u{2029}' || c == '\u{202F}' || c == '\u{205F}' || c == '\u{3000}'
}

/// `s` with its leading whitespace removed.
pub open spec fn trim_start(s: Seq<char>) -> Seq<char>
    decreases s.len(),
{
    if s.len() > 0 && is_ws(s[0]) {
        trim_start(s.drop_first())
    } else {
        s
    }
}

/// `s` with its trailing whitespace removed.
pub open spec fn trim_end(s: Seq<char>) -> Seq<char>
    decreases s.len(),
{
    if s.len() > 0 && is_ws(s.last()) {
        trim_end(s.drop_last())
    } else {
        s
    }
}

/// `str::trim`: both ends stripped of whitespace.
pub open spec fn trim(s: Seq<char>) -> Seq<char> {
    trim_end(trim_start(s))
}

/// `p` is a prefix of `s`.
pub open spec fn starts_with(s: Seq<char>, p: Seq<char>) -> bool {
    p.len() <= s.len() && s.take(p.len() as int) == p
}

/// `p` is a suffix of `s`.
pub open spec fn ends_with(s: Seq<char>, p: Seq<char>) -> bool {
    p.len() <= s.len() && s.skip(s.len() - p.len()) == p
}

/// `p` occurs in `s` starting at index `i`.
pub open spec fn occurs_at(s: Seq<char>, p: Seq<char>, i: int) -> bool {
    0 <= i && i + p.len() <= s.len() && s.subrange(i, i + p.len()) == p
}

/// `str::contains` with a string pattern.
pub open spec fn contains(s: Seq<char>, p: Seq<char>) -> bool {
    exists|i: int| occurs_at(s, p, i)
}

/// `str::replace` with a non-empty pattern: every non-overlapping occurrence,
/// scanning left to right, is replaced.
pub open spec fn replace_all(s: Seq<char>, p: Seq<char>, r: Seq<char>) -> Seq<char>
    recommends
        p.len() > 0,
    decreases s.len(),
{
    if p.len() == 0 || s.len() < p.len() {
        s
    } else if s.take(p.len() as int) == p {
        r + replace_all(s.skip(p.len() as int), p, r)
    } else {
        seq![s[0]] + replace_all(s.drop_first(), p, r)
    }
}

/// Every occurrence of the character `c` replaced by `d`.
pub open spec fn replace_char(s: Seq<char>, c: char, d: char) -> Seq<char> {
    s.map_values(|x: char| if x == c { d } else { x })
}

/// Index of the last occurrence of `c` in `s`, as `str::rfind` gives it
/// (counted in characters).
pub open spec fn rfind_char(s: Seq<char>, c: char) -> Option<int>
    decreases s.len(),
{
    if s.len() == 0 {
        None
    } else if s.last() == c {
        Some(s.len() - 1)
    } else {
        rfind_char(s.drop_last(), c)
    }
}

/// What `rfind_char` finds is an occurrence of `c`, and no later one exists.
pub proof fn lemma_rfind_char(s: Seq<char>, c: char)
    ensures
        match rfind_char(s, c) {
            Some(i) => 0 <= i < s.len() && s[i] == c && forall|j: int| i < j < s.len() ==> s[j] != c,
            None => forall|j: int| 0 <= j < s.len() ==> s[j] != c,
        },
    decreases s.len(),
{
    if s.len() > 0 && s.last() != c {
        lemma_rfind_char(s.drop_last(), c);
        match rfind_char(s.drop_last(), c) {
            Some(i) => {
                assert forall|j: int| i < j < s.len() implies s[j] != c by {
                    if j < s.len() - 1 {
                        assert(s.drop_last()[j] == s[j]);
                    }
                }
            },
            None => {
                assert forall|j: int| 0 <= j < s.len() implies s[j] != c by {
                    if j < s.len() - 1 {
                        assert(s.drop_last()[j] == s[j]);
                    }
                }
            },
        }
    }
}

/// The lexicographic order on character sequences, which is the order of
/// Rust's `Ord` for `str` and `String` (UTF-8 byte order agrees with code
/// point order).
pub open spec fn lex_lt(a: Seq<char>, b: Seq<char>) -> bool
    decreases a.len(),
{
    if a.len() == 0 {
        b.len() > 0
    } else if b.len() == 0 {
        false
    } else if a[0] < b[0] {
        true
    } else if a[0] > b[0] {
        false
    } else {
        lex_lt(a.drop_first(), b.drop_first())
    }
}

/// Lexicographic order, equality included.
pub open spec fn lex_le(a: Seq<char>, b: Seq<char>) -> bool {
    lex_lt(a, b) || a == b
}


// ---------------------------------------------------------------------
// Lemmas about the lexicographic order
// ---------------------------------------------------------------------

/// No string comes before itself.
pub proof fn lemma_lex_irreflexive(a: Seq<char>)
    ensures
        !lex_lt(a, a),
    decreases a.len(),
{
    if a.len() > 0 {
        lemma_lex_irreflexive(a.drop_first());
    }
}

/// Of two strings one comes first, or they are equal.
pub proof fn lemma_lex_trichotomy(a: Seq<char>, b: Seq<char>)
    ensures
        lex_lt(a, b) || lex_lt(b, a) || a == b,
    decreases a.len(),
{
    if a.len() > 0 && b.len() > 0 {
        lemma_lex_trichotomy(a.drop_first(), b.drop_first());
        if a[0] == b[0] && a.drop_first() == b.drop_first() {
            assert(a == seq![a[0]] + a.drop_first());
            assert(b == seq![b[0]] + b.drop_first());
        }
    }
}

/// Two strings do not each come before the other.
pub proof fn lemma_lex_asymmetric(a: Seq<char>, b: Seq<char>)
    requires
        lex_lt(a, b),
    ensures
        !lex_lt(b, a),
    decreases a.len(),
{
    if a.len() > 0 && b.len() > 0 && a[0] == b[0] {
        lemma_lex_asymmetric(a.drop_first(), b.drop_first());
    }
}

/// The lexicographic order is transitive.
pub proof fn lemma_lex_transitive(a: Seq<char>, b: Seq<char>, c: Seq<char>)
    requires
        lex_lt(a, b),
        lex_lt(b, c),
    ensures
        lex_lt(a, c),
    decreases a.len(),
{
    if a.len() > 0 && b.len() > 0 && c.len() > 0 {
        if a[0] == b[0] && b[0] == c[0] {
            lemma_lex_transitive(a.drop_first(), b.drop_first(), c.drop_first());
        }
    }
}

// ---------------------------------------------------------------------
// Conversions between strings and character vectors
// ---------------------------------------------------------------------

/// The characters of `s`, in order.
pub fn chars_of(s: &str) -> (v: Vec<char>)
    ensures
        v@ == s@,
{
    let mut v: Vec<char> = Vec::new();
    for c in it: s.chars()
        invariant
            v@ == it.seq().take(it.index() as int),
    {
        v.push(c);
    }
    v
}

/// Builds a `String` from its characters (std's `FromIterator<char>`).
#[verifier::external_body]
pub(crate) fn string_from(v: &[char]) -> (s: String)
    ensures
        s@ == v@,
{
    v.iter().collect()
}

/// Name for what `str::to_uppercase` gives back for a character sequence.
pub uninterp spec fn upper_of(s: Seq<char>) -> Seq<char>;

/// Name for what `str::to_lowercase` gives back for a character sequence.
pub uninterp spec fn lower_of(s: Seq<char>) -> Seq<char>;

/// Every character is ASCII.
pub open spec fn all_ascii(s: Seq<char>) -> bool {
    forall|i: int| 0 <= i < s.len() ==> (#[trigger] s[i] as u32) < 128
}

/// The ASCII upper case of a character: `a`..`z` become `A`..`Z`, every
/// other character stays.
pub open spec fn ascii_upper_char(c: char) -> char {
    if 'a' <= c && c <= 'z' {
        ((c as u32) - 32) as char
    } else {
        c
    }
}

/// The ASCII lower case of a character: `A`..`Z` become `a`..`z`, every
/// other character stays.
pub open spec fn ascii_lower_char(c: char) -> char {
    if 'A' <= c && c <= 'Z' {
        ((c as u32) + 32) as char
    } else {
        c
    }
}

/// `str::to_uppercase`: the full Unicode upper-case mapping. The result is a
/// function of the input alone and is given a name; of an ASCII string it
/// is the ASCII upper case, as std documents. Nothing else is claimed.
#[verifier::external_body]
pub(crate) fn to_upper(s: &str) -> (r: String)
    ensures
        r@ == upper_of(s@),
        all_ascii(s@) ==> r@ == s@.map_values(|c: char| ascii_upper_char(c)),
{
    s.to_uppercase()
}

/// `str::to_lowercase`: the full Unicode lower-case mapping. The result is a
/// function of the input alone and is given a name; of an ASCII string it
/// is the ASCII lower case, as std documents. Nothing else is claimed.
#[verifier::external_body]
pub(crate) fn to_lower(s: &str) -> (r: String)
    ensures
        r@ == lower_of(s@),
        all_ascii(s@) ==> r@ == s@.map_values(|c: char| ascii_lower_char(c)),
{
    s.to_lowercase()
}

// ---------------------------------------------------------------------
// Executable helpers
// ---------------------------------------------------------------------

/// Rust's `char::is_whitespace`.
pub fn char_is_ws(c: char) -> (b: bool)
    ensures
        b == is_ws(c),
{
    let u = c as u32;
    c == '\t' || c == '\n' || c == '\u{0B}' || c == '\u{0C}' || c == '\r' || c == ' '
        || c == '\u{85}' || c == '\u{A0}' || c == '\u{1680}' || (0x2000u32 <= u && u <= 0x200Au32)
        || c == '\u{2028}' || c == '\u{2029}' || c == '\u{202F}' || c == '\u{205F}'
        || c == '\u{3000}'
}

/// Equality of two character sequences.
pub fn seq_eq(a: &[char], b: &[char]) -> (r: bool)
    ensures
        r == (a@ == b@),
{
    if a.len() != b.len() {
        return false;
    }
    let mut i: usize = 0;
    while i < a.len()
        invariant
            a.len() == b.len(),
            0 <= i <= a.len(),
            a@.take(i as int) == b@.take(i as int),
        decreases a.len() - i,
    {
        if a[i] != b[i] {
            assert(a@[i as int] != b@[i as int]);
            return false;
        }
        assert(a@.take(i + 1) == a@.take(i as int).push(a@[i as int]));
        assert(b@.take(i + 1) == b@.take(i as int).push(b@[i as int]));
        i = i + 1;
    }
    assert(a@ == a@.take(a.len() as int));
    assert(b@ == b@.take(b.len() as int));
    true
}

/// Equality of two strings by their characters.
pub fn str_eq(a: &str, b: &str) -> (r: bool)
    ensures
        r == (a@ == b@),
{
    let x = chars_of(a);
    let y = chars_of(b);
    seq_eq(x.as_slice(), y.as_slice())
}

/// Whether `s` begins with `p`.
pub fn seq_starts_with(s: &[char], p: &[char]) -> (r: bool)
    ensures
        r == starts_with(s@, p@),
{
    if p.len() > s.len() {
        return false;
    }
    let mut i: usize = 0;
    while i < p.len()
        invariant
            p.len() <= s.len(),
            0 <= i <= p.len(),
            s@.take(i as int) == p@.take(i as int),
        decreases p.len() - i,
    {
        if s[i] != p[i] {
            assert(s@.take(p.len() as int)[i as int] != p@[i as int]);
            return false;
        }
        assert(s@.take(i + 1) == s@.take(i as int).push(s@[i as int]));
        assert(p@.take(i + 1) == p@.take(i as int).push(p@[i as int]));
        i = i + 1;
    }
    assert(p@ == p@.take(p.len() as int));
    true
}

/// Whether `p` occurs in `s` at index `at`.
pub fn seq_occurs_at(s: &[char], p: &[char], at: usize) -> (r: bool)
    ensures
        r == occurs_at(s@, p@, at as int),
{
    if at > s.len() || p.len() > s.len() - at {
        return false;
    }
    let mut i: usize = 0;
    while i < p.len()
        invariant
            at + p.len() <= s.len(),
            0 <= i <= p.len(),
            s@.subrange(at as int, at + i) == p@.take(i as int),
        decreases p.len() - i,
    {
        if s[at + i] != p[i] {
            assert(s@.subrange(at as int, at + p.len())[i as int] != p@[i as int]);
            return false;
        }
        assert(s@.subrange(at as int, at + i + 1) == s@.subrange(at as int, at + i).push(
            s@[at + i],
        ));
        assert(p@.take(i + 1) == p@.take(i as int).push(p@[i as int]));
        i = i + 1;
    }
    assert(p@ == p@.take(p.len() as int));
    true
}

/// Whether `s` ends with `p`.
pub fn seq_ends_with(s: &[char], p: &[char]) -> (r: bool)
    ensures
        r == ends_with(s@, p@),
{
    if p.len() > s.len() {
        return false;
    }
    let r = seq_occurs_at(s, p, s.len() - p.len());
    assert(s@.skip(s.len() - p.len()) == s@.subrange(s.len() - p.len(), s.len() as int));
    r
}

/// Index of the first occurrence of `p` in `s` at or after `from`, if any.
pub fn seq_find_from(s: &[char], p: &[char], from: usize) -> (r: Option<usize>)
    ensures
        match r {
            Some(i) => from <= i && occurs_at(s@, p@, i as int) && forall|j: int|
                from <= j < i ==> !occurs_at(s@, p@, j),
            None => forall|j: int| from <= j ==> !occurs_at(s@, p@, j),
        },
{
    if from > s.len() {
        assert forall|j: int| from <= j implies !occurs_at(s@, p@, j) by {}
        return None;
    }
    let mut i = from;
    while i < s.len()
        invariant
            from <= i <= s.len(),
            forall|j: int| from <= j < i ==> !occurs_at(s@, p@, j),
        decreases s.len() - i,
    {
        if seq_occurs_at(s, p, i) {
            return Some(i);
        }
        i = i + 1;
    }
    if seq_occurs_at(s, p, i) {
        return Some(i);
    }
    assert forall|j: int| from <= j implies !occurs_at(s@, p@, j) by {
        if j > i {
        }
    }
    None
}

/// Whether `p` occurs anywhere in `s`.
pub fn seq_contains(s: &[char], p: &[char]) -> (r: bool)
    ensures
        r == contains(s@, p@),
{
    match seq_find_from(s, p, 0) {
        Some(i) => true,
        None => {
            assert forall|j: int| !occurs_at(s@, p@, j) by {
                if j < 0 {
                }
            }
            false
        },
    }
}

/// Whether the string `s` contains the string `p`.
pub fn str_contains(s: &str, p: &str) -> (r: bool)
    ensures
        r == contains(s@, p@),
{
    let x = chars_of(s);
    let y = chars_of(p);
    seq_contains(x.as_slice(), y.as_slice())
}

/// Whether the string `s` begins with the string `p`.
pub fn str_starts_with(s: &str, p: &str) -> (r: bool)
    ensures
        r == starts_with(s@, p@),
{
    let x = chars_of(s);
    let y = chars_of(p);
    seq_starts_with(x.as_slice(), y.as_slice())
}

/// Whether the string `s` ends with the string `p`.
pub fn str_ends_with(s: &str, p: &str) -> (r: bool)
    ensures
        r == ends_with(s@, p@),
{
    let x = chars_of(s);
    let y = chars_of(p);
    seq_ends_with(x.as_slice(), y.as_slice())
}

/// The characters `s[from..to]`.
pub fn slice_to_vec(s: &[char], from: usize, to: usize) -> (v: Vec<char>)
    requires
        from <= to <= s.len(),
    ensures
        v@ == s@.subrange(from as int, to as int),
{
    let mut v: Vec<char> = Vec::new();
    let mut i = from;
    while i < to
        invariant
            from <= i <= to <= s.len(),
            v@ == s@.subrange(from as int, i as int),
        decreases to - i,
    {
        v.push(s[i]);
        assert(s@.subrange(from as int, i + 1) == s@.subrange(from as int, i as int).push(
            s@[i as int],
        ));
        i = i + 1;
    }
    v
}

proof fn lemma_trim_start_skip(s: Seq<char>, i: int)
    requires
        0 <= i <= s.len(),
        forall|j: int| 0 <= j < i ==> is_ws(s[j]),
    ensures
        trim_start(s) == trim_start(s.skip(i)),
    decreases i,
{
    if i > 0 {
        assert(is_ws(s[0]));
        lemma_trim_start_skip(s.drop_first(), i - 1);
        assert(s.drop_first().skip(i - 1) == s.skip(i));
    } else {
        assert(s.skip(0) == s);
    }
}

proof fn lemma_trim_end_take(s: Seq<char>, i: int)
    requires
        0 <= i <= s.len(),
        forall|j: int| i <= j < s.len() ==> is_ws(s[j]),
    ensures
        trim_end(s) == trim_end(s.take(i)),
    decreases s.len() - i,
{
    if i < s.len() {
        assert(is_ws(s.last()));
        lemma_trim_end_take(s.drop_last(), i);
        assert(s.drop_last().take(i) == s.take(i));
    } else {
        assert(s.take(i) == s);
    }
}

/// `str::trim` on a character sequence.
pub fn trim_chars(s: &[char]) -> (v: Vec<char>)
    ensures
        v@ == trim(s@),
{
    let mut a: usize = 0;
    while a < s.len() && char_is_ws(s[a])
        invariant
            0 <= a <= s.len(),
            forall|j: int| 0 <= j < a ==> is_ws(s@[j]),
        decreases s.len() - a,
    {
        a = a + 1;
    }
    proof {
        lemma_trim_start_skip(s@, a as int);
    }
    let mut b: usize = s.len();
    while b > a && char_is_ws(s[b - 1])
        invariant
            a <= b <= s.len(),
            forall|j: int| b <= j < s.len() ==> is_ws(s@[j]),
        decreases b,
    {
        b = b - 1;
    }
    let v = slice_to_vec(s, a, b);
    proof {
        let t = s@.skip(a as int);
        assert(a < s.len() ==> !is_ws(s@[a as int]));
        assert(trim_start(t) == t);
        lemma_trim_end_take(t, b - a);
        assert(t.take(b - a) == s@.subrange(a as int, b as int));
        if b > a {
            assert(!is_ws(t.take(b - a).last()));
        }
    }
    v
}

/// `str::trim` on a string.
pub fn trim_str(s: &str) -> (r: String)
    ensures
        r@ == trim(s@),
{
    let x = chars_of(s);
    let t = trim_chars(x.as_slice());
    string_from(t.as_slice())
}

/// Every occurrence of `c` replaced by `d`.
pub fn replace_char_chars(s: &[char], c: char, d: char) -> (v: Vec<char>)
    ensures
        v@ == replace_char(s@, c, d),
{
    let mut v: Vec<char> = Vec::new();
    let mut i: usize = 0;
    while i < s.len()
        invariant
            0 <= i <= s.len(),
            v@ == replace_char(s@.take(i as int), c, d),
        decreases s.len() - i,
    {
        let x = s[i];
        if x == c {
            v.push(d);
        } else {
            v.push(x);
        }
        assert(s@.take(i + 1) == s@.take(i as int).push(x));
        i = i + 1;
    }
    assert(s@.take(s.len() as int) == s@);
    v
}

proof fn lemma_replace_all_no_match(s: Seq<char>, p: Seq<char>, r: Seq<char>)
    requires
        p.len() > 0,
        s.len() > 0,
        !occurs_at(s, p, 0),
    ensures
        replace_all(s, p, r) == seq![s[0]] + replace_all(s.drop_first(), p, r),
{
    if s.len() >= p.len() {
        assert(s.subrange(0, p.len() as int) == s.take(p.len() as int));
    }
}

/// Appends all of `r` to `v`.
pub fn push_all(v: &mut Vec<char>, r: &[char])
    ensures
        final(v)@ == old(v)@ + r@,
{
    let mut k: usize = 0;
    while k < r.len()
        invariant
            0 <= k <= r.len(),
            v@ == old(v)@ + r@.take(k as int),
        decreases r.len() - k,
    {
        v.push(r[k]);
        assert(r@.take(k + 1) == r@.take(k as int).push(r@[k as int]));
        k = k + 1;
    }
    assert(r@.take(r.len() as int) == r@);
}

/// `str::replace` with a non-empty pattern.
pub fn replace_all_chars(s: &[char], p: &[char], r: &[char]) -> (v: Vec<char>)
    requires
        p.len() > 0,
    ensures
        v@ == replace_all(s@, p@, r@),
{
    let mut v: Vec<char> = Vec::new();
    let mut i: usize = 0;
    assert(s@.skip(0) == s@);
    while i < s.len()
        invariant
            p.len() > 0,
            0 <= i <= s.len(),
            v@ + replace_all(s@.skip(i as int), p@, r@) == replace_all(s@, p@, r@),
        decreases s.len() - i,
    {
        let ghost rest = s@.skip(i as int);
        if seq_occurs_at(s, p, i) {
            proof {
                assert(rest.take(p.len() as int) == s@.subrange(i as int, i + p.len()));
                assert(rest.skip(p.len() as int) == s@.skip(i + p.len()));
            }
            let ghost before = v@;
            push_all(&mut v, r);
            proof {
                assert(replace_all(rest, p@, r@) == r@ + replace_all(s@.skip(i + p.len()), p@, r@));
                assert(v@ + replace_all(s@.skip(i + p.len()), p@, r@) == before + (r@ + replace_all(
                    s@.skip(i + p.len()),
                    p@,
                    r@,
                )));
            }
            i = i + p.len();
        } else {
            proof {
                assert(rest.len() > 0);
                assert(occurs_at(rest, p@, 0) == occurs_at(s@, p@, i as int)) by {
                    if p.len() <= rest.len() {
                        assert(rest.subrange(0, p.len() as int) == s@.subrange(
                            i as int,
                            i + p.len(),
                        ));
                    }
                }
                lemma_replace_all_no_match(rest, p@, r@);
                assert(rest.drop_first() == s@.skip(i + 1));
            }
            v.push(s[i]);
            i = i + 1;
        }
    }
    assert(s@.skip(s.len() as int).len() == 0);
    v
}

/// The pieces of `s` between occurrences of `c`, as `str::split(c)` gives
/// them: one more piece than there are occurrences, empty pieces included.
pub open spec fn split_on(s: Seq<char>, c: char) -> Seq<Seq<char>>
    decreases s.len(),
{
    if s.len() == 0 {
        seq![Seq::empty()]
    } else {
        let rest = split_on(s.drop_last(), c);
        if s.last() == c {
            rest.push(Seq::empty())
        } else {
            rest.update(rest.len() - 1, rest.last().push(s.last()))
        }
    }
}

/// Splitting always gives at least one piece.
pub proof fn lemma_split_on_nonempty(s: Seq<char>, c: char)
    ensures
        split_on(s, c).len() >= 1,
    decreases s.len(),
{
    if s.len() > 0 {
        lemma_split_on_nonempty(s.drop_last(), c);
    }
}

/// A line that ended in `\r\n` loses the `\r`.
pub open spec fn strip_cr(l: Seq<char>) -> Seq<char> {
    if l.len() > 0 && l.last() == '\r' {
        l.drop_last()
    } else {
        l
    }
}

/// The lines of `s`, as `str::lines()` gives them: split at `\n`, a line
/// that ends with `\n` loses a `\r` before it, and a final `\n` opens no new
/// line.
pub open spec fn lines_spec(s: Seq<char>) -> Seq<Seq<char>> {
    if s.len() == 0 {
        Seq::empty()
    } else if s.last() == '\n' {
        split_on(s.drop_last(), '\n').map_values(|l: Seq<char>| strip_cr(l))
    } else {
        let p = split_on(s, '\n');
        p.drop_last().map_values(|l: Seq<char>| strip_cr(l)).push(p.last())
    }
}

/// `str::split(c)` on characters.
pub fn split_chars(s: &[char], c: char) -> (r: Vec<Vec<char>>)
    ensures
        r@.map_values(|v: Vec<char>| v@) == split_on(s@, c),
{
    let mut pieces: Vec<Vec<char>> = Vec::new();
    let mut current: Vec<char> = Vec::new();
    let mut i: usize = 0;
    while i < s.len()
        invariant
            0 <= i <= s.len(),
            pieces@.map_values(|v: Vec<char>| v@).push(current@) == split_on(s@.take(i as int), c),
        decreases s.len() - i,
    {
        proof {
            assert(s@.take(i + 1).drop_last() =~= s@.take(i as int));
            lemma_split_on_nonempty(s@.take(i as int), c);
        }
        let ghost before = pieces@.map_values(|v: Vec<char>| v@);
        if s[i] == c {
            pieces.push(current);
            current = Vec::new();
            proof {
                assert(pieces@.map_values(|v: Vec<char>| v@) =~= before.push(split_on(s@.take(i as int), c).last()));
                assert(pieces@.map_values(|v: Vec<char>| v@).push(current@) =~= split_on(s@.take(i + 1), c));
            }
        } else {
            let ghost cur0 = current@;
            current.push(s[i]);
            proof {
                assert(pieces@.map_values(|v: Vec<char>| v@).push(current@) =~= split_on(s@.take(i + 1), c));
            }
        }
        i = i + 1;
    }
    assert(s@.take(s.len() as int) =~= s@);
    let ghost before = pieces@.map_values(|v: Vec<char>| v@);
    pieces.push(current);
    assert(pieces@.map_values(|v: Vec<char>| v@) =~= split_on(s@, c));
    pieces
}

fn strip_cr_exec(v: Vec<char>) -> (r: Vec<char>)
    ensures
        r@ == strip_cr(v@),
{
    if v.len() > 0 && v[v.len() - 1] == '\r' {
        let r = slice_to_vec(v.as_slice(), 0, v.len() - 1);
        assert(r@ =~= v@.drop_last());
        r
    } else {
        v
    }
}

/// `str::lines()`.
pub fn lines_of(s: &str) -> (r: Vec<String>)
    ensures
        r@.map_values(|l: String| l@) == lines_spec(s@),
{
    let cs = chars_of(s);
    let mut out: Vec<String> = Vec::new();
    if cs.len() == 0 {
        assert(out@.map_values(|l: String| l@) =~= lines_spec(s@));
        return out;
    }
    let ends_nl = cs[cs.len() - 1] == '\n';
    let body = if ends_nl {
        slice_to_vec(cs.as_slice(), 0, cs.len() - 1)
    } else {
        slice_to_vec(cs.as_slice(), 0, cs.len())
    };
    proof {
        assert(cs@.subrange(0, cs.len() - 1) =~= cs@.drop_last());
        assert(cs@.subrange(0, cs.len() as int) =~= cs@);
    }
    let pieces = split_chars(body.as_slice(), '\n');
    let ghost pv = pieces@.map_values(|v: Vec<char>| v@);
    proof {
        lemma_split_on_nonempty(body@, '\n');
    }
    let n = pieces.len();
    let mut i: usize = 0;
    while i < n
        invariant
            0 <= i <= n,
            n == pieces.len(),
            n >= 1,
            pv == pieces@.map_values(|v: Vec<char>| v@),
            out@.len() == i,
            forall|k: int| 0 <= k < i ==> (#[trigger] out@[k])@ == (if !ends_nl && k == n - 1 {
                pv[k]
            } else {
                strip_cr(pv[k])
            }),
        decreases n - i,
    {
        let piece = pieces[i].clone();
        let line = if !ends_nl && i == n - 1 {
            piece
        } else {
            strip_cr_exec(piece)
        };
        out.push(string_from(line.as_slice()));
        i = i + 1;
    }
    proof {
        if ends_nl {
            assert(out@.map_values(|l: String| l@) =~= lines_spec(s@));
        } else {
            assert(out@.map_values(|l: String| l@) =~= pv.drop_last().map_values(|l: Seq<char>| strip_cr(l)).push(pv.last()));
        }
    }
    out
}

/// The words of `s`, as `str::split_whitespace()` gives them: the maximal
/// runs of characters that are not whitespace.
pub open spec fn words(s: Seq<char>) -> Seq<Seq<char>>
    decreases s.len(),
{
    if s.len() == 0 {
        Seq::empty()
    } else {
        let w = words(s.drop_last());
        if is_ws(s.last()) {
            w
        } else if s.len() > 1 && !is_ws(s[s.len() - 2]) {
            w.update(w.len() - 1, w.last().push(s.last()))
        } else {
            w.push(seq![s.last()])
        }
    }
}

/// A text that ends inside a word has at least one word.
pub proof fn lemma_words_nonempty(s: Seq<char>)
    requires
        s.len() > 0,
        !is_ws(s.last()),
    ensures
        words(s).len() > 0,
    decreases s.len(),
{
    if s.len() > 1 && !is_ws(s[s.len() - 2]) {
        assert(s.drop_last().last() == s[s.len() - 2]);
        lemma_words_nonempty(s.drop_last());
    }
}

/// `str::split_whitespace()` on characters.
pub fn split_whitespace_chars(s: &[char]) -> (r: Vec<Vec<char>>)
    ensures
        r@.map_values(|v: Vec<char>| v@) == words(s@),
{
    let mut out: Vec<Vec<char>> = Vec::new();
    let mut current: Vec<char> = Vec::new();
    let mut in_word = false;
    let mut i: usize = 0;
    while i < s.len()
        invariant
            0 <= i <= s.len(),
            in_word == (i > 0 && !is_ws(s@[i - 1])),
            in_word ==> out@.map_values(|v: Vec<char>| v@).push(current@) == words(s@.take(i as int)),
            !in_word ==> out@.map_values(|v: Vec<char>| v@) == words(s@.take(i as int)),
        decreases s.len() - i,
    {
        proof {
            assert(s@.take(i + 1).drop_last() =~= s@.take(i as int));
            if i > 0 {
                assert(s@.take(i + 1)[i - 1] == s@[i - 1]);
            }
        }
        let c = s[i];
        let ws = char_is_ws(c);
        if ws {
            if in_word {
                out.push(current);
                current = Vec::new();
            }
            in_word = false;
        } else {
            let ghost before = out@.map_values(|v: Vec<char>| v@);
            if in_word {
                current.push(c);
                proof {
                    assert(out@.map_values(|v: Vec<char>| v@).push(current@) =~= words(s@.take(i + 1)));
                }
            } else {
                current = Vec::new();
                current.push(c);
                proof {
                    assert(out@.map_values(|v: Vec<char>| v@).push(current@) =~= words(s@.take(i + 1)));
                }
            }
            in_word = true;
        }
        i = i + 1;
    }
    assert(s@.take(s.len() as int) =~= s@);
    if in_word {
        out.push(current);
    }
    out
}

/// The first position at or after `from` where `p` occurs in `s`.
pub open spec fn find_from(s: Seq<char>, p: Seq<char>, from: int) -> Option<int>
    decreases s.len() + 1 - from,
{
    if from > s.len() {
        None
    } else if occurs_at(s, p, from) {
        Some(from)
    } else {
        find_from(s, p, from + 1)
    }
}

/// `find_from` is the first occurrence at or after `from`.
pub proof fn lemma_find_from(s: Seq<char>, p: Seq<char>, from: int, i: int)
    requires
        0 <= from <= i,
        occurs_at(s, p, i),
        forall|j: int| from <= j < i ==> !occurs_at(s, p, j),
    ensures
        find_from(s, p, from) == Some(i),
    decreases i - from,
{
    if from < i {
        lemma_find_from(s, p, from + 1, i);
    }
}

/// No occurrence at or after `from`.
pub proof fn lemma_find_from_none(s: Seq<char>, p: Seq<char>, from: int)
    requires
        forall|j: int| from <= j ==> !occurs_at(s, p, j),
    ensures
        find_from(s, p, from) is None,
    decreases s.len() + 1 - from,
{
    if from <= s.len() {
        lemma_find_from_none(s, p, from + 1);
    }
}

/// The `n`-th piece (from 0) of `s` split at the occurrences of `p`,
/// counting from position `from`: `str::split(p).nth(n)` when `from` is 0.
pub open spec fn piece_after(s: Seq<char>, p: Seq<char>, from: int, n: nat) -> Option<Seq<char>>
    decreases n,
{
    match find_from(s, p, from) {
        None => if n == 0 {
            Some(s.subrange(from, s.len() as int))
        } else {
            None
        },
        Some(k) => if n == 0 {
            Some(s.subrange(from, k))
        } else {
            piece_after(s, p, k + p.len(), (n - 1) as nat)
        },
    }
}

/// `s.split(p).nth(n)` for a non-empty pattern.
pub fn nth_piece(s: &str, p: &str, n: usize) -> (r: Option<String>)
    requires
        p@.len() > 0,
    ensures
        match piece_after(s@, p@, 0, n as nat) {
            Some(x) => (r matches Some(y) && y@ == x),
            None => r is None,
        },
{
    let cs = chars_of(s);
    let ps = chars_of(p);
    let mut from: usize = 0;
    let mut k: usize = n;
    let total = cs.len();
    while k > 0
        invariant
            total == cs@.len(),
            ps@ == p@,
            cs@ == s@,
            p@.len() > 0,
            from <= cs@.len(),
            piece_after(s@, p@, 0, n as nat) == piece_after(s@, p@, from as int, k as nat),
        decreases k,
    {
        match seq_find_from(cs.as_slice(), ps.as_slice(), from) {
            Some(i) => {
                proof {
                    lemma_find_from(s@, p@, from as int, i as int);
                }
                assert(i + ps@.len() <= cs@.len());
                from = i + ps.len();
                k = k - 1;
            },
            None => {
                proof {
                    lemma_find_from_none(s@, p@, from as int);
                }
                return None;
            },
        }
    }
    match seq_find_from(cs.as_slice(), ps.as_slice(), from) {
        Some(i) => {
            proof {
                lemma_find_from(s@, p@, from as int, i as int);
            }
            let v = slice_to_vec(cs.as_slice(), from, i);
            Some(string_from(v.as_slice()))
        },
        None => {
            proof {
                lemma_find_from_none(s@, p@, from as int);
            }
            let v = slice_to_vec(cs.as_slice(), from, cs.len());
            Some(string_from(v.as_slice()))
        },
    }
}

/// `str::replace(p, r)` for a pattern that is not empty, and for an empty
/// pattern with an empty replacement (which changes nothing).
pub fn replace_str(s: &str, p: &str, r: &str) -> (out: String)
    requires
        p@.len() > 0 || r@.len() == 0,
    ensures
        out@ == replace_all(s@, p@, r@),
{
    let cs = chars_of(s);
    let ps = chars_of(p);
    if ps.len() == 0 {
        return String::from_str(s);
    }
    let rs = chars_of(r);
    let v = replace_all_chars(cs.as_slice(), ps.as_slice(), rs.as_slice());
    string_from(v.as_slice())
}

} // verus!

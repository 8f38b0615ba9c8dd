//! Decimal integer parsing with the exact acceptance rules of Rust's
//! `FromStr` for the integer types.
use vstd::prelude::*;

verus! {

/// An ASCII decimal digit.
pub open spec fn is_digit(c: char) -> bool {
    '0' <= c && c <= '9'
}

/// The value of a decimal digit.
pub open spec fn digit_val(c: char) -> int {
    (c as int) - ('0' as int)
}

/// Every character is a decimal digit.
pub open spec fn all_digits(s: Seq<char>) -> bool {
    forall|i: int| 0 <= i < s.len() ==> is_digit(#[trigger] s[i])
}

/// The value of a string of decimal digits.
pub open spec fn digits_value(s: Seq<char>) -> int
    decreases s.len(),
{
    if s.len() == 0 {
        0
    } else {
        digits_value(s.drop_last()) * 10 + digit_val(s.last())
    }
}

/// The digits after an optional leading `+`.
pub open spec fn unsigned_body(s: Seq<char>) -> Seq<char> {
    if s.len() > 0 && s[0] == '+' {
        s.drop_first()
    } else {
        s
    }
}

/// What `<uN as FromStr>::from_str` gives for a type whose maximum is `max`:
/// an optional `+`, then at least one digit, and no more than `max`.
pub open spec fn parse_unsigned(s: Seq<char>, max: int) -> Option<int> {
    let b = unsigned_body(s);
    if b.len() > 0 && all_digits(b) && digits_value(b) <= max {
        Some(digits_value(b))
    } else {
        None
    }
}

/// What `<i32 as FromStr>::from_str` gives: an optional sign, then at least
/// one digit, within the range of `i32`.
pub open spec fn parse_i32_spec(s: Seq<char>) -> Option<int> {
    if s.len() > 0 && s[0] == '-' {
        let b = s.drop_first();
        if b.len() > 0 && all_digits(b) && digits_value(b) <= 0x8000_0000 {
            Some(-digits_value(b))
        } else {
            None
        }
    } else {
        parse_unsigned(s, 0x7fff_ffff)
    }
}

/// A string of digits has a non-negative value.
pub proof fn lemma_digits_value_nonneg(s: Seq<char>)
    requires
        all_digits(s),
    ensures
        digits_value(s) >= 0,
    decreases s.len(),
{
    if s.len() > 0 {
        assert(all_digits(s.drop_last())) by {
            assert forall|i: int| 0 <= i < s.drop_last().len() implies is_digit(
                #[trigger] s.drop_last()[i],
            ) by {
                assert(s.drop_last()[i] == s[i]);
            }
        }
        lemma_digits_value_nonneg(s.drop_last());
        assert(is_digit(s[s.len() - 1]));
    }
}

proof fn lemma_digits_value_mono(s: Seq<char>, i: int)
    requires
        all_digits(s),
        0 <= i <= s.len(),
    ensures
        digits_value(s.take(i)) <= digits_value(s),
    decreases s.len() - i,
{
    if i < s.len() {
        let t = s.take(i + 1);
        assert(t.drop_last() == s.take(i));
        assert(all_digits(s.take(i))) by {
            assert forall|k: int| 0 <= k < s.take(i).len() implies is_digit(
                #[trigger] s.take(i)[k],
            ) by {
                assert(s.take(i)[k] == s[k]);
            }
        }
        lemma_digits_value_nonneg(s.take(i));
        assert(is_digit(s[i]));
        assert(t.last() == s[i]);
        lemma_digits_value_mono(s, i + 1);
    } else {
        assert(s.take(i) == s);
    }
}

/// Parses a run of decimal digits into a `u64`; `None` when a character is
/// not a digit, the run is empty, or the value does not fit.
pub fn parse_digits_u64(s: &[char]) -> (r: Option<u64>)
    ensures
        match r {
            Some(v) => s@.len() > 0 && all_digits(s@) && v == digits_value(s@),
            None => !(s@.len() > 0 && all_digits(s@) && digits_value(s@) <= u64::MAX),
        },
{
    if s.len() == 0 {
        return None;
    }
    let mut acc: u64 = 0;
    let mut i: usize = 0;
    while i < s.len()
        invariant
            0 <= i <= s.len(),
            all_digits(s@.take(i as int)),
            acc == digits_value(s@.take(i as int)),
        decreases s.len() - i,
    {
        let c = s[i];
        if !('0' <= c && c <= '9') {
            assert(!all_digits(s@)) by {
                assert(!is_digit(s@[i as int]));
            }
            return None;
        }
        let d = (c as u32 - '0' as u32) as u64;
        let ghost t = s@.take(i + 1);
        assert(t.drop_last() == s@.take(i as int));
        assert(t.last() == c);
        assert(all_digits(t)) by {
            assert forall|k: int| 0 <= k < t.len() implies is_digit(#[trigger] t[k]) by {
                if k < i {
                    assert(t[k] == s@.take(i as int)[k]);
                }
            }
        }
        match acc.checked_mul(10) {
            Some(m) => match m.checked_add(d) {
                Some(n) => {
                    acc = n;
                },
                None => {
                    proof {
                        assert(digits_value(t) > u64::MAX);
                        if all_digits(s@) {
                            lemma_digits_value_mono(s@, i + 1);
                        }
                    }
                    return None;
                },
            },
            None => {
                proof {
                    assert(digits_value(t) >= acc * 10);
                    if all_digits(s@) {
                        lemma_digits_value_mono(s@, i + 1);
                    }
                }
                return None;
            },
        }
        i = i + 1;
    }
    assert(s@.take(s.len() as int) == s@);
    Some(acc)
}

/// `<u64 as FromStr>::from_str` on a character sequence.
pub fn parse_u64_chars(s: &[char]) -> (r: Option<u64>)
    ensures
        match parse_unsigned(s@, u64::MAX as int) {
            Some(v) => r == Some(v as u64),
            None => r is None,
        },
{
    if s.len() > 0 && s[0] == '+' {
        let ghost b = s@.drop_first();
        let rest = crate::text::slice_to_vec(s, 1, s.len());
        assert(rest@ == b);
        parse_digits_u64(rest.as_slice())
    } else {
        parse_digits_u64(s)
    }
}

/// `<u64 as FromStr>::from_str`.
pub fn parse_u64(s: &str) -> (r: Option<u64>)
    ensures
        match parse_unsigned(s@, u64::MAX as int) {
            Some(v) => r == Some(v as u64),
            None => r is None,
        },
{
    let v = crate::text::chars_of(s);
    parse_u64_chars(v.as_slice())
}

/// `<u32 as FromStr>::from_str`.
pub fn parse_u32(s: &str) -> (r: Option<u32>)
    ensures
        match parse_unsigned(s@, u32::MAX as int) {
            Some(v) => r == Some(v as u32),
            None => r is None,
        },
{
    let r64 = parse_u64(s);
    proof {
        let b = unsigned_body(s@);
        if b.len() > 0 && all_digits(b) {
            lemma_digits_value_nonneg(b);
        }
    }
    match r64 {
        Some(v) => if v <= 0xffff_ffffu64 {
            Some(v as u32)
        } else {
            None
        },
        None => None,
    }
}

/// `<u8 as FromStr>::from_str`.
pub fn parse_u8(s: &str) -> (r: Option<u8>)
    ensures
        match parse_unsigned(s@, u8::MAX as int) {
            Some(v) => r == Some(v as u8),
            None => r is None,
        },
{
    let r64 = parse_u64(s);
    proof {
        let b = unsigned_body(s@);
        if b.len() > 0 && all_digits(b) {
            lemma_digits_value_nonneg(b);
        }
    }
    match r64 {
        Some(v) => if v <= 255u64 {
            Some(v as u8)
        } else {
            None
        },
        None => None,
    }
}

/// `<i32 as FromStr>::from_str`.
pub fn parse_i32(s: &str) -> (r: Option<i32>)
    ensures
        match parse_i32_spec(s@) {
            Some(v) => r == Some(v as i32),
            None => r is None,
        },
{
    let cs = crate::text::chars_of(s);
    if cs.len() > 0 && cs[0] == '-' {
        let rest = crate::text::slice_to_vec(cs.as_slice(), 1, cs.len());
        assert(rest@ == s@.drop_first());
        proof {
            let b = s@.drop_first();
            if b.len() > 0 && all_digits(b) {
                lemma_digits_value_nonneg(b);
            }
        }
        match parse_digits_u64(rest.as_slice()) {
            Some(v) => if v <= 0x8000_0000u64 {
                if v == 0x8000_0000u64 {
                    Some(-2147483648i32)
                } else {
                    let w = v as i32;
                    Some(-w)
                }
            } else {
                None
            },
            None => None,
        }
    } else {
        proof {
            let b = unsigned_body(s@);
            if b.len() > 0 && all_digits(b) {
                lemma_digits_value_nonneg(b);
            }
        }
        match parse_u64_chars(cs.as_slice()) {
            Some(v) => if v <= 0x7fff_ffffu64 {
                Some(v as i32)
            } else {
                None
            },
            None => None,
        }
    }
}

/// The decimal digits of `n`, as `{}` writes an unsigned integer.
pub open spec fn dec_digits(n: nat) -> Seq<char>
    decreases n,
{
    if n < 10 {
        seq![digit_char(n)]
    } else {
        dec_digits(n / 10) + seq![digit_char(n % 10)]
    }
}

/// The character of a digit below ten.
pub open spec fn digit_char(d: nat) -> char {
    ((d + 48) as u32) as char
}

/// `n` written with at least two digits, as `{:02}` writes it.
pub open spec fn dec_digits2(n: nat) -> Seq<char> {
    if n < 10 {
        seq!['0', digit_char(n)]
    } else {
        dec_digits(n)
    }
}

fn digit_to_char(d: u64) -> (c: char)
    requires
        d < 10,
    ensures
        c == digit_char(d as nat),
{
    match d {
        0 => '0',
        1 => '1',
        2 => '2',
        3 => '3',
        4 => '4',
        5 => '5',
        6 => '6',
        7 => '7',
        8 => '8',
        _ => '9',
    }
}

/// `n.to_string()` for an unsigned integer.
pub fn u64_to_string(n: u64) -> (r: String)
    ensures
        r@ == dec_digits(n as nat),
{
    let mut digits: Vec<char> = Vec::new();
    let mut m = n;
    // digits are produced least significant first
    let ghost mut done: nat = 0;
    while m >= 10
        invariant
            dec_digits(n as nat) == dec_digits(m as nat) + digits@.reverse(),
        decreases m,
    {
        let d = m % 10;
        let c = digit_to_char(d);
        proof {
            assert(dec_digits(m as nat) == dec_digits((m / 10) as nat) + seq![digit_char((m % 10) as nat)]);
            assert(digits@.push(c).reverse() == seq![c] + digits@.reverse());
            assert(dec_digits(m as nat) + digits@.reverse() == dec_digits((m / 10) as nat) + (seq![c] + digits@.reverse()));
        }
        digits.push(c);
        m = m / 10;
    }
    let c = digit_to_char(m);
    digits.push(c);
    proof {
        assert(digits@.reverse() == seq![c] + digits@.drop_last().reverse());
    }
    let mut out: Vec<char> = Vec::new();
    let mut i = digits.len();
    while i > 0
        invariant
            0 <= i <= digits.len(),
            out@ == digits@.skip(i as int).reverse(),
        decreases i,
    {
        i = i - 1;
        out.push(digits[i]);
        proof {
            assert(digits@.skip(i as int) == seq![digits@[i as int]] + digits@.skip(i + 1));
            assert((seq![digits@[i as int]] + digits@.skip(i + 1)).reverse() == digits@.skip(i + 1).reverse().push(digits@[i as int]));
        }
    }
    assert(digits@.skip(0) == digits@);
    crate::text::string_from(out.as_slice())
}

/// `format!("{:02}", n)`.
pub fn u64_to_string2(n: u64) -> (r: String)
    ensures
        r@ == dec_digits2(n as nat),
{
    if n < 10 {
        let c = digit_to_char(n);
        let v = vec!['0', c];
        crate::text::string_from(v.as_slice())
    } else {
        u64_to_string(n)
    }
}

/// What `parse_i32_spec` gives fits an `i32`.
pub proof fn lemma_parse_i32_range(s: Seq<char>)
    ensures
        parse_i32_spec(s) matches Some(v) ==> i32::MIN <= v <= i32::MAX,
{
    if s.len() > 0 && s[0] == '-' {
        let b = s.drop_first();
        if b.len() > 0 && all_digits(b) {
            lemma_digits_value_nonneg(b);
        }
    } else {
        let b = unsigned_body(s);
        if b.len() > 0 && all_digits(b) {
            lemma_digits_value_nonneg(b);
        }
    }
}

/// What `parse_unsigned` gives lies between 0 and `max`.
pub proof fn lemma_parse_unsigned_range(s: Seq<char>, max: int)
    ensures
        parse_unsigned(s, max) matches Some(v) ==> 0 <= v <= max,
{
    let b = unsigned_body(s);
    if b.len() > 0 && all_digits(b) {
        lemma_digits_value_nonneg(b);
    }
}

} // verus!

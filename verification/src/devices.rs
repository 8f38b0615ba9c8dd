//! Small device-facing computations: the GameCube adapter's poll rate, the
//! rows of a decoded video frame, the interface colours by name, and the
//! window size in the settings.
use vstd::prelude::*;
use crate::text::{find_from, trim, trim_str};

verus! {

/// What the adapter watcher reports.
#[derive(PartialEq, Eq, Structural, Clone, Copy, Debug)]
pub enum GccMessage {
    /// The adapter polls this many times a second.
    RateUpdate(u32),
    /// The adapter went away.
    Disconnected,
}

/// One look at the adapter's poll-interval file (`None` when it could not
/// be read), given whether the adapter was there at the last look: a
/// positive interval in milliseconds reports the rate and marks it there;
/// an unreadable file reports its loss once.
pub open spec fn poll_step(was_connected: bool, rate_file: Option<Seq<char>>) -> (bool, Option<GccMessage>) {
    match rate_file {
        None => (false, if was_connected { Some(GccMessage::Disconnected) } else { None::<GccMessage> }),
        Some(t) => match crate::numparse::parse_unsigned(trim(t), u32::MAX as int) {
            Some(ms) => if ms > 0 {
                (true, Some(GccMessage::RateUpdate((1000int / ms) as u32)))
            } else {
                (was_connected, None::<GccMessage>)
            },
            None => (was_connected, None::<GccMessage>),
        },
    }
}

/// See `poll_step`.
pub fn gcc_poll(was_connected: bool, rate_file: Option<&str>) -> (r: (bool, Option<GccMessage>))
    ensures
        r == poll_step(was_connected, match rate_file {
            Some(t) => Some(t@),
            None => None,
        }),
        match rate_file {
            None => !r.0 && r.1 == (if was_connected { Some(GccMessage::Disconnected) } else { None::<GccMessage> }),
            Some(t) => match crate::numparse::parse_unsigned(trim(t@), u32::MAX as int) {
                Some(ms) => if ms > 0 {
                    r == (true, Some(GccMessage::RateUpdate((1000int / ms) as u32)))
                } else {
                    r == (was_connected, None::<GccMessage>)
                },
                None => r == (was_connected, None::<GccMessage>),
            },
        },
{
    match rate_file {
        None => {
            if was_connected {
                (false, Some(GccMessage::Disconnected))
            } else {
                (false, None)
            }
        },
        Some(t) => {
            let tt = trim_str(t);
            proof {
                crate::numparse::lemma_parse_unsigned_range(tt@, u32::MAX as int);
            }
            match crate::numparse::parse_u32(tt.as_str()) {
                Some(ms) => {
                    if ms > 0 {
                        (true, Some(GccMessage::RateUpdate(1000 / ms)))
                    } else {
                        (was_connected, None)
                    }
                },
                None => (was_connected, None),
            }
        },
    }
}

/// The first `n` rows of a frame whose rows start every `stride` bytes,
/// each cut to `row_len` bytes, one after another.
pub open spec fn rows(data: Seq<u8>, stride: int, row_len: int, n: nat) -> Seq<u8>
    decreases n,
{
    if n == 0 {
        Seq::empty()
    } else {
        let start = (n - 1) * stride;
        rows(data, stride, row_len, (n - 1) as nat) + data.subrange(start, start + row_len)
    }
}

/// The RGBA bytes of a frame `width` pixels wide and `height` high, taken
/// row by row from a buffer whose rows start every `stride` bytes.
pub fn pack_rows(data: &[u8], stride: usize, width: usize, height: usize) -> (r: Vec<u8>)
    requires
        width * 4 <= usize::MAX,
        height > 0 ==> (height - 1) * stride + width * 4 <= data@.len(),
    ensures
        r@ == rows(data@, stride as int, (width * 4) as int, height as nat),
{
    let row_len = width * 4;
    let n = data.len();
    let mut out: Vec<u8> = Vec::new();
    let mut i: usize = 0;
    while i < height
        invariant
            n == data@.len(),
            0 <= i <= height,
            row_len == width * 4,
            height > 0 ==> (height - 1) * stride + row_len <= data@.len(),
            out@ == rows(data@, stride as int, row_len as int, i as nat),
        decreases height - i,
    {
        assert(i * stride + row_len <= data@.len()) by (nonlinear_arith)
            requires
                i < height,
                (height - 1) * stride + row_len <= data@.len(),
        {
            assert(i * stride <= (height - 1) * stride);
        }
        let start = i * stride;
        let mut j: usize = 0;
        let ghost before = out@;
        while j < row_len
            invariant
                n == data@.len(),
                0 <= j <= row_len,
                start + row_len <= data@.len(),
                out@ == before + data@.subrange(start as int, start + j),
            decreases row_len - j,
        {
            out.push(data[start + j]);
            assert(data@.subrange(start as int, start + j + 1) =~= data@.subrange(start as int, start + j).push(data@[start + j]));
            j = j + 1;
        }
        proof {
            assert(((i + 1) - 1) * stride == i * stride);
        }
        i = i + 1;
    }
    out
}

/// The colours the interface can be set to.
#[derive(PartialEq, Eq, Structural, Clone, Copy, Debug)]
pub enum ColorName {
    Black,
    Pink,
    Red,
    Orange,
    Yellow,
    Green,
    Blue,
    Violet,
    White,
}

/// The colour a setting names; `PURPLE` is shown as violet, and anything
/// not known as white.
pub fn string_to_color(s: &str) -> (c: ColorName)
    ensures
        c == (if s@ == "BLACK"@ {
            ColorName::Black
        } else if s@ == "PINK"@ {
            ColorName::Pink
        } else if s@ == "RED"@ {
            ColorName::Red
        } else if s@ == "ORANGE"@ {
            ColorName::Orange
        } else if s@ == "YELLOW"@ {
            ColorName::Yellow
        } else if s@ == "GREEN"@ {
            ColorName::Green
        } else if s@ == "BLUE"@ {
            ColorName::Blue
        } else if s@ == "PURPLE"@ {
            ColorName::Violet
        } else {
            ColorName::White
        }),
{
    use_str_eq(s)
}

fn use_str_eq(s: &str) -> (c: ColorName)
    ensures
        c == (if s@ == "BLACK"@ {
            ColorName::Black
        } else if s@ == "PINK"@ {
            ColorName::Pink
        } else if s@ == "RED"@ {
            ColorName::Red
        } else if s@ == "ORANGE"@ {
            ColorName::Orange
        } else if s@ == "YELLOW"@ {
            ColorName::Yellow
        } else if s@ == "GREEN"@ {
            ColorName::Green
        } else if s@ == "BLUE"@ {
            ColorName::Blue
        } else if s@ == "PURPLE"@ {
            ColorName::Violet
        } else {
            ColorName::White
        }),
{
    if crate::text::str_eq(s, "BLACK") {
        ColorName::Black
    } else if crate::text::str_eq(s, "PINK") {
        ColorName::Pink
    } else if crate::text::str_eq(s, "RED") {
        ColorName::Red
    } else if crate::text::str_eq(s, "ORANGE") {
        ColorName::Orange
    } else if crate::text::str_eq(s, "YELLOW") {
        ColorName::Yellow
    } else if crate::text::str_eq(s, "GREEN") {
        ColorName::Green
    } else if crate::text::str_eq(s, "BLUE") {
        ColorName::Blue
    } else if crate::text::str_eq(s, "PURPLE") {
        ColorName::Violet
    } else {
        ColorName::White
    }
}

/// A resolution setting split at its first `x` into the width and height
/// texts (`str::split_once('x')`).
pub fn resolution_parts(s: &str) -> (r: Option<(String, String)>)
    ensures
        match find_from(s@, "x"@, 0) {
            None => r is None,
            Some(k) => (r matches Some((w, h)) && w@ == s@.take(k) && h@ == s@.skip(k + 1)),
        },
{
    let cs = crate::text::chars_of(s);
    let x = crate::text::chars_of("x");
    proof {
        reveal_strlit("x");
    }
    match crate::text::seq_find_from(cs.as_slice(), x.as_slice(), 0) {
        Some(k) => {
            proof {
                crate::text::lemma_find_from(s@, "x"@, 0, k as int);
            }
            let n = cs.len();
            assert(k + 1 <= n);
            let w = crate::text::slice_to_vec(cs.as_slice(), 0, k);
            let h = crate::text::slice_to_vec(cs.as_slice(), k + 1, n);
            assert(w@ =~= s@.take(k as int));
            assert(h@ =~= s@.skip(k + 1));
            Some((crate::text::string_from(w.as_slice()), crate::text::string_from(h.as_slice())))
        },
        None => {
            proof {
                crate::text::lemma_find_from_none(s@, "x"@, 0);
            }
            None
        },
    }
}


/// The adapter's loss is reported once: after it was there, two
/// unreadable looks give one `Disconnected` and then nothing.
pub proof fn law_loss_reported_once()
    ensures
        poll_step(true, None).1 == Some(GccMessage::Disconnected),
        poll_step(poll_step(true, None).0, None).1 is None,
{
}

/// The packed frame holds `height` rows of `width` pixels of four bytes.
pub proof fn law_rows_length(data: Seq<u8>, stride: int, row_len: int, n: nat)
    requires
        row_len >= 0,
        n > 0 ==> (n - 1) * stride + row_len <= data.len(),
        stride >= 0,
    ensures
        rows(data, stride, row_len, n).len() == n * row_len,
    decreases n,
{
    if n > 0 {
        assert((n - 1) * stride >= 0) by (nonlinear_arith) requires n > 0, stride >= 0;
        if n > 1 {
            assert((n - 2) * stride <= (n - 1) * stride) by (nonlinear_arith) requires n > 1, stride >= 0;
        }
        law_rows_length(data, stride, row_len, (n - 1) as nat);
        let start = (n - 1) * stride;
        assert(data.subrange(start, start + row_len).len() == row_len);
        assert(rows(data, stride, row_len, n) == rows(data, stride, row_len, (n - 1) as nat) + data.subrange(start, start + row_len));
        assert(n * row_len == (n - 1) * row_len + row_len) by (nonlinear_arith);
    } else {
        assert(n * row_len == 0) by (nonlinear_arith) requires n == 0;
    }
}

} // verus!

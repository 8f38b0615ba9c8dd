//! Regular expressions, through the `regex` crate.
use vstd::prelude::*;

verus! {

/// Name for what compiling `pattern` and replacing all its matches in
/// `text` by `rep` gives: `None` when the pattern does not compile.
pub uninterp spec fn regex_replaced(pattern: Seq<char>, text: Seq<char>, rep: Seq<char>) -> Option<Seq<char>>;

/// `Regex::new(pattern)` followed by `Regex::replace_all(text, rep)`: the
/// result depends on the three strings alone and is given a name; nothing
/// else is claimed.
#[verifier::external_body]
pub(crate) fn regex_replace_all(pattern: &str, text: &str, rep: &str) -> (r: Option<String>)
    ensures
        match r {
            Some(s) => regex_replaced(pattern@, text@, rep@) == Some(s@),
            None => regex_replaced(pattern@, text@, rep@) is None,
        },
{
    match regex::Regex::new(pattern) {
        Ok(re) => Some(re.replace_all(text, rep).into_owned()),
        Err(_) => None,
    }
}

/// Name for the capture groups of the first match of `pattern` in `text`
/// (group 0 first; a group that took no part is `None`): `None` outside
/// when the pattern does not compile, `None` inside when nothing matches.
pub uninterp spec fn regex_captured(pattern: Seq<char>, text: Seq<char>) -> Option<Option<Seq<Option<Seq<char>>>>>;

/// An optional string by its view.
pub open spec fn opt_view(o: Option<String>) -> Option<Seq<char>> {
    match o {
        Some(s) => Some(s@),
        None => None,
    }
}

/// `Regex::new(pattern)` followed by `Regex::captures(text)`: the groups
/// depend on the two strings alone and are given a name; nothing else is
/// claimed.
#[verifier::external_body]
pub(crate) fn regex_captures(pattern: &str, text: &str) -> (r: Option<Option<Vec<Option<String>>>>)
    ensures
        match r {
            None => regex_captured(pattern@, text@) is None,
            Some(None) => regex_captured(pattern@, text@) == Some(None::<Seq<Option<Seq<char>>>>),
            Some(Some(g)) => regex_captured(pattern@, text@) == Some(Some(g@.map_values(|x: Option<String>| opt_view(x)))),
        },
{
    let re = match regex::Regex::new(pattern) { Ok(re) => re, Err(_) => return None };
    let caps = match re.captures(text) { Some(c) => c, None => return Some(None) };
    let mut groups = Vec::new();
    for m in caps.iter() {
        groups.push(m.map(|m| m.as_str().to_string()));
    }
    Some(Some(groups))
}

} // verus!

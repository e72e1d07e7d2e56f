//! Pattern search and substitution, done by the `regex` crate.
//!
//! What a pattern matches is the business of that crate. Nothing here is
//! proved about it: each result is given a name, and the rest of the
//! library states its contracts over those names.

use vstd::prelude::*;

verus! {

/// The text that `regex::Regex::replace_all` gives when the pattern
/// compiled from `pattern` is applied to `text` with `replacement`;
/// `None` where `regex::Regex::new` turns `pattern` down.
pub uninterp spec fn regex_replace_all(
    pattern: Seq<char>,
    text: Seq<char>,
    replacement: Seq<char>,
) -> Option<Seq<char>>;

/// The text of capture group `group` in the leftmost match that
/// `regex::Regex::captures` finds for `pattern` in `text`; `None` where
/// `regex::Regex::new` turns `pattern` down, where nothing matches and
/// where the group took no part in the match.
pub uninterp spec fn regex_capture(pattern: Seq<char>, text: Seq<char>, group: int) -> Option<
    Seq<char>,
>;

/// The characters of an optional string.
pub open spec fn text_of(s: Option<String>) -> Option<Seq<char>> {
    match s {
        Some(s) => Some(s@),
        None => None,
    }
}

/// `s` occurs in `text` as one unbroken run of characters.
pub open spec fn occurs_in(s: Seq<char>, text: Seq<char>) -> bool {
    exists|from: int, to: int|
        0 <= from <= to <= text.len() && #[trigger] text.subrange(from, to) == s
}

/// `kept` says where in `text` each character of `out` comes from: the
/// places rise from one character of `out` to the next.
pub open spec fn picks(kept: Seq<int>, out: Seq<char>, text: Seq<char>) -> bool {
    &&& kept.len() == out.len()
    &&& forall|i: int|
        0 <= i < kept.len() ==> 0 <= #[trigger] kept[i] < text.len() && out[i] == text[kept[i]]
    &&& forall|i: int, j: int| 0 <= i < j < kept.len() ==> #[trigger] kept[i] < #[trigger] kept[j]
}

/// `out` is what remains of `text` when some of its characters are
/// deleted: nothing is added and nothing changes place.
pub open spec fn remains_of(out: Seq<char>, text: Seq<char>) -> bool {
    exists|kept: Seq<int>| picks(kept, out, text)
}

/// Calls `regex::Regex::new` and then `regex::Regex::replace_all`.
///
/// Believed, not proved: the outcome depends on the three texts alone, so
/// it is the value named `regex_replace_all`; and, as `replace_all` copies
/// the stretches of the text between one match and the next and puts the
/// replacement where a match was, with an empty replacement what comes
/// back is the text less some of its characters. Neither call panics; a
/// pattern that does not compile comes back as `None`.
#[verifier::external_body]
pub(crate) fn replace_all(pattern: &str, text: &str, replacement: &str) -> (out: Option<String>)
    ensures
        text_of(out) == regex_replace_all(pattern@, text@, replacement@),
        replacement@.len() == 0 ==> (out matches Some(rest) ==> remains_of(rest@, text@)),
{
    match regex::Regex::new(pattern) {
        Ok(re) => Some(re.replace_all(text, replacement).into_owned()),
        Err(_) => None,
    }
}

/// Calls `regex::Regex::new`, then `regex::Regex::captures`, and reads one
/// group with `regex::Captures::get` and `regex::Match::as_str`.
///
/// Believed, not proved: the outcome depends on the arguments alone, so it
/// is the value named `regex_capture`; and, as `Match::as_str` slices the
/// searched text, what comes back occurs in `text`. None of the calls
/// panics.
#[verifier::external_body]
pub(crate) fn first_capture(pattern: &str, text: &str, group: usize) -> (out: Option<String>)
    ensures
        text_of(out) == regex_capture(pattern@, text@, group as int),
        out matches Some(s) ==> occurs_in(s@, text@),
{
    match regex::Regex::new(pattern) {
        Ok(re) => re.captures(text).and_then(|caps| caps.get(group)).map(|m| m.as_str().to_string()),
        Err(_) => None,
    }
}

} // verus!

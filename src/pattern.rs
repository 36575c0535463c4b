//! Matching text against regular expressions.
use vstd::prelude::*;

verus! {

/// The capture groups, group 0 first, of the leftmost-first match of
/// `pattern` in `text`; `None` where the pattern does not compile or has no
/// match. A group that took no part in the match is `None`.
pub uninterp spec fn regex_captures(pattern: Seq<char>, text: Seq<char>) -> Option<Seq<Option<Seq<char>>>>;

/// The groups that a call of `first_captures` returned, as values.
pub open spec fn captures_view(c: Option<Vec<Option<String>>>) -> Option<Seq<Option<Seq<char>>>> {
    match c {
        Some(groups) => Some(
            groups@.map_values(
                |g: Option<String>|
                    match g {
                        Some(s) => Some(s@),
                        None => None,
                    },
            ),
        ),
        None => None,
    }
}

/// Group `i` of a match, where there is a match and the group took part in it.
pub open spec fn group_of(c: Option<Seq<Option<Seq<char>>>>, i: int) -> Option<Seq<char>> {
    match c {
        Some(groups) => if 0 <= i < groups.len() {
            groups[i]
        } else {
            None
        },
        None => None,
    }
}

/// Relies on `regex::Regex::new`, which compiles `pattern`, and
/// `regex::Regex::captures`, which gives the groups of the leftmost-first
/// match in `text`. The result depends on the two texts alone.
#[verifier::external_body]
pub(crate) fn first_captures(pattern: &str, text: &str) -> (r: Option<Vec<Option<String>>>)
    ensures
        captures_view(r) == regex_captures(pattern@, text@),
{
    let re = regex::Regex::new(pattern).ok()?;
    let caps = re.captures(text)?;
    Some(caps.iter().map(|g| g.map(|m| m.as_str().to_string())).collect())
}

/// Group `i` of the match that `caps` holds.
pub fn group(caps: &Option<Vec<Option<String>>>, i: usize) -> (r: Option<String>)
    ensures
        (match r {
            Some(s) => Some(s@),
            None => None,
        }) == group_of(captures_view(*caps), i as int),
{
    match caps {
        Some(groups) => {
            if i < groups.len() {
                match &groups[i] {
                    Some(s) => Some(s.clone()),
                    None => None,
                }
            } else {
                None
            }
        },
        None => None,
    }
}

} // verus!

//! Regular-expression matching, as the `regex` crate performs it.

use vstd::prelude::*;

verus! {

/// Whether `Regex::new(pattern)` compiles and then `is_match(text)` holds: `None` when the
/// pattern does not compile.
pub uninterp spec fn regex_is_match(pattern: Seq<char>, text: Seq<char>) -> Option<bool>;

/// The capture groups of the leftmost-first match of `pattern` in `text` (group 0 the whole
/// match, an unmatched group `None`): `None` when the pattern does not compile, `Some(None)`
/// when nothing matches.
pub uninterp spec fn regex_captures(pattern: Seq<char>, text: Seq<char>) -> Option<
    Option<Seq<Option<Seq<char>>>>,
>;

pub open spec fn groups_view(g: Option<Option<Vec<Option<String>>>>) -> Option<
    Option<Seq<Option<Seq<char>>>>,
> {
    match g {
        None => None,
        Some(None) => Some(None),
        Some(Some(v)) => Some(
            Some(
                Seq::new(
                    v@.len(),
                    |i: int|
                        match v@[i] {
                            Some(s) => Some(s@),
                            None => None,
                        },
                ),
            ),
        ),
    }
}

/// `Regex::new(pattern)` then `is_match(text)`.
#[verifier::external_body]
pub fn is_match(pattern: &str, text: &str) -> (r: Option<bool>)
    ensures
        r == regex_is_match(pattern@, text@),
{
    match regex::Regex::new(pattern) {
        Ok(re) => Some(re.is_match(text)),
        Err(_) => None,
    }
}

/// `Regex::new(pattern)` then `captures(text)`, each group copied out as text.
#[verifier::external_body]
pub fn captures(pattern: &str, text: &str) -> (r: Option<Option<Vec<Option<String>>>>)
    ensures
        groups_view(r) == regex_captures(pattern@, text@),
{
    match regex::Regex::new(pattern) {
        Ok(re) => Some(
            re.captures(text).map(
                |c| c.iter().map(|m| m.map(|m| m.as_str().to_string())).collect(),
            ),
        ),
        Err(_) => None,
    }
}

/// Group `i` of a match, if the pattern compiled, matched, and the group took part.
pub open spec fn capture_group(pattern: Seq<char>, text: Seq<char>, i: int) -> Option<Seq<char>> {
    match regex_captures(pattern, text) {
        Some(Some(groups)) => if 0 <= i < groups.len() {
            groups[i]
        } else {
            None
        },
        _ => None,
    }
}

/// Group `i` of the first match of `pattern` in `text`.
pub fn capture_group_of(pattern: &str, text: &str, i: usize) -> (r: Option<String>)
    ensures
        match r {
            Some(s) => capture_group(pattern@, text@, i as int) == Some(s@),
            None => capture_group(pattern@, text@, i as int) is None,
        },
{
    let c = captures(pattern, text);
    match c {
        Some(Some(groups)) => {
            if i < groups.len() {
                match &groups[i] {
                    Some(s) => Some(s.clone()),
                    None => None,
                }
            } else {
                None
            }
        },
        _ => None,
    }
}

} // verus!

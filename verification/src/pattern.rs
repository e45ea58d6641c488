//! Regular expressions.
use vstd::prelude::*;

use crate::text::{occurs, opt_text, texts};

verus! {

/// What `Regex::find` returns: the leftmost match of a pattern in a text. There is
/// none where the pattern is not a regular expression.
pub uninterp spec fn first_match(pattern: Seq<char>, text: Seq<char>) -> Option<Seq<char>>;

/// What `Regex::captures` returns: the groups of the leftmost match of a pattern in a
/// text, without the match as a whole; a group that took no part is empty.
pub uninterp spec fn first_captures(pattern: Seq<char>, text: Seq<char>) -> Option<Seq<Seq<char>>>;

/// `Regex::new`, then `Regex::find`. The result is a function of the pattern and the
/// text, and a match is a part of the text.
#[verifier::external_body]
pub(crate) fn find_match(pattern: &str, text: &str) -> (r: Option<String>)
    ensures
        opt_text(r) == first_match(pattern@, text@),
        r matches Some(found) ==> occurs(text@, found@),
{
    let regex = regex::Regex::new(pattern).ok()?;
    regex.find(text).map(|found| found.as_str().to_string())
}

/// `Regex::new`, then `Regex::captures`. The result is a function of the pattern and
/// the text.
#[verifier::external_body]
pub(crate) fn find_captures(pattern: &str, text: &str) -> (r: Option<Vec<String>>)
    ensures
        match r {
            Some(groups) => first_captures(pattern@, text@) == Some(texts(groups@)),
            None => first_captures(pattern@, text@) is None,
        },
{
    let regex = regex::Regex::new(pattern).ok()?;
    let captures = regex.captures(text)?;
    let groups = captures.iter().skip(1);
    Some(groups.map(|group| group.map_or("", |m| m.as_str()).to_string()).collect())
}

} // verus!

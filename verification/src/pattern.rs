//! Searching text with regular expressions.
//!
//! The searching itself is the regex crate's. What it finds is handed on as
//! plain texts: for one match, the text of each group in the order of the
//! opening brackets, group 0 being the whole match, and `None` for a group
//! that took no part in the match.

use crate::error::result_view;
use crate::error::ErrorView;
use crate::error::ExtractorError;
use crate::exchange::output_at;
use crate::exchange::replies_view;
use crate::exchange::Reply;
use vstd::prelude::*;
use vstd::string::StringExecFns;

verus! {

/// The error of the regex crate for a pattern that it does not accept.
#[verifier::external_type_specification]
#[verifier::external_body]
pub struct ExRegexError(regex::Error);

/// What `Regex::captures` of the regex crate finds for the regular expression
/// written as `pattern` in `text`: the groups of the leftmost match, or `None`
/// where nothing matches. It says nothing of a pattern that the crate does
/// not accept.
pub uninterp spec fn regex_captures(pattern: Seq<char>, text: Seq<char>) -> Option<
    Seq<Option<Seq<char>>>,
>;

/// What `Regex::captures_iter` of the regex crate finds for the regular
/// expression written as `pattern` in `text`: the groups of each of the
/// successive matches that do not overlap, in their order. It says nothing of
/// a pattern that the crate does not accept.
pub uninterp spec fn regex_captures_all(pattern: Seq<char>, text: Seq<char>) -> Seq<
    Seq<Option<Seq<char>>>,
>;

/// Calls `Regex::new` and `Regex::captures` of the regex crate, and copies
/// the text of each group out of the match. Nothing is claimed of when the
/// crate accepts a pattern; for one that it accepts the contract gives what
/// was found its name.
#[verifier::external_body]
fn captures(pattern: &str, text: &str) -> (r: Result<Option<Vec<Option<String>>>, regex::Error>)
    ensures
        r matches Ok(found) ==> found.deep_view() == regex_captures(pattern@, text@),
{
    let re = regex::Regex::new(pattern)?;
    Ok(re.captures(text).map(|c| c.iter().map(|m| m.map(|m| m.as_str().to_owned())).collect()))
}

/// Calls `Regex::new` and `Regex::captures_iter` of the regex crate, and
/// copies the text of each group out of each match. Nothing is claimed of
/// when the crate accepts a pattern; for one that it accepts the contract
/// gives what was found its name.
#[verifier::external_body]
fn captures_iter(pattern: &str, text: &str) -> (r: Result<Vec<Vec<Option<String>>>, regex::Error>)
    ensures
        r matches Ok(found) ==> found.deep_view() == regex_captures_all(pattern@, text@),
{
    let re = regex::Regex::new(pattern)?;
    let all = re.captures_iter(text);
    Ok(all.map(|c| c.iter().map(|m| m.map(|m| m.as_str().to_owned())).collect()).collect())
}

/// What is said of a pattern that was not accepted.
pub const PATTERN_REJECTED: &'static str = "a pattern was not accepted as a regular expression";

/// The error for a pattern that was not accepted.
pub open spec fn pattern_rejected() -> ErrorView {
    ErrorView::AssertionFailed(PATTERN_REJECTED@)
}

/// The text of group `index` of a match; `None` where the match has no such
/// group or the group took no part in it.
pub open spec fn group_text(groups: Seq<Option<Seq<char>>>, index: int) -> Option<Seq<char>> {
    if 0 <= index < groups.len() {
        groups[index]
    } else {
        None
    }
}

/// The text of group `index` of what a search found; `None` where nothing
/// was found.
pub open spec fn found_text(found: Option<Seq<Option<Seq<char>>>>, index: int) -> Option<
    Seq<char>,
> {
    match found {
        Some(groups) => group_text(groups, index),
        None => None,
    }
}

/// The text of an optional string.
pub open spec fn text_of(s: Option<String>) -> Option<Seq<char>> {
    match s {
        Some(s) => Some(s@),
        None => None,
    }
}

/// Copies the text of group `index` out of a match.
pub fn group(groups: &Vec<Option<String>>, index: usize) -> (r: Option<String>)
    ensures
        text_of(r) == group_text(groups.deep_view(), index as int),
{
    if index < groups.len() {
        match &groups[index] {
            Some(s) => Some(s.clone()),
            None => None,
        }
    } else {
        None
    }
}

/// Copies the text of group `index` out of what a search found.
pub fn found_group(found: &Option<Vec<Option<String>>>, index: usize) -> (r: Option<String>)
    ensures
        text_of(r) == found_text(found.deep_view(), index as int),
{
    match found {
        Some(groups) => group(groups, index),
        None => None,
    }
}

/// The text of group 1 of what a search found; where there is none, the
/// error that names what was looked for.
pub open spec fn required_text(found: Option<Seq<Option<Seq<char>>>>, what: Seq<char>) -> Result<
    Seq<char>,
    ErrorView,
> {
    match found_text(found, 1) {
        Some(text) => Ok(text),
        None => Err(ErrorView::NoCaptures(what)),
    }
}

/// Copies the text of group 1 out of what a search found. Fails with
/// [`ExtractorError::NoCaptures`] where nothing was found.
pub fn required_group(found: &Option<Vec<Option<String>>>, what: &'static str) -> (r: Result<
    String,
    ExtractorError,
>)
    ensures
        result_view(r) == required_text(found.deep_view(), what@),
{
    match found_group(found, 1) {
        Some(text) => Ok(text),
        None => Err(ExtractorError::no_captures(what)),
    }
}

/// Searches `text` for the leftmost match of `pattern`. Where the pattern is
/// accepted, the result is what the regex crate finds; where it is not, the
/// error says so.
pub fn first_match(pattern: &str, text: &str) -> (r: Result<
    Option<Vec<Option<String>>>,
    ExtractorError,
>)
    ensures
        match r {
            Ok(found) => found.deep_view() == regex_captures(pattern@, text@),
            Err(e) => e@ == pattern_rejected(),
        },
{
    match captures(pattern, text) {
        Ok(found) => Ok(found),
        Err(_) => Err(ExtractorError::assertion_failed(String::from_str(PATTERN_REJECTED))),
    }
}

/// Searches `text` for all the matches of `pattern`. Where the pattern is
/// accepted, the result is what the regex crate finds; where it is not, the
/// error says so.
pub fn all_matches(pattern: &str, text: &str) -> (r: Result<
    Vec<Vec<Option<String>>>,
    ExtractorError,
>)
    ensures
        match r {
            Ok(found) => found.deep_view() == regex_captures_all(pattern@, text@),
            Err(e) => e@ == pattern_rejected(),
        },
{
    match captures_iter(pattern, text) {
        Ok(found) => Ok(found),
        Err(_) => Err(ExtractorError::assertion_failed(String::from_str(PATTERN_REJECTED))),
    }
}

/// Searches the reply at `index`, where it is an output, for the leftmost
/// match of `pattern`. The error is that of [`pattern_rejected`].
pub fn search_output(replies: &[Reply], index: usize, pattern: &str) -> (r: Result<
    Option<Vec<Option<String>>>,
    ExtractorError,
>)
    ensures
        match r {
            Ok(found) => found.deep_view() == match output_at(
                replies_view(replies@),
                index as int,
            ) {
                Some(text) => regex_captures(pattern@, text),
                None => None,
            },
            Err(e) => e@ == pattern_rejected() && output_at(replies_view(replies@), index as int)
                is Some,
        },
{
    if index < replies.len() {
        match &replies[index] {
            Reply::Output(text) => first_match(pattern, text.as_str()),
            _ => Ok(None),
        }
    } else {
        Ok(None)
    }
}

} // verus!

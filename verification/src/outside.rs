//! The calls that leave this crate.
//!
//! Every function here hands its arguments to code that is not verified and
//! states, without proof, what comes back. Results that are a function of the
//! arguments alone carry a name, so that callers can state exact contracts.

use vstd::prelude::*;
use crate::text::{opt_text, texts};
use crate::time::TimeSpan;

verus! {

/// The lower-case form that `str::to_lowercase` of std gives a text.
pub uninterp spec fn lowercase(s: Seq<char>) -> Seq<char>;

/// Appends a character to a string with `String::push` of std.
#[verifier::external_body]
pub(crate) fn push_char(s: &mut String, c: char)
    ensures
        final(s)@ == old(s)@.push(c),
{
    s.push(c)
}

/// Calls `str::to_lowercase` of std. The result depends on the text alone and
/// is known here only by its name, `lowercase`.
#[verifier::external_body]
pub(crate) fn to_lowercase(s: &str) -> (out: String)
    ensures
        out@ == lowercase(s@),
{
    s.to_lowercase()
}

/// The views of a sequence of optional strings.
pub open spec fn opt_texts(v: Seq<Option<String>>) -> Seq<Option<Seq<char>>> {
    v.map_values(|o: Option<String>| opt_text(o))
}

/// The view of what a search for the first group of a first match gave.
pub open spec fn group_in_match(
    r: Option<Option<Option<String>>>,
) -> Option<Option<Option<Seq<char>>>> {
    match r {
        Some(Some(part)) => Some(Some(opt_text(part))),
        Some(None) => Some(None),
        None => None,
    }
}

/// The view of what a search for the first group of every match gave.
pub open spec fn groups_in_matches(
    r: Option<Vec<Option<String>>>,
) -> Option<Seq<Option<Seq<char>>>> {
    match r {
        Some(parts) => Some(opt_texts(parts@)),
        None => None,
    }
}

/// Whether `url::Url::parse` accepts a text as an absolute URL.
pub uninterp spec fn url_parses(text: Seq<char>) -> bool;

/// What `regex::Regex::is_match` says of a text, for the regular expression
/// that `regex::Regex::new` makes of a pattern; `None` where it makes none.
pub uninterp spec fn regex_is_match(pattern: Seq<char>, text: Seq<char>) -> Option<bool>;

/// What the group of the given number took in the first match that
/// `regex::Regex::captures` finds in a text, for the regular expression that
/// `regex::Regex::new` makes of a pattern. From the outside in, `None` stands
/// for a pattern of which it makes none, for a text without a match, and for
/// a match in which the group took no part.
pub uninterp spec fn regex_first_group(pattern: Seq<char>, group: nat, text: Seq<char>) -> Option<
    Option<Option<Seq<char>>>,
>;

/// What the group of the given number took in each of the successive matches
/// that `regex::Regex::captures_iter` yields for a text, `None` standing for
/// a match in which the group took no part; and `None` in all where
/// `regex::Regex::new` makes no regular expression of the pattern.
pub uninterp spec fn regex_all_groups(pattern: Seq<char>, group: nat, text: Seq<char>) -> Option<
    Seq<Option<Seq<char>>>,
>;

/// How `{:?}` of std formats a list of strings.
pub uninterp spec fn debug_list(items: Seq<Seq<char>>) -> Seq<char>;

/// Calls `url::Url::parse` and says whether it gave a URL. The answer depends
/// on the text alone and is known here only by its name, `url_parses`.
#[verifier::external_body]
pub(crate) fn parses_as_url(text: &str) -> (ok: bool)
    ensures
        ok == url_parses(text@),
{
    url::Url::parse(text).is_ok()
}

/// Compiles a pattern with `regex::Regex::new` and asks `is_match` of the
/// text. The answer depends on the two texts alone and is known here only by
/// its name, `regex_is_match`.
#[verifier::external_body]
pub(crate) fn pattern_matches(pattern: &str, text: &str) -> (r: Option<bool>)
    ensures
        r == regex_is_match(pattern@, text@),
{
    match regex::Regex::new(pattern) {
        Ok(re) => Some(re.is_match(text)),
        Err(_) => None,
    }
}

/// Compiles a pattern with `regex::Regex::new`, takes the first match with
/// `captures` and asks `Captures::get` of it for what the group of the given
/// number took. The answer depends on the two texts and the number alone and
/// is known here only by its name, `regex_first_group`.
#[verifier::external_body]
pub(crate) fn first_group(
    pattern: &str,
    group: usize,
    text: &str,
) -> (r: Option<Option<Option<String>>>)
    ensures
        group_in_match(r) == regex_first_group(pattern@, group as nat, text@),
{
    match regex::Regex::new(pattern) {
        Ok(re) => match re.captures(text) {
            Some(found) => match found.get(group) {
                Some(part) => Some(Some(Some(part.as_str().to_string()))),
                None => Some(Some(None)),
            },
            None => Some(None),
        },
        Err(_) => None,
    }
}

/// Compiles a pattern with `regex::Regex::new`, walks the matches with
/// `captures_iter` and asks `Captures::get` of each for what the group of the
/// given number took. The answer depends on the two texts and the number
/// alone and is known here only by its name, `regex_all_groups`.
#[verifier::external_body]
pub(crate) fn all_groups(
    pattern: &str,
    group: usize,
    text: &str,
) -> (r: Option<Vec<Option<String>>>)
    ensures
        groups_in_matches(r) == regex_all_groups(pattern@, group as nat, text@),
{
    match regex::Regex::new(pattern) {
        Ok(re) => Some(
            re.captures_iter(text).map(
                |found| found.get(group).map(|part| part.as_str().to_string()),
            ).collect(),
        ),
        Err(_) => None,
    }
}

/// Formats a list of strings with `{:?}` of std. The text depends on the list
/// alone and is known here only by its name, `debug_list`.
#[verifier::external_body]
pub(crate) fn debug_format(items: &Vec<String>) -> (out: String)
    ensures
        out@ == debug_list(texts(items@)),
{
    format!("{:?}", items)
}

/// A reading of the monotonic clock of std.
#[verifier::external_type_specification]
#[verifier::external_body]
pub struct ExInstant(std::time::Instant);

/// Reads the monotonic clock with `std::time::Instant::now`. Nothing is known
/// of the reading.
#[verifier::external_body]
pub(crate) fn instant_now() -> (t: std::time::Instant) {
    std::time::Instant::now()
}

/// The time that passed from `earlier` to `later`, by
/// `std::time::Instant::saturating_duration_since`, in nanoseconds; no time at
/// all where `earlier` is the later one. Nothing more is known of it.
#[verifier::external_body]
pub(crate) fn time_between(
    later: &std::time::Instant,
    earlier: &std::time::Instant,
) -> (span: TimeSpan) {
    TimeSpan { nanos: later.saturating_duration_since(*earlier).as_nanos() }
}

} // verus!

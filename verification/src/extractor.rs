//! Picks out of the body of a control request what is worth a line in a
//! log.

use crate::text::{strip, stripped};
use regex::Regex;
use vstd::prelude::*;

verus! {

/// What the group `group` captures in the leftmost match of the regular
/// expression `pattern` in `text`, as the crate `regex` finds it. `None`
/// where `pattern` is no regular expression, where nothing matches, or
/// where the match leaves the group out.
pub uninterp spec fn regex_capture(pattern: Seq<char>, group: Seq<char>, text: Seq<char>) -> Option<
    Seq<char>,
>;

/// Matches `pattern` against `text` with `Regex::new` and
/// `Regex::captures`, and hands out what the group `group` captured, by
/// `Captures::name`.
///
/// Trusted: the result depends on the three arguments alone.
#[verifier::external_body]
fn capture(pattern: &str, group: &str, text: &str) -> (r: Option<String>)
    ensures
        match r {
            Some(found) => regex_capture(pattern@, group@, text@) == Some(found@),
            None => regex_capture(pattern@, group@, text@) is None,
        },
{
    let regex = Regex::new(pattern).ok()?;
    let captures = regex.captures(text)?;
    captures.name(group).map(|found| found.as_str().to_string())
}

/// The pattern for the URI of the current resource.
pub open spec fn current_uri_pattern() -> Seq<char> {
    "<CurrentURI>(?P<uri>[^<]+)</CurrentURI>"@
}

/// The pattern for the URI of the next resource.
pub open spec fn next_uri_pattern() -> Seq<char> {
    "<NextURI>(?P<uri>[^<]+)</NextURI>"@
}

/// The line for a URI that was found, under the label `label`; nothing
/// where none was found.
pub open spec fn highlight(label: Seq<char>, found: Option<Seq<char>>) -> Seq<Seq<char>> {
    match found {
        Some(uri) => seq![label + stripped(uri)],
        None => Seq::empty(),
    }
}

/// The lines for a request to `path` in whose body the URIs `current` and
/// `next` were found: only requests to `/AVTransport` have any.
pub open spec fn highlights(
    path: Seq<char>,
    current: Option<Seq<char>>,
    next: Option<Seq<char>>,
) -> Seq<Seq<char>> {
    if path == "/AVTransport"@ {
        highlight("Current URI: "@, current) + highlight("Next URI: "@, next)
    } else {
        Seq::empty()
    }
}

/// The values of a list of texts.
pub open spec fn line_views(lines: Seq<String>) -> Seq<Seq<char>> {
    lines.map_values(|line: String| line@)
}

/// The value of a text that may be absent.
pub open spec fn found_view(found: Option<String>) -> Option<Seq<char>> {
    match found {
        Some(text) => Some(text@),
        None => None,
    }
}

/// The lines for a request to `path` in whose body the URIs `current` and
/// `next` were found.
pub fn summarize(path: &str, current: Option<String>, next: Option<String>) -> (r: Vec<String>)
    ensures
        line_views(r@) == highlights(path@, found_view(current), found_view(next)),
{
    let mut lines: Vec<String> = Vec::new();
    assert(line_views(lines@) =~= Seq::<Seq<char>>::empty());
    if !crate::text::same_text(path, "/AVTransport") {
        return lines;
    }
    match current {
        Some(uri) => {
            let mut line = String::from_str("Current URI: ");
            line.append(strip(uri.as_str()).as_str());
            lines.push(line);
            assert(line_views(lines@) =~= highlight("Current URI: "@, found_view(current)));
        },
        None => {},
    }
    let ghost first = line_views(lines@);
    match next {
        Some(uri) => {
            let mut line = String::from_str("Next URI: ");
            line.append(strip(uri.as_str()).as_str());
            lines.push(line);
            assert(line_views(lines@) =~= first + highlight("Next URI: "@, found_view(next)));
        },
        None => {
            assert(first + Seq::<Seq<char>>::empty() =~= first);
        },
    }
    lines
}

/// Picks out of the body `text` of a request to `path` what is worth a
/// line in a log: the URIs that a request to `/AVTransport` names.
pub fn extract(path: &str, text: &str) -> (r: Vec<String>)
    ensures
        line_views(r@) == highlights(
            path@,
            regex_capture(current_uri_pattern(), "uri"@, text@),
            regex_capture(next_uri_pattern(), "uri"@, text@),
        ),
{
    let current = capture("<CurrentURI>(?P<uri>[^<]+)</CurrentURI>", "uri", text);
    let next = capture("<NextURI>(?P<uri>[^<]+)</NextURI>", "uri", text);
    summarize(path, current, next)
}

} // verus!

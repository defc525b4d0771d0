//! Small collaborators of the pipeline: the clock, file names and video
//! identifiers.

use crate::text::{
    ends_with, from_chars, has_suffix, same_chars, strip_bounds, to_chars, trim, Margin,
};
use std::time::{Duration, SystemTime, SystemTimeError};
use vstd::prelude::*;

verus! {

/// `std::time::SystemTime`: a reading of the system clock.
#[verifier::external_type_specification]
#[verifier::external_body]
pub struct ExSystemTime(SystemTime);

/// `std::time::SystemTimeError`: the failure of `duration_since`.
#[verifier::external_type_specification]
#[verifier::external_body]
pub struct ExSystemTimeError(SystemTimeError);

/// `SystemTime::now` reads the system clock; nothing is claimed of it.
pub assume_specification[ SystemTime::now ]() -> (now: SystemTime)
;

/// `SystemTime::duration_since` gives the time elapsed since `earlier`, or an
/// error when `earlier` is the later of the two; nothing is claimed of which.
pub assume_specification[ SystemTime::duration_since ](
    time: &SystemTime,
    earlier: SystemTime,
) -> (elapsed: Result<Duration, SystemTimeError>)
;

/// `Duration::as_secs` gives the whole seconds that the duration holds: a
/// function of the duration alone.
pub assume_specification[ Duration::as_secs ](duration: &Duration) -> (seconds: u64)
    ensures
        seconds == whole_seconds(*duration),
;

/// The constant `std::time::UNIX_EPOCH`.
#[verifier::external_body]
fn unix_epoch() -> (epoch: SystemTime) {
    std::time::UNIX_EPOCH
}

/// The current Unix time in whole seconds; zero if the clock reads a time
/// before the epoch.
pub fn get_timestamp() -> (seconds: u64)
    ensures
        exists|elapsed: Result<Duration, SystemTimeError>| seconds == seconds_of(elapsed),
{
    let now = SystemTime::now();
    let elapsed: Result<Duration, SystemTimeError> = now.duration_since(unix_epoch());
    let seconds: u64 = seconds_since_epoch(elapsed);
    assert(seconds == seconds_of(elapsed));
    seconds
}

/// The whole seconds that a duration holds: what `Duration::as_secs` returns
/// for it.
pub uninterp spec fn whole_seconds(duration: Duration) -> u64;

/// The Unix time that a measurement of the clock against the epoch stands
/// for: the whole seconds elapsed, zero where the clock reads a time before
/// the epoch.
pub open spec fn seconds_of(elapsed: Result<Duration, SystemTimeError>) -> u64 {
    match elapsed {
        Ok(duration) => whole_seconds(duration),
        Err(_) => 0,
    }
}

/// The Unix time that a measurement of the clock against the epoch stands
/// for.
pub fn seconds_since_epoch(elapsed: Result<Duration, SystemTimeError>) -> (seconds: u64)
    ensures
        seconds == seconds_of(elapsed),
{
    match elapsed {
        Ok(duration) => duration.as_secs(),
        Err(_) => 0,
    }
}

/// The character that stands in a file name for `c`: an underscore for each
/// character that a file system may refuse, `c` itself otherwise.
pub open spec fn safe_char(c: char) -> char {
    if c == '<' || c == '>' || c == ':' || c == '"' || c == '/' || c == '\\' || c == '|' || c
        == '?' || c == '*' {
        '_'
    } else {
        c
    }
}

/// The file name made from `name`: every character replaced by its safe
/// stand-in, then white space removed from both ends.
pub open spec fn sanitized(name: Seq<char>) -> Seq<char> {
    trim(name.map_values(|c: char| safe_char(c)))
}

fn replace_unsafe(c: char) -> (r: char)
    ensures
        r == safe_char(c),
{
    if c == '<' || c == '>' || c == ':' || c == '"' || c == '/' || c == '\\' || c == '|' || c
        == '?' || c == '*' {
        '_'
    } else {
        c
    }
}

/// Replaces the characters that file systems refuse and trims the result.
pub fn sanitize_filename(filename: &str) -> (safe: String)
    ensures
        safe@ == sanitized(filename@),
{
    let source: Vec<char> = to_chars(filename);
    let mut mapped: Vec<char> = Vec::new();
    let mut i: usize = 0;
    while i < source.len()
        invariant
            i <= source.len(),
            mapped@ == source@.take(i as int).map_values(|c: char| safe_char(c)),
        decreases source.len() - i,
    {
        mapped.push(replace_unsafe(source[i]));
        i = i + 1;
        assert(source@.take(i as int) == source@.take(i - 1).push(source@[i - 1]));
        assert(mapped@ == source@.take(i as int).map_values(|c: char| safe_char(c)));
    }
    assert(source@.take(source.len() as int) == source@);
    let (lo, hi) = strip_bounds(Margin::Whitespace, &mapped);
    from_chars(&mapped, lo, hi)
}

/// `char::is_alphanumeric`, as a function of the character: whether it has
/// the Unicode property `Alphabetic` or one of the numeric categories.
pub uninterp spec fn alphanumeric(c: char) -> bool;

/// `char::is_alphanumeric` decides by the character alone.
pub assume_specification[ char::is_alphanumeric ](c: char) -> (yes: bool)
    ensures
        yes == alphanumeric(c),
;

/// What the identifier extraction reads from a parsed URL.
#[derive(Debug, PartialEq, Eq)]
pub struct UrlParts {
    /// The host, where the URL has one.
    pub host: Option<String>,
    /// The segments of the path, where the URL can be a base.
    pub segments: Option<Vec<String>>,
    /// The key and value of each pair of the query string, in order.
    pub pairs: Vec<(String, String)>,
}

/// The mathematical content of a [`UrlParts`].
pub ghost struct UrlModel {
    pub host: Option<Seq<char>>,
    pub segments: Option<Seq<Seq<char>>>,
    pub pairs: Seq<(Seq<char>, Seq<char>)>,
}

impl View for UrlParts {
    type V = UrlModel;

    open spec fn view(&self) -> UrlModel {
        UrlModel {
            host: match self.host {
                Some(h) => Some(h@),
                None => None,
            },
            segments: match self.segments {
                Some(v) => Some(v@.map_values(|s: String| s@)),
                None => None,
            },
            pairs: self.pairs@.map_values(|p: (String, String)| (p.0@, p.1@)),
        }
    }
}

/// What `url::Url::parse` makes of `input`: nothing where it is no absolute
/// URL, else the host, path segments and query pairs that the parsed URL
/// reports.
pub uninterp spec fn parsed_url(input: Seq<char>) -> Option<UrlModel>;

/// Parses `input` with `url::Url::parse` and copies out what `host_str`,
/// `path_segments` and `query_pairs` report of the result. The parts are a
/// function of the input text alone.
#[verifier::external_body]
fn parse_url(input: &str) -> (parts: Option<UrlParts>)
    ensures
        opt_url(parts) == parsed_url(input@),
{
    let url = url::Url::parse(input).ok()?;
    Some(
        UrlParts {
            host: url.host_str().map(String::from),
            segments: url.path_segments().map(|s| s.map(String::from).collect()),
            pairs: url.query_pairs().map(|(k, v)| (k.into_owned(), v.into_owned())).collect(),
        },
    )
}

/// A character that may stand in a bare video identifier.
pub open spec fn is_id_char(c: char) -> bool {
    alphanumeric(c) || c == '-' || c == '_'
}

/// A bare video identifier: eleven characters, each a letter, a digit, a
/// hyphen or an underscore.
pub open spec fn is_bare_id(s: Seq<char>) -> bool {
    s.len() == 11 && forall|i: int| 0 <= i < s.len() ==> is_id_char(#[trigger] s[i])
}

/// The value of the first pair whose key is `key`.
pub open spec fn first_value(pairs: Seq<(Seq<char>, Seq<char>)>, key: Seq<char>) -> Option<
    Seq<char>,
>
    decreases pairs.len(),
{
    if pairs.len() == 0 {
        None
    } else if pairs[0].0 == key {
        Some(pairs[0].1)
    } else {
        first_value(pairs.drop_first(), key)
    }
}

/// Whether the URL has a host that ends with `suffix`.
pub open spec fn host_ends_with(url: UrlModel, suffix: Seq<char>) -> bool {
    url.host matches Some(h) && ends_with(h, suffix)
}

/// The identifier that a parsed URL carries: the last path segment of a
/// short link, the `v` parameter of a watch link, nothing otherwise.
pub open spec fn id_in_url(url: UrlModel) -> Option<Seq<char>> {
    if host_ends_with(url, "youtu.be"@) {
        match url.segments {
            Some(segments) => if segments.len() > 0 {
                Some(segments.last())
            } else {
                None
            },
            None => None,
        }
    } else if host_ends_with(url, "youtube.com"@) {
        first_value(url.pairs, "v"@)
    } else {
        None
    }
}

/// The identifier in the trimmed input `text`, given what parsing it as a
/// URL gave.
pub open spec fn video_id(text: Seq<char>, url: Option<UrlModel>) -> Option<Seq<char>> {
    if is_bare_id(text) {
        Some(text)
    } else {
        match url {
            Some(u) => id_in_url(u),
            None => None,
        }
    }
}

/// The view of an optional string.
pub open spec fn opt_view(s: Option<String>) -> Option<Seq<char>> {
    match s {
        Some(s) => Some(s@),
        None => None,
    }
}

/// The view of an optional URL.
pub open spec fn opt_url(parts: Option<UrlParts>) -> Option<UrlModel> {
    match parts {
        Some(p) => Some(p@),
        None => None,
    }
}

/// Whether `text` is a bare video identifier.
pub fn check_bare_id(text: &Vec<char>) -> (bare: bool)
    ensures
        bare == is_bare_id(text@),
{
    if text.len() != 11 {
        return false;
    }
    let mut i: usize = 0;
    while i < text.len()
        invariant
            i <= text.len(),
            forall|j: int| 0 <= j < i ==> is_id_char(#[trigger] text@[j]),
        decreases text.len() - i,
    {
        let c: char = text[i];
        if !(c.is_alphanumeric() || c == '-' || c == '_') {
            return false;
        }
        i = i + 1;
    }
    true
}

fn host_has_suffix(parts: &UrlParts, suffix: &str) -> (found: bool)
    ensures
        found == host_ends_with(parts@, suffix@),
{
    match &parts.host {
        Some(h) => {
            let host: Vec<char> = to_chars(h.as_str());
            let tail: Vec<char> = to_chars(suffix);
            has_suffix(&host, &tail)
        },
        None => false,
    }
}

fn find_value(pairs: &Vec<(String, String)>, key: &str) -> (value: Option<String>)
    ensures
        opt_view(value) == first_value(
            pairs@.map_values(|p: (String, String)| (p.0@, p.1@)),
            key@,
        ),
{
    let ghost model = pairs@.map_values(|p: (String, String)| (p.0@, p.1@));
    let wanted: Vec<char> = to_chars(key);
    let mut i: usize = 0;
    assert(model.skip(0) == model);
    while i < pairs.len()
        invariant
            i <= pairs.len(),
            wanted@ == key@,
            model == pairs@.map_values(|p: (String, String)| (p.0@, p.1@)),
            first_value(model, key@) == first_value(model.skip(i as int), key@),
        decreases pairs.len() - i,
    {
        let name: Vec<char> = to_chars(pairs[i].0.as_str());
        assert(model.skip(i as int)[0] == (pairs@[i as int].0@, pairs@[i as int].1@));
        if same_chars(&name, &wanted) {
            return Some(pairs[i].1.clone());
        }
        assert(model.skip(i as int).drop_first() == model.skip(i + 1));
        i = i + 1;
    }
    None
}

/// The identifier that a parsed URL carries.
pub fn id_from_url(parts: &UrlParts) -> (id: Option<String>)
    ensures
        opt_view(id) == id_in_url(parts@),
{
    if host_has_suffix(parts, "youtu.be") {
        match &parts.segments {
            Some(segments) => {
                if segments.len() > 0 {
                    let last: &String = &segments[segments.len() - 1];
                    Some(last.clone())
                } else {
                    None
                }
            },
            None => None,
        }
    } else if host_has_suffix(parts, "youtube.com") {
        find_value(&parts.pairs, "v")
    } else {
        None
    }
}

/// The video identifier in the trimmed input `text`, given what parsing it
/// as a URL gave.
pub fn video_id_from(text: &str, parts: &Option<UrlParts>) -> (id: Option<String>)
    ensures
        opt_view(id) == video_id(text@, opt_url(*parts)),
{
    let core: Vec<char> = to_chars(text);
    if check_bare_id(&core) {
        return Some(from_chars(&core, 0, core.len()));
    }
    match parts {
        Some(p) => id_from_url(p),
        None => None,
    }
}

/// The input without the white space at its ends.
pub fn trimmed(input: &str) -> (text: String)
    ensures
        text@ == trim(input@),
{
    let chars: Vec<char> = to_chars(input);
    let (lo, hi) = strip_bounds(Margin::Whitespace, &chars);
    from_chars(&chars, lo, hi)
}

/// Extracts the video identifier from a bare identifier, a short link or a
/// watch link; white space around the input is ignored.
pub fn extract_video_id(input: &str) -> (id: Option<String>)
    ensures
        opt_view(id) == video_id(trim(input@), parsed_url(trim(input@))),
{
    let text: String = trimmed(input);
    let parts: Option<UrlParts> = parse_url(text.as_str());
    video_id_from(text.as_str(), &parts)
}

} // verus!

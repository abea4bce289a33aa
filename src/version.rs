//! Resolving the published version of a package from its details page, and
//! deciding whether it differs from the version known locally.

use vstd::prelude::*;

verus! {

/// The pattern of the package-details heading; its first group is the version.
pub const HEADING_PATTERN: &'static str = r"<h2>Package Details: [^<]+ (.*)</h2>";

/// Why no version could be read from a details page.
#[derive(Debug, Clone, Copy, PartialEq, Eq, Structural)]
pub enum ParseError {
    /// The page holds no package-details heading: the package is unknown.
    NoVersionFound,
    /// The heading is there but its version is empty: the markup is unexpected.
    NoVersionCaptured,
}

/// What a regular expression captures in a text: `None` where it does not
/// match, else the text of its first group in the leftmost match, if that
/// group took part.
pub uninterp spec fn regex_first_group(pattern: Seq<char>, text: Seq<char>) -> Option<
    Option<Seq<char>>,
>;

/// What the heading pattern captures in a page.
pub open spec fn heading_capture(html: Seq<char>) -> Option<Option<Seq<char>>> {
    regex_first_group(HEADING_PATTERN@, html)
}

/// The view of a capture as handed out by the matcher.
pub open spec fn capture_model(c: Option<Option<String>>) -> Option<Option<Seq<char>>> {
    match c {
        None => None,
        Some(None) => Some(None),
        Some(Some(s)) => Some(Some(s@)),
    }
}

/// The version that a capture yields, or why it yields none.
pub open spec fn version_of(c: Option<Option<Seq<char>>>) -> Result<Seq<char>, ParseError> {
    match c {
        None => Err(ParseError::NoVersionFound),
        Some(None) => Err(ParseError::NoVersionCaptured),
        Some(Some(v)) => if v.len() == 0 {
            Err(ParseError::NoVersionCaptured)
        } else {
            Ok(v)
        },
    }
}

/// Whether a remote version counts as an update of a local one: any
/// difference at all, not an ordering of versions.
pub open spec fn differs(local: Seq<char>, remote: Seq<char>) -> bool {
    local != remote
}

/// Relies on `regex::Regex::new`, which accepts the heading pattern (any
/// other pattern is left out, as it might not compile), and on
/// `regex::Regex::captures` with `Captures::get(1)`: the first group of the
/// leftmost match, which depends on the pattern and the text alone.
#[verifier::external_body]
fn first_group(pattern: &str, text: &str) -> (r: Option<Option<String>>)
    requires
        pattern@ == HEADING_PATTERN@,
    ensures
        capture_model(r) == regex_first_group(pattern@, text@),
{
    let re = regex::Regex::new(pattern).unwrap();
    re.captures(text).map(|c| c.get(1).map(|m| m.as_str().to_string()))
}

/// The version that a capture of the heading yields.
pub fn version_from_capture(cap: Option<Option<String>>) -> (r: Result<String, ParseError>)
    ensures
        r is Ok <==> version_of(capture_model(cap)) is Ok,
        r is Ok ==> r->Ok_0@ == version_of(capture_model(cap))->Ok_0,
        r is Err ==> r->Err_0 == version_of(capture_model(cap))->Err_0,
{
    match cap {
        None => Err(ParseError::NoVersionFound),
        Some(None) => Err(ParseError::NoVersionCaptured),
        Some(Some(v)) => {
            if v.as_str().unicode_len() == 0 {
                Err(ParseError::NoVersionCaptured)
            } else {
                Ok(v)
            }
        },
    }
}

/// Extracts the version from the package-details heading of a page.
pub fn extract_version(html: &str) -> (r: Result<String, ParseError>)
    ensures
        r is Ok <==> version_of(heading_capture(html@)) is Ok,
        r is Ok ==> r->Ok_0@ == version_of(heading_capture(html@))->Ok_0,
        r is Err ==> r->Err_0 == version_of(heading_capture(html@))->Err_0,
{
    let cap = first_group(HEADING_PATTERN, html);
    version_from_capture(cap)
}

/// Whether `remote` differs from `local`. This is plain inequality of the
/// two strings: a remote version that is older, or that differs only in
/// its release suffix, is reported as well.
pub fn compare(local: &str, remote: &str) -> (r: bool)
    ensures
        r == differs(local@, remote@),
{
    !same_text(local, remote)
}

/// Whether two strings are the same text.
pub fn same_text(a: &str, b: &str) -> (r: bool)
    ensures
        r == (a@ == b@),
{
    let x = a.to_owned();
    let y = b.to_owned();
    x == y
}

} // verus!

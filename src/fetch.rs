//! The addresses of the repository's pages, and what a response to a
//! request for one of them yields.

use vstd::prelude::*;

verus! {

/// The repository's base address.
pub const AUR_URL: &'static str = "https://aur.archlinux.org";

/// Why a page could not be fetched.
#[derive(Debug, Clone, Copy, PartialEq, Eq, Structural)]
pub enum FetchError {
    /// No response came: the connection or the transfer failed.
    Transport,
    /// The response's status was not a success (2xx).
    Status(u16),
    /// The response was a success but its body was empty.
    EmptyBody,
}

/// The address of the details page of the package `name`.
pub open spec fn package_url_spec(base: Seq<char>, name: Seq<char>) -> Seq<char> {
    base + "/packages/"@ + name
}

/// The address of the search for `term`, by name and description, most
/// popular first, up to 250 results.
pub open spec fn search_url_spec(base: Seq<char>, term: Seq<char>) -> Seq<char> {
    base + "/packages/?SeB=nd&K="@ + term + "&outdated=off&SB=p&SO=d&PP=250&do_Search=Go"@
}

/// The page of a response: its body where the status is a success and the
/// body is not empty.
pub open spec fn page_spec(status: u16, body: Seq<char>) -> Result<Seq<char>, FetchError> {
    if !(200 <= status && status <= 299) {
        Err(FetchError::Status(status))
    } else if body.len() == 0 {
        Err(FetchError::EmptyBody)
    } else {
        Ok(body)
    }
}

pub fn package_url(base: &str, name: &str) -> (r: String)
    ensures
        r@ == package_url_spec(base@, name@),
{
    let mut s = base.to_owned();
    s.append("/packages/");
    s.append(name);
    s
}

pub fn search_url(base: &str, term: &str) -> (r: String)
    ensures
        r@ == search_url_spec(base@, term@),
{
    let mut s = base.to_owned();
    s.append("/packages/?SeB=nd&K=");
    s.append(term);
    s.append("&outdated=off&SB=p&SO=d&PP=250&do_Search=Go");
    s
}

/// The page that a response with `status` and `body` yields.
pub fn page_from_response(status: u16, body: String) -> (r: Result<String, FetchError>)
    ensures
        r is Ok <==> page_spec(status, body@) is Ok,
        r is Ok ==> r->Ok_0@ == body@,
        r is Err ==> r->Err_0 == page_spec(status, body@)->Err_0,
{
    if status < 200 || status > 299 {
        Err(FetchError::Status(status))
    } else if body.as_str().unicode_len() == 0 {
        Err(FetchError::EmptyBody)
    } else {
        Ok(body)
    }
}

} // verus!

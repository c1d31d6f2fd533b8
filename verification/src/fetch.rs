//! The decision side of the page fetch.  The network call itself is I/O
//! and lives outside the library; these functions fix the URL the fetch
//! must use and the status decision it must apply.

use vstd::prelude::*;

verus! {

/// Why a run was aborted before extraction: the page came back with a
/// status other than 200, or the transport itself failed.  Either is
/// fatal to the whole run; there are no retries.
#[derive(Debug, Clone, Copy, PartialEq, Eq, Structural)]
pub enum FetchError {
    BadStatus(u16),
    Transport,
}

/// The URL fetched for a bare domain name.
pub fn fetch_url(domain: &str) -> (r: String)
    ensures
        r@ == "https://"@ + domain@,
{
    let mut out = String::from_str("https://");
    out.append(domain);
    out
}

/// The fail-fast status decision: a run goes on exactly on status 200;
/// any other status aborts it with that status recorded.
pub fn check_status(status: u16) -> (r: Result<(), FetchError>)
    ensures
        status == 200 ==> r is Ok,
        status != 200 ==> r == Result::<(), FetchError>::Err(FetchError::BadStatus(status)),
{
    if status == 200 {
        Ok(())
    } else {
        Err(FetchError::BadStatus(status))
    }
}

} // verus!

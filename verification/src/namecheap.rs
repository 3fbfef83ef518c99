//! The Namecheap dynamic-DNS protocol: one GET with the host label, the root
//! domain, the password and the address as query parameters, answered by an
//! XML-like body that counts its errors.

use vstd::prelude::*;
use crate::http::{HttpRequest, RequestView};
use crate::outcome::{OutcomeView, UpdateOutcome};
use crate::text::{contains, occurs_in};

verus! {

/// The address of the update service.
pub open spec fn endpoint() -> Seq<char> {
    "https://dynamicdns.park-your-domain.com/update"@
}

/// The text in a response that reports an update without errors.
pub open spec fn success_marker() -> Seq<char> {
    "<ErrCount>0</ErrCount>"@
}

/// The update request for the record `host` of `domain`.
pub open spec fn request_spec(
    host: Seq<char>,
    domain: Seq<char>,
    password: Seq<char>,
    ip: Seq<char>,
) -> RequestView {
    RequestView {
        url: endpoint(),
        query: seq![
            ("host"@, host),
            ("domain"@, domain),
            ("password"@, password),
            ("ip"@, ip),
        ],
        basic_auth: None,
    }
}

/// The verdict that a response body carries: `Updated` where it holds the
/// success marker, `Failed` with the whole body where it does not. The
/// protocol has no sign for a record that already held the address, so the
/// verdict is never `Unchanged`.
pub open spec fn classify_spec(body: Seq<char>) -> OutcomeView {
    if occurs_in(body, success_marker()) {
        OutcomeView::Updated
    } else {
        OutcomeView::Failed(body)
    }
}

/// Builds the update request for the record `host` of `domain`.
pub fn request(host: &str, domain: &str, password: &str, ip: &str) -> (r: HttpRequest)
    ensures
        r@ == request_spec(host@, domain@, password@, ip@),
{
    let mut query: Vec<(String, String)> = Vec::new();
    query.push(("host".to_owned(), host.to_owned()));
    query.push(("domain".to_owned(), domain.to_owned()));
    query.push(("password".to_owned(), password.to_owned()));
    query.push(("ip".to_owned(), ip.to_owned()));
    let r = HttpRequest {
        url: "https://dynamicdns.park-your-domain.com/update".to_owned(),
        query,
        basic_auth: None,
    };
    assert(r@.query =~= request_spec(host@, domain@, password@, ip@).query);
    r
}

/// Reads the provider's verdict from the body of its response.
pub fn classify(body: &str) -> (outcome: UpdateOutcome)
    ensures
        outcome@ == classify_spec(body@),
        occurs_in(body@, success_marker()) ==> outcome@ == OutcomeView::Updated,
        !occurs_in(body@, success_marker()) ==> outcome@ == OutcomeView::Failed(body@),
{
    if contains(body, "<ErrCount>0</ErrCount>") {
        UpdateOutcome::Updated
    } else {
        UpdateOutcome::Failed(body.to_owned())
    }
}

} // verus!

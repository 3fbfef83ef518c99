//! The Google Domains dynamic-DNS protocol: one GET with the host name and
//! the address as query parameters, signed in with HTTP Basic authentication
//! and answered by a short word.

use vstd::prelude::*;
use crate::http::{HttpRequest, RequestView};
use crate::outcome::{OutcomeView, UpdateOutcome};
use crate::text::{chars_of, contains_chars, occurs_in};
use crate::updater::optional_text_view;

verus! {

/// The address of the update service.
pub open spec fn endpoint() -> Seq<char> {
    "https://domains.google.com/nic/update"@
}

/// The word in a response that reports a change.
pub open spec fn changed_marker() -> Seq<char> {
    "good"@
}

/// The word in a response that reports a record that already held the
/// address.
pub open spec fn unchanged_marker() -> Seq<char> {
    "nochg"@
}

/// The host name of a record: the configured domain, with the subdomain
/// label and a dot in front of it where the record has a subdomain. The
/// protocol has no label for the root of a domain; a record without a
/// subdomain is named by the domain alone.
pub open spec fn hostname_spec(subdomain: Option<Seq<char>>, domain: Seq<char>) -> Seq<char> {
    match subdomain {
        Some(label) => label + seq!['.'] + domain,
        None => domain,
    }
}

/// The update request for the record `hostname`.
pub open spec fn request_spec(
    hostname: Seq<char>,
    username: Seq<char>,
    password: Seq<char>,
    ip: Seq<char>,
) -> RequestView {
    RequestView {
        url: endpoint(),
        query: seq![("hostname"@, hostname), ("myip"@, ip)],
        basic_auth: Some((username, password)),
    }
}

/// The verdict that a response body carries. The markers are looked for in
/// this order: `good` makes it `Updated`, `nochg` makes it `Unchanged`, and a
/// body with neither makes it `Failed` with the whole body.
pub open spec fn classify_spec(body: Seq<char>) -> OutcomeView {
    if occurs_in(body, changed_marker()) {
        OutcomeView::Updated
    } else if occurs_in(body, unchanged_marker()) {
        OutcomeView::Unchanged
    } else {
        OutcomeView::Failed(body)
    }
}

/// Joins the host name of a record from its subdomain, if any, and its
/// domain.
pub fn hostname(subdomain: &Option<String>, domain: &str) -> (name: String)
    ensures
        name@ == hostname_spec(optional_text_view(*subdomain), domain@),
{
    match subdomain {
        Some(label) => {
            proof {
                reveal_strlit(".");
                assert("."@ =~= seq!['.']);
            }
            label.clone().concat(".").concat(domain)
        },
        None => domain.to_owned(),
    }
}

/// Builds the update request for the record `hostname`.
pub fn request(hostname: &str, username: &str, password: &str, ip: &str) -> (r: HttpRequest)
    ensures
        r@ == request_spec(hostname@, username@, password@, ip@),
{
    let mut query: Vec<(String, String)> = Vec::new();
    query.push(("hostname".to_owned(), hostname.to_owned()));
    query.push(("myip".to_owned(), ip.to_owned()));
    let r = HttpRequest {
        url: "https://domains.google.com/nic/update".to_owned(),
        query,
        basic_auth: Some((username.to_owned(), password.to_owned())),
    };
    assert(r@.query =~= request_spec(hostname@, username@, password@, ip@).query);
    r
}

/// Reads the provider's verdict from the body of its response.
pub fn classify(body: &str) -> (outcome: UpdateOutcome)
    ensures
        outcome@ == classify_spec(body@),
        occurs_in(body@, changed_marker()) ==> outcome@ == OutcomeView::Updated,
        !occurs_in(body@, changed_marker()) && occurs_in(body@, unchanged_marker()) ==> outcome@
            == OutcomeView::Unchanged,
        !occurs_in(body@, changed_marker()) && !occurs_in(body@, unchanged_marker()) ==> outcome@
            == OutcomeView::Failed(body@),
{
    let chars = chars_of(body);
    if contains_chars(&chars, &chars_of("good")) {
        UpdateOutcome::Updated
    } else if contains_chars(&chars, &chars_of("nochg")) {
        UpdateOutcome::Unchanged
    } else {
        UpdateOutcome::Failed(body.to_owned())
    }
}

} // verus!

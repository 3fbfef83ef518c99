//! Finding the caller's public address: one unauthenticated GET to an
//! address-echo service, whose body is the address.

use vstd::prelude::*;
use crate::http::{is_success_status, HttpReply, HttpRequest, ReplyView, RequestView};
use crate::outcome::{ErrorView, NetworkFault, NetworkFaultView, UpdateError};
use crate::text::{trim, trimmed};

verus! {

/// The address of the echo service.
pub open spec fn echo_endpoint() -> Seq<char> {
    "https://api.ipify.org"@
}

/// The request that asks the echo service for the caller's address.
pub open spec fn ip_request_spec() -> RequestView {
    RequestView { url: echo_endpoint(), query: Seq::empty(), basic_auth: None }
}

/// The address that a reply of the echo service gives: the body of a
/// successful response without the white space around it. A reply that is no
/// response, or a response with an error status, is a network error. The
/// address is taken as it comes: nothing checks that it reads as one.
pub open spec fn resolve_ip_spec(reply: ReplyView) -> Result<Seq<char>, ErrorView> {
    match reply {
        ReplyView::Unreachable(detail) => Err(
            ErrorView::Network(NetworkFaultView::Unreachable(detail)),
        ),
        ReplyView::Response { status, body } => if is_success_status(status) {
            Ok(trimmed(body))
        } else {
            Err(ErrorView::Network(NetworkFaultView::Status(status)))
        },
    }
}

/// The request that asks the echo service for the caller's address.
pub fn ip_request() -> (r: HttpRequest)
    ensures
        r@ == ip_request_spec(),
{
    let r = HttpRequest {
        url: "https://api.ipify.org".to_owned(),
        query: Vec::new(),
        basic_auth: None,
    };
    assert(r@.query =~= Seq::empty());
    r
}

/// Reads the caller's public address from the echo service's reply.
pub fn resolve_public_ip(reply: &HttpReply) -> (r: Result<String, UpdateError>)
    ensures
        (match r {
            Ok(ip) => resolve_ip_spec(reply@) == Ok::<Seq<char>, ErrorView>(ip@),
            Err(e) => resolve_ip_spec(reply@) == Err::<Seq<char>, ErrorView>(e@),
        }),
{
    match reply {
        HttpReply::Unreachable(detail) => Err(
            UpdateError::Network(NetworkFault::Unreachable(detail.clone())),
        ),
        HttpReply::Response { status, body } => {
            if 200 <= *status && *status <= 299 {
                Ok(trim(body.as_str()))
            } else {
                Err(UpdateError::Network(NetworkFault::Status(*status)))
            }
        },
    }
}

} // verus!

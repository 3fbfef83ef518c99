//! The providers as a closed set: what is sent to each, and how the answer
//! of each is read.

use vstd::prelude::*;
use crate::google;
use crate::http::{HttpRequest, RequestView};
use crate::namecheap;
use crate::outcome::{OutcomeView, UpdateOutcome};

verus! {

/// The update of one record as its provider wants it: the parameters that
/// the record's configuration comes to, lacking only the address.
#[derive(Debug, Clone, PartialEq, Eq)]
pub enum ProviderCall {
    /// Namecheap takes the host label and the root domain apart.
    Namecheap { host: String, domain: String, password: String },
    /// Google takes one host name and signs in with a user name.
    Google { hostname: String, username: String, password: String },
}

/// The view of `ProviderCall`.
pub enum ProviderCallView {
    Namecheap { host: Seq<char>, domain: Seq<char>, password: Seq<char> },
    Google { hostname: Seq<char>, username: Seq<char>, password: Seq<char> },
}

impl View for ProviderCall {
    type V = ProviderCallView;

    open spec fn view(&self) -> ProviderCallView {
        match self {
            ProviderCall::Namecheap { host, domain, password } => ProviderCallView::Namecheap {
                host: host@,
                domain: domain@,
                password: password@,
            },
            ProviderCall::Google { hostname, username, password } => ProviderCallView::Google {
                hostname: hostname@,
                username: username@,
                password: password@,
            },
        }
    }
}

/// The request that carries out `call` with the address `ip`.
pub open spec fn provider_request_spec(call: ProviderCallView, ip: Seq<char>) -> RequestView {
    match call {
        ProviderCallView::Namecheap { host, domain, password } => namecheap::request_spec(
            host,
            domain,
            password,
            ip,
        ),
        ProviderCallView::Google { hostname, username, password } => google::request_spec(
            hostname,
            username,
            password,
            ip,
        ),
    }
}

/// The verdict that the provider of `call` gives with the response body
/// `body`.
pub open spec fn provider_classify_spec(call: ProviderCallView, body: Seq<char>) -> OutcomeView {
    match call {
        ProviderCallView::Namecheap { .. } => namecheap::classify_spec(body),
        ProviderCallView::Google { .. } => google::classify_spec(body),
    }
}

impl ProviderCall {
    /// Builds the request that carries out this call with the address `ip`.
    pub fn request(&self, ip: &str) -> (r: HttpRequest)
        ensures
            r@ == provider_request_spec(self@, ip@),
    {
        match self {
            ProviderCall::Namecheap { host, domain, password } => namecheap::request(
                host.as_str(),
                domain.as_str(),
                password.as_str(),
                ip,
            ),
            ProviderCall::Google { hostname, username, password } => google::request(
                hostname.as_str(),
                username.as_str(),
                password.as_str(),
                ip,
            ),
        }
    }

    /// Reads the provider's verdict from the body of its response.
    pub fn classify(&self, body: &str) -> (outcome: UpdateOutcome)
        ensures
            outcome@ == provider_classify_spec(self@, body@),
    {
        match self {
            ProviderCall::Namecheap { .. } => namecheap::classify(body),
            ProviderCall::Google { .. } => google::classify(body),
        }
    }
}

} // verus!

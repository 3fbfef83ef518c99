//! HTTP calls as plain data: the request that the caller is asked to make,
//! and what came back from making it.

use vstd::prelude::*;

verus! {

/// A GET request: the address, the query parameters in the order in which
/// they are sent, and the credentials for HTTP Basic authentication, if any,
/// as user name and password.
#[derive(Debug, Clone, PartialEq, Eq)]
pub struct HttpRequest {
    pub url: String,
    pub query: Vec<(String, String)>,
    pub basic_auth: Option<(String, String)>,
}

/// What came back from making a request.
#[derive(Debug, Clone, PartialEq, Eq)]
pub enum HttpReply {
    /// A response arrived.
    Response { status: u16, body: String },
    /// No response arrived; the text is the transport's account of it.
    Unreachable(String),
}

/// The view of `HttpRequest`.
pub struct RequestView {
    pub url: Seq<char>,
    pub query: Seq<(Seq<char>, Seq<char>)>,
    pub basic_auth: Option<(Seq<char>, Seq<char>)>,
}

/// The view of `HttpReply`.
pub enum ReplyView {
    Response { status: u16, body: Seq<char> },
    Unreachable(Seq<char>),
}

/// The views of pairs of texts, in order.
pub open spec fn pairs_view(pairs: Seq<(String, String)>) -> Seq<(Seq<char>, Seq<char>)> {
    Seq::new(pairs.len(), |i: int| (pairs[i].0@, pairs[i].1@))
}

impl View for HttpRequest {
    type V = RequestView;

    open spec fn view(&self) -> RequestView {
        RequestView {
            url: self.url@,
            query: pairs_view(self.query@),
            basic_auth: match self.basic_auth {
                Some(pair) => Some((pair.0@, pair.1@)),
                None => None,
            },
        }
    }
}

impl View for HttpReply {
    type V = ReplyView;

    open spec fn view(&self) -> ReplyView {
        match self {
            HttpReply::Response { status, body } => ReplyView::Response {
                status: *status,
                body: body@,
            },
            HttpReply::Unreachable(detail) => ReplyView::Unreachable(detail@),
        }
    }
}

/// Whether a status code reports success.
pub open spec fn is_success_status(status: u16) -> bool {
    200 <= status <= 299
}

} // verus!

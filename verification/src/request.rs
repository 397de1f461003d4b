//! A request to the service, as plain values for a transport to send.
use vstd::prelude::*;

verus! {

/// The methods that the service is called with.
#[derive(Debug, Clone, Copy, PartialEq, Eq, Structural)]
pub enum Method {
    Get,
    Post,
    Delete,
}

/// One request. The text of `query` and of `headers` is raw: the transport
/// that sends the request encodes it, once.
#[derive(Debug, Clone, PartialEq, Eq)]
pub struct HttpRequest {
    pub method: Method,
    /// The address, without a query.
    pub url: String,
    pub headers: Vec<(String, String)>,
    /// The parameters of the query, in order.
    pub query: Vec<(String, String)>,
    /// The body, a JSON text, where the request has one.
    pub body: Option<String>,
    /// The time allowed from the start of the request to the end of the
    /// answer, in seconds.
    pub timeout_seconds: u64,
}

/// The view of [`HttpRequest`].
pub struct HttpRequestView {
    pub method: Method,
    pub url: Seq<char>,
    pub headers: Seq<(Seq<char>, Seq<char>)>,
    pub query: Seq<(Seq<char>, Seq<char>)>,
    pub body: Option<Seq<char>>,
    pub timeout_seconds: u64,
}

/// The views of a sequence of pairs of strings.
pub open spec fn pairs_view(pairs: Seq<(String, String)>) -> Seq<(Seq<char>, Seq<char>)> {
    Seq::new(pairs.len(), |i: int| (pairs[i].0@, pairs[i].1@))
}

impl View for HttpRequest {
    type V = HttpRequestView;

    open spec fn view(&self) -> HttpRequestView {
        HttpRequestView {
            method: self.method,
            url: self.url@,
            headers: pairs_view(self.headers@),
            query: pairs_view(self.query@),
            body: match self.body {
                Some(text) => Some(text@),
                None => None,
            },
            timeout_seconds: self.timeout_seconds,
        }
    }
}

/// The two headers that every request carries: the token as a bearer
/// credential, and the type of the content.
pub open spec fn standard_headers(token: Seq<char>) -> Seq<(Seq<char>, Seq<char>)> {
    seq![("Authorization"@, "Bearer "@ + token), ("Content-Type"@, "application/json"@)]
}

/// How many of the headers have the given name.
pub open spec fn header_count(headers: Seq<(Seq<char>, Seq<char>)>, name: Seq<char>) -> nat
    decreases headers.len(),
{
    if headers.len() == 0 {
        0
    } else {
        header_count(headers.drop_last(), name) + if headers.last().0 == name {
            1nat
        } else {
            0nat
        }
    }
}

/// Among the two headers of every request each name occurs once.
pub proof fn lemma_standard_headers_once(token: Seq<char>)
    ensures
        header_count(standard_headers(token), "Authorization"@) == 1,
        header_count(standard_headers(token), "Content-Type"@) == 1,
        standard_headers(token)[0] == ("Authorization"@, "Bearer "@ + token),
        standard_headers(token)[1] == ("Content-Type"@, "application/json"@),
{
    reveal_strlit("Authorization");
    reveal_strlit("Content-Type");
    let headers = standard_headers(token);
    let first = headers.drop_last();
    assert(first =~= seq![("Authorization"@, "Bearer "@ + token)]);
    assert(first.drop_last() =~= Seq::empty());
    assert(header_count(first.drop_last(), "Authorization"@) == 0);
    assert(header_count(first.drop_last(), "Content-Type"@) == 0);
    assert(first.last().0 == "Authorization"@);
    assert(header_count(first, "Authorization"@) == 1);
    assert(header_count(first, "Content-Type"@) == 0);
    assert(headers.last().0 == "Content-Type"@);
}

/// A pair of owned strings.
pub fn pair(name: &str, value: &str) -> (p: (String, String))
    ensures
        p.0@ == name@,
        p.1@ == value@,
{
    (name.to_owned(), value.to_owned())
}

} // verus!

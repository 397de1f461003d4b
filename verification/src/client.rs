//! The client: what it sends for each operation, and what it makes of the
//! answer.
//!
//! The client performs no input or output. For each operation it gives the
//! one request to send, and [`SendflareClient::handle_response`] turns the
//! status and the body of the answer into the result of the call. Whoever
//! owns the event loop sends the request over the transport that the client
//! holds.
use crate::codec::JsonCodec;
use crate::decimal::{decimal, to_decimal};
use crate::error::SendflareError;
use crate::json::{Json, JsonView};
use crate::models::{
    DeleteContactReq, DeleteContactReqView, ListContactReq, ListContactReqView, SaveContactReq,
    SaveContactReqView, SendEmailReq, SendEmailReqView,
};
use crate::request::{
    lemma_standard_headers_once, header_count, pair, pairs_view, standard_headers, HttpRequest,
    HttpRequestView, Method,
};
use crate::trusted::{
    build_transport, json_parse, json_text, share_transport, transport_timeout,
};
use vstd::prelude::*;
use vstd::string::StringExecFns;

verus! {

/// The origin of the service.
pub const BASE_URL: &'static str = "https://api.sendflare.io";

/// The time allowed for one request, in seconds.
pub const REQUEST_TIMEOUT: u64 = 10;

/// Whether a status tells of success.
pub open spec fn is_success(status: u16) -> bool {
    200 <= status <= 299
}

/// The address of a path of the service.
pub open spec fn endpoint(path: Seq<char>) -> Seq<char> {
    BASE_URL@ + path
}

/// A request that posts a JSON text to a path of the service.
pub open spec fn post_request(token: Seq<char>, path: Seq<char>, body: Seq<char>) -> HttpRequestView {
    HttpRequestView {
        method: Method::Post,
        url: endpoint(path),
        headers: standard_headers(token),
        query: seq![],
        body: Some(body),
        timeout_seconds: REQUEST_TIMEOUT,
    }
}

/// A request without a body that hands a query to a path of the service.
pub open spec fn query_request(
    token: Seq<char>,
    method: Method,
    path: Seq<char>,
    query: Seq<(Seq<char>, Seq<char>)>,
) -> HttpRequestView {
    HttpRequestView {
        method,
        url: endpoint(path),
        headers: standard_headers(token),
        query,
        body: None,
        timeout_seconds: REQUEST_TIMEOUT,
    }
}

/// The request that sends an email: the email as a JSON text, posted to
/// `/v1/send`.
pub open spec fn send_email_request(token: Seq<char>, req: SendEmailReqView) -> HttpRequestView {
    post_request(token, "/v1/send"@, json_text(SendEmailReq::encode(req)))
}

/// The request that asks for a page of contacts: a `GET` of `/v1/contact`
/// with the application, the page and the size of a page as its query, the
/// two numbers in decimal.
pub open spec fn get_contact_list_request(
    token: Seq<char>,
    req: ListContactReqView,
) -> HttpRequestView {
    query_request(
        token,
        Method::Get,
        "/v1/contact"@,
        seq![
            ("appId"@, req.app_id),
            ("page"@, decimal(req.page as int)),
            ("pageSize"@, decimal(req.page_size as int)),
        ],
    )
}

/// The request that creates or updates a contact: the contact as a JSON
/// text, posted to `/v1/contact`.
pub open spec fn save_contact_request(token: Seq<char>, req: SaveContactReqView) -> HttpRequestView {
    post_request(token, "/v1/contact"@, json_text(SaveContactReq::encode(req)))
}

/// The request that deletes a contact: a `DELETE` of `/v1/contact` with the
/// application and the address of the contact as its query.
pub open spec fn delete_contact_request(
    token: Seq<char>,
    req: DeleteContactReqView,
) -> HttpRequestView {
    query_request(
        token,
        Method::Delete,
        "/v1/contact"@,
        seq![("appId"@, req.app_id), ("emailAddress"@, req.email_address)],
    )
}

/// How a call ends once the service has answered.
pub enum Outcome<V> {
    /// The answer was read as a value.
    Value(V),
    /// The answer had a status outside 200 to 299.
    Status(u16),
    /// The body of the answer could not be read; it is carried.
    Decode(Seq<char>),
}

/// How a call ends on a successful status, given the body and the document
/// that was read from it, if one was.
pub open spec fn body_outcome<T: JsonCodec>(body: Seq<char>, parsed: Option<JsonView>) -> Outcome<
    T::V,
> {
    match parsed {
        Some(json) => match T::decode(json) {
            Some(value) => Outcome::Value(value),
            None => Outcome::Decode(body),
        },
        None => Outcome::Decode(body),
    }
}

/// How a call ends, given the status and the body of the answer.
pub open spec fn response_outcome<T: JsonCodec>(status: u16, body: Seq<char>) -> Outcome<T::V> {
    if is_success(status) {
        body_outcome::<T>(body, json_parse(body))
    } else {
        Outcome::Status(status)
    }
}

/// The outcome that a result stands for; `None` for the failures that do not
/// come from an answer.
pub open spec fn outcome_of<T: View>(r: Result<T, SendflareError>) -> Option<Outcome<T::V>> {
    match r {
        Ok(value) => Some(Outcome::Value(value@)),
        Err(SendflareError::Status(status)) => Some(Outcome::Status(status)),
        Err(SendflareError::Decode(body)) => Some(Outcome::Decode(body@)),
        Err(_) => None,
    }
}

/// A handle on the service: the token that every request carries, and the
/// transport, with its pool of connections, over which requests are sent.
/// Neither changes once the client is made.
pub struct SendflareClient {
    token: String,
    client: reqwest::Client,
}

fn request_headers(token: &str) -> (headers: Vec<(String, String)>)
    ensures
        pairs_view(headers@) == standard_headers(token@),
{
    let mut bearer = "Bearer ".to_owned();
    bearer.append(token);
    let headers = vec![
        pair("Authorization", bearer.as_str()),
        pair("Content-Type", "application/json"),
    ];
    assert(pairs_view(headers@) =~= standard_headers(token@));
    headers
}

fn endpoint_of(path: &str) -> (url: String)
    ensures
        url@ == endpoint(path@),
{
    let mut url = BASE_URL.to_owned();
    url.append(path);
    url
}

impl SendflareClient {
    /// The token that the client was made with.
    pub closed spec fn token_view(&self) -> Seq<char> {
        self.token@
    }

    /// The transport that the client holds.
    pub closed spec fn transport_view(&self) -> reqwest::Client {
        self.client
    }

    /// Makes a client for a token. The transport allows every request
    /// [`REQUEST_TIMEOUT`] seconds. Fails only where the transport cannot
    /// be built.
    pub fn new(token: &str) -> (r: Result<SendflareClient, SendflareError>)
        ensures
            match r {
                Ok(client) => client.token_view() == token@ && transport_timeout(
                    client.transport_view(),
                ) == REQUEST_TIMEOUT,
                Err(error) => error is Construction,
            },
    {
        SendflareClient::from_transport(token, build_transport(REQUEST_TIMEOUT))
    }

    /// Makes a client from a token and the outcome of building a transport.
    pub fn from_transport(token: &str, built: Result<reqwest::Client, reqwest::Error>) -> (r:
        Result<SendflareClient, SendflareError>)
        ensures
            match built {
                Ok(transport) => r matches Ok(client) && client.token_view() == token@
                    && client.transport_view() == transport,
                Err(cause) => r matches Err(SendflareError::Construction(carried)) && carried
                    == cause,
            },
    {
        match built {
            Ok(transport) => Ok(SendflareClient { token: token.to_owned(), client: transport }),
            Err(cause) => Err(SendflareError::Construction(cause)),
        }
    }

    /// The token that every request carries.
    pub fn token(&self) -> (token: &str)
        ensures
            token@ == self.token_view(),
    {
        self.token.as_str()
    }

    /// The transport over which the requests of this client are to be sent.
    pub fn transport(&self) -> (transport: &reqwest::Client)
        ensures
            *transport == self.transport_view(),
    {
        &self.client
    }

    /// A request that posts a JSON text to a path of the service, with the
    /// two headers and the time allowed that every request has.
    pub fn request_with_body(&self, path: &str, body: String) -> (request: HttpRequest)
        ensures
            request@ == post_request(self.token_view(), path@, body@),
    {
        let request = HttpRequest {
            method: Method::Post,
            url: endpoint_of(path),
            headers: request_headers(self.token.as_str()),
            query: Vec::new(),
            body: Some(body),
            timeout_seconds: REQUEST_TIMEOUT,
        };
        assert(request@.query =~= seq![]);
        request
    }

    /// A request without a body that hands a query to a path of the
    /// service, with the two headers and the time allowed that every request
    /// has. The query is taken as it is given.
    pub fn request_with_query(
        &self,
        method: Method,
        path: &str,
        query: Vec<(String, String)>,
    ) -> (request: HttpRequest)
        ensures
            request@ == query_request(self.token_view(), method, path@, pairs_view(query@)),
    {
        HttpRequest {
            method,
            url: endpoint_of(path),
            headers: request_headers(self.token.as_str()),
            query,
            body: None,
            timeout_seconds: REQUEST_TIMEOUT,
        }
    }

    /// The request that sends an email.
    pub fn send_email(&self, req: &SendEmailReq) -> (request: HttpRequest)
        ensures
            request@ == send_email_request(self.token_view(), req@),
    {
        self.request_with_body("/v1/send", req.to_json().render())
    }

    /// The request that asks for a page of contacts.
    pub fn get_contact_list(&self, req: &ListContactReq) -> (request: HttpRequest)
        ensures
            request@ == get_contact_list_request(self.token_view(), req@),
    {
        let page = to_decimal(req.page);
        let page_size = to_decimal(req.page_size);
        let query = vec![
            pair("appId", req.app_id.as_str()),
            pair("page", page.as_str()),
            pair("pageSize", page_size.as_str()),
        ];
        assert(pairs_view(query@) =~= get_contact_list_request(self.token_view(), req@).query);
        self.request_with_query(Method::Get, "/v1/contact", query)
    }

    /// The request that creates or updates a contact.
    pub fn save_contact(&self, req: &SaveContactReq) -> (request: HttpRequest)
        ensures
            request@ == save_contact_request(self.token_view(), req@),
    {
        self.request_with_body("/v1/contact", req.to_json().render())
    }

    /// The request that deletes a contact.
    pub fn delete_contact(&self, req: &DeleteContactReq) -> (request: HttpRequest)
        ensures
            request@ == delete_contact_request(self.token_view(), req@),
    {
        let query = vec![
            pair("appId", req.app_id.as_str()),
            pair("emailAddress", req.email_address.as_str()),
        ];
        assert(pairs_view(query@) =~= delete_contact_request(self.token_view(), req@).query);
        self.request_with_query(Method::Delete, "/v1/contact", query)
    }

    /// Turns the answer of the service into the result of the call. A
    /// status outside 200 to 299 is an error that carries the status, and the
    /// body is then not read. Otherwise the body is read as a JSON document
    /// and the document as the expected value; where either fails, the error
    /// carries the body.
    pub fn handle_response<T: JsonCodec>(&self, status: u16, body: &str) -> (r: Result<
        T,
        SendflareError,
    >)
        ensures
            outcome_of(r) == Some(response_outcome::<T>(status, body@)),
            !is_success(status) ==> (r matches Err(SendflareError::Status(carried)) && carried
                == status),
            is_success(status) && json_parse(body@) is None ==> (r matches Err(
                SendflareError::Decode(carried),
            ) && carried@ == body@),
    {
        match check_status(status) {
            Ok(()) => read_body(body, Json::parse(body)),
            Err(refused) => Err(refused),
        }
    }
}

impl Clone for SendflareClient {
    /// Another handle with the same token, on the same pool of connections
    /// and with the same time allowed for a request.
    fn clone(&self) -> (copy: SendflareClient)
        ensures
            copy.token_view() == self.token_view(),
            transport_timeout(copy.transport_view()) == transport_timeout(self.transport_view()),
    {
        SendflareClient { token: self.token.clone(), client: share_transport(&self.client) }
    }
}

/// Accepts a status from 200 to 299 and refuses any other with an error
/// that carries it.
pub fn check_status(status: u16) -> (r: Result<(), SendflareError>)
    ensures
        r == if is_success(status) {
            Ok::<(), SendflareError>(())
        } else {
            Err::<(), SendflareError>(SendflareError::Status(status))
        },
{
    if 200 <= status && status <= 299 {
        Ok(())
    } else {
        Err(SendflareError::Status(status))
    }
}

/// Reads the expected value from the document that was read from a body.
/// Where there is no document, or the document is not of the expected shape,
/// the error carries the body.
pub fn read_body<T: JsonCodec>(body: &str, parsed: Option<Json>) -> (r: Result<T, SendflareError>)
    ensures
        outcome_of(r) == Some(
            body_outcome::<T>(
                body@,
                match parsed {
                    Some(json) => Some(json@),
                    None => None,
                },
            ),
        ),
{
    match parsed {
        Some(json) => match T::from_json(&json) {
            Some(value) => Ok(value),
            None => Err(SendflareError::Decode(body.to_owned())),
        },
        None => Err(SendflareError::Decode(body.to_owned())),
    }
}

/// Each of the four requests carries the token as a bearer credential and
/// the type of its content, each under a name that occurs once among its
/// headers.
pub proof fn lemma_requests_carry_headers_once(
    token: Seq<char>,
    send: SendEmailReqView,
    list: ListContactReqView,
    save: SaveContactReqView,
    delete: DeleteContactReqView,
)
    ensures
        carries_headers_once(send_email_request(token, send), token),
        carries_headers_once(get_contact_list_request(token, list), token),
        carries_headers_once(save_contact_request(token, save), token),
        carries_headers_once(delete_contact_request(token, delete), token),
{
    lemma_standard_headers_once(token);
}

/// The two requests that carry a query carry the values as they were given,
/// the numbers in decimal: nothing is encoded before the transport does it.
pub proof fn lemma_query_values_are_raw(
    token: Seq<char>,
    list: ListContactReqView,
    delete: DeleteContactReqView,
)
    ensures
        get_contact_list_request(token, list).query == seq![
            ("appId"@, list.app_id),
            ("page"@, decimal(list.page as int)),
            ("pageSize"@, decimal(list.page_size as int)),
        ],
        delete_contact_request(token, delete).query == seq![
            ("appId"@, delete.app_id),
            ("emailAddress"@, delete.email_address),
        ],
        get_contact_list_request(token, list).url == endpoint("/v1/contact"@),
        delete_contact_request(token, delete).url == endpoint("/v1/contact"@),
{
}

/// An answer with a status outside 200 to 299 ends the call with that
/// status, whatever its body holds: the body has no part in the outcome.
pub proof fn lemma_refused_status_ignores_body<T: JsonCodec>(
    status: u16,
    body: Seq<char>,
    other_body: Seq<char>,
)
    requires
        !is_success(status),
    ensures
        response_outcome::<T>(status, body) == Outcome::<T::V>::Status(status),
        response_outcome::<T>(status, body) == response_outcome::<T>(status, other_body),
{
}

/// An answer with a successful status ends the call with a value only where
/// its body is a JSON document that stands for one; in every other case the
/// call ends with a decode error that carries the body.
pub proof fn lemma_successful_status_reads_body<T: JsonCodec>(status: u16, body: Seq<char>)
    requires
        is_success(status),
    ensures
        json_parse(body) is None ==> response_outcome::<T>(status, body) == Outcome::<
            T::V,
        >::Decode(body),
        response_outcome::<T>(status, body) is Value <==> json_parse(body) is Some && T::decode(
            json_parse(body)->0,
        ) is Some,
        response_outcome::<T>(status, body) is Value || response_outcome::<T>(status, body)
            == Outcome::<T::V>::Decode(body),
{
}

/// Whether a request has exactly one header called `Authorization`, which
/// holds the token as a bearer credential, and exactly one called
/// `Content-Type`, which holds `application/json`.
pub open spec fn carries_headers_once(request: HttpRequestView, token: Seq<char>) -> bool {
    &&& header_count(request.headers, "Authorization"@) == 1
    &&& header_count(request.headers, "Content-Type"@) == 1
    &&& request.headers.contains(("Authorization"@, "Bearer "@ + token))
    &&& request.headers.contains(("Content-Type"@, "application/json"@))
}

} // verus!

//! The client's configuration and the addresses it calls.

use vstd::prelude::*;
use std::time::Duration;
use crate::error::{Error, ErrorKind, ErrorView};
use crate::query::{append_pair, with_pair};
use crate::reply::join3;
use crate::time::Timestamp;
use crate::transport::{Method, Request, RequestView};

verus! {

/// The path under which every endpoint of the service lives.
pub const BASE_PATH: &'static str = "/api/v1";

/// The seconds a request may take where the caller names no timeout.
pub const DEFAULT_TIMEOUT_SECONDS: u64 = 60;

/// The name of the one header that every request carries.
pub const CONTENT_TYPE_HEADER: &'static str = "Content-Type";

/// The value of [`CONTENT_TYPE_HEADER`].
pub const CONTENT_TYPE_JSON: &'static str = "application/json";

/// The whole seconds of a `std::time::Duration` and the nanoseconds beyond
/// them, as `Duration::as_secs` and `Duration::subsec_nanos` give them.
pub uninterp spec fn duration_parts(duration: Duration) -> (u64, u32);

/// `std::time::Duration::new` with less than a second of nanoseconds: nothing
/// is carried, and the duration holds the two numbers as given.
pub assume_specification[ Duration::new ](secs: u64, nanos: u32) -> (duration: Duration)
    requires
        nanos < 1_000_000_000,
    ensures
        duration_parts(duration) == (secs, nanos),
;

/// The access token that the service hands out.
#[derive(Debug, Clone)]
pub struct GetTokenResponse {
    pub token: String,
    /// Until when the token is valid, as the service wrote it. Carried, never enforced.
    pub valid_until: String,
}

/// A client of one Webport service. It holds the configuration and nothing else.
pub struct Client {
    url: String,
    username: String,
    password: String,
    timeout: Duration,
}

/// The mathematical content of a [`Client`].
pub struct ClientView {
    pub url: Seq<char>,
    pub username: Seq<char>,
    pub password: Seq<char>,
    pub timeout: Duration,
}

impl View for Client {
    type V = ClientView;

    closed spec fn view(&self) -> ClientView {
        ClientView {
            url: self.url@,
            username: self.username@,
            password: self.password@,
            timeout: self.timeout,
        }
    }
}

/// The address of the token endpoint.
pub open spec fn token_url(client: ClientView) -> Seq<char> {
    client.url + BASE_PATH@ + "/access/token?username="@ + client.username + "&password="@
        + client.password
}

/// The address that lists the tags.
pub open spec fn tags_url(client: ClientView) -> Seq<char> {
    client.url + BASE_PATH@ + "/tag/list?type=list"@
}

/// The address that describes one tag.
pub open spec fn tag_info_url(client: ClientView, tag_key: Seq<char>) -> Seq<char> {
    client.url + BASE_PATH@ + "/tag/info?tag="@ + tag_key
}

/// The query that names the two bounds of a time range.
pub open spec fn range_query(start: Seq<char>, end: Seq<char>) -> Seq<char> {
    with_pair(with_pair(Seq::<char>::empty(), "start"@, start), "end"@, end)
}

/// The address that gives the history of one tag between two bounds, each
/// given as its RFC 3339 text.
pub open spec fn tag_history_url(
    client: ClientView,
    tag_key: Seq<char>,
    start: Seq<char>,
    end: Seq<char>,
) -> Seq<char> {
    client.url + BASE_PATH@ + "/trend/history?tag="@ + tag_key + "&"@ + range_query(start, end)
}

/// The message for a transport that could not be set up.
pub open spec fn setup_failure(reason: Seq<char>) -> Seq<char> {
    "Could not create reqwest client ("@ + reason + ")."@
}

impl Client {
    /// The error for a driver whose transport could not be set up: an
    /// `Unspecified` error that quotes the transport's reason.
    pub fn setup_failed(reason: &str) -> (error: Error)
        ensures
            error@ == (ErrorView {
                kind: ErrorKind::Unspecified,
                message: setup_failure(reason@),
            }),
    {
        Error::Unspecified(join3("Could not create reqwest client (", reason, ")."))
    }

    /// A client of the service at `url`, for the given user. Where no timeout is
    /// given, a request may take [`DEFAULT_TIMEOUT_SECONDS`].
    pub fn new(url: String, username: String, password: String, timeout: Option<Duration>) -> (client:
        Client)
        ensures
            client@.url == url@,
            client@.username == username@,
            client@.password == password@,
            timeout matches Some(t) ==> client@.timeout == t,
            timeout is None ==> duration_parts(client@.timeout) == (DEFAULT_TIMEOUT_SECONDS, 0u32),
    {
        let timeout = match timeout {
            Some(t) => t,
            None => Duration::new(DEFAULT_TIMEOUT_SECONDS, 0),
        };
        Client { url, username, password, timeout }
    }

    /// The headers that every request carries: the one that declares JSON.
    pub fn default_headers() -> (headers: Vec<(String, String)>)
        ensures
            headers@.len() == 1,
            headers@[0].0@ == CONTENT_TYPE_HEADER@,
            headers@[0].1@ == CONTENT_TYPE_JSON@,
    {
        let mut headers = Vec::new();
        headers.push((String::from_str(CONTENT_TYPE_HEADER), String::from_str(CONTENT_TYPE_JSON)));
        headers
    }

    /// The time a request may take.
    pub fn timeout(&self) -> (timeout: Duration)
        ensures
            timeout == self@.timeout,
    {
        self.timeout
    }

    /// The address of the service.
    pub fn url(&self) -> (url: &String)
        ensures
            url@ == self@.url,
    {
        &self.url
    }

    fn endpoint(&self, path: &str) -> (address: String)
        ensures
            address@ == self@.url + BASE_PATH@ + path@,
    {
        let mut address = self.url.clone();
        address.append(BASE_PATH);
        address.append(path);
        address
    }

    /// The address of the token endpoint, with the user's name and password as
    /// query parameters, written as they are.
    pub fn token_url(&self) -> (address: String)
        ensures
            address@ == token_url(self@),
    {
        let mut address = self.endpoint("/access/token?username=");
        address.append(self.username.as_str());
        address.append("&password=");
        address.append(self.password.as_str());
        address
    }

    /// The request that asks for an access token. It carries no token itself.
    pub fn token_request(&self) -> (request: Request)
        ensures
            request@ == (RequestView {
                method: Method::Get,
                url: token_url(self@),
                token: None,
                body: None,
            }),
    {
        Request { method: Method::Get, url: self.token_url(), token: None, body: None }
    }

    /// The address that lists the tags.
    pub fn tags_url(&self) -> (address: String)
        ensures
            address@ == tags_url(self@),
    {
        self.endpoint("/tag/list?type=list")
    }

    /// The address that describes the tag `tag_key`. The key is written as it is.
    pub fn tag_info_url(&self, tag_key: &str) -> (address: String)
        ensures
            address@ == tag_info_url(self@, tag_key@),
    {
        let mut address = self.endpoint("/tag/info?tag=");
        address.append(tag_key);
        address
    }

    /// The address that gives the history of the tag `tag_key` from `start` to
    /// `end`. The key is written as it is; the bounds are written as RFC 3339
    /// texts, form-encoded.
    pub fn tag_history_url(&self, tag_key: &str, start: &Timestamp, end: &Timestamp) -> (address:
        String)
        ensures
            address@ == tag_history_url(self@, tag_key@, start.text(), end.text()),
    {
        let start_text = start.to_rfc3339();
        let end_text = end.to_rfc3339();
        let query = append_pair(String::new(), "start", start_text.as_str());
        let query = append_pair(query, "end", end_text.as_str());
        let mut address = self.endpoint("/trend/history?tag=");
        address.append(tag_key);
        address.append("&");
        address.append(query.as_str());
        address
    }
}

} // verus!

//! The client: an authenticated handle to the API that turns each
//! operation into a request.

use crate::client::config::acceptable_api_key;
use crate::client::config::is_default_timeout;
use crate::client::config::masked;
use crate::client::config::render;
use crate::client::config::rendering;
use crate::client::config::BuilderView;
use crate::client::config::ConfigView;
use crate::client::config::NvisyConfig;
use crate::client::config::NvisyConfigBuilder;
use crate::client::config::DEFAULT_BASE_URL;
use crate::client::request::Body;
use crate::client::request::FilePart;
use crate::client::request::Method;
use crate::client::request::Request;
use crate::error::Error;
use crate::error::HttpError;
use crate::error::NvisyConfigBuilderError;
use crate::text::join2;
use crate::text::trim_end;
use crate::text::without_trailing;
use crate::text::byte_count;
use crate::text::byte_len;
use crate::text::pairs_bytes;
use crate::text::pairs_text;
use crate::trusted::share;
use crate::trusted::transport_with_timeout;
use crate::trusted::url_overflow;
use crate::trusted::url_path;
use crate::trusted::url_path_text;
use crate::trusted::url_with_path;
use crate::trusted::url_with_path_text;
use crate::trusted::url_with_query;
use crate::trusted::url_with_query_text;
use crate::trusted::MAX_QUERY_PAIRS;
use crate::trusted::MAX_URL_BYTES;
use std::sync::Arc;
use vstd::prelude::*;
use vstd::string::StringExecFns;

verus! {

/// The value of the header that authenticates a request.
pub open spec fn bearer(api_key: Seq<char>) -> Seq<char> {
    "Bearer "@ + api_key
}

/// The content type that a body announces, if any. A multipart form
/// announces its own, with the boundary that the transport picks.
pub open spec fn content_type<T>(body: Body<T>) -> Option<Seq<char>> {
    match body {
        Body::Json(_) => Some("application/json"@),
        Body::Empty => None,
        Body::Multipart(_) => None,
    }
}

/// The headers of a request: the credential as a bearer token, then the
/// content type of the body where it announces one.
pub open spec fn headers_of<T>(api_key: Seq<char>, body: Body<T>) -> Seq<(Seq<char>, Seq<char>)> {
    match content_type(body) {
        Some(announced) => seq![("Authorization"@, bearer(api_key)), ("Content-Type"@, announced)],
        None => seq![("Authorization"@, bearer(api_key))],
    }
}

/// The path of an address under an endpoint: the path of the endpoint,
/// less the slashes at its end, continued by `path`.
pub open spec fn extended(base_path: Seq<char>, path: Seq<char>) -> Seq<char> {
    without_trailing(base_path, '/') + path
}

/// The address of `path` under the endpoint `base_url`: the endpoint with
/// its own path extended by `path`. `None` where the endpoint is no URL,
/// or a text is too long for the parser.
pub open spec fn located(base_url: Seq<char>, path: Seq<char>) -> Option<Seq<char>> {
    if byte_len(base_url) > MAX_URL_BYTES {
        None
    } else {
        match url_path_text(base_url) {
            None => None,
            Some(base_path) => {
                let whole = extended(base_path, path);
                if byte_len(whole) > MAX_URL_BYTES {
                    None
                } else {
                    url_with_path_text(base_url, whole)
                }
            },
        }
    }
}

/// The address of `path` under `base_url` with `pairs` as its query. With
/// no pairs the address has no query at all.
pub open spec fn located_with(
    base_url: Seq<char>,
    path: Seq<char>,
    pairs: Seq<(Seq<char>, Seq<char>)>,
) -> Option<Seq<char>> {
    match located(base_url, path) {
        None => None,
        Some(address) => {
            if pairs.len() == 0 {
                Some(address)
            } else if byte_len(address) > MAX_URL_BYTES || pairs.len() > MAX_QUERY_PAIRS
                || pairs_bytes(pairs) > MAX_URL_BYTES {
                None
            } else {
                url_with_query_text(address, pairs)
            }
        },
    }
}

/// Whether `request` is the request that a client with `settings` makes of
/// the other arguments.
pub open spec fn is_request<T>(
    request: Request<T>,
    settings: ConfigView,
    method: Method,
    address: Seq<char>,
    query: Seq<(Seq<char>, Seq<char>)>,
    body: Body<T>,
) -> bool {
    &&& request.method == method
    &&& request.url@ == address
    &&& pairs_text(request.query@) == query
    &&& pairs_text(request.headers@) == headers_of(settings.api_key, body)
    &&& request.timeout == settings.timeout
    &&& request.body == body
}

/// Whether `outcome` is what preparing a request for `path` gives: the
/// request to the address of `path`, or the failure to make that address.
pub open spec fn is_prepared<T>(
    outcome: Result<Request<T>, Error>,
    settings: ConfigView,
    method: Method,
    path: Seq<char>,
    query: Seq<(Seq<char>, Seq<char>)>,
    body: Body<T>,
) -> bool {
    match outcome {
        Ok(request) => located(settings.base_url, path) matches Some(address) && is_request(
            request,
            settings,
            method,
            address,
            query,
            body,
        ),
        Err(error) => located(settings.base_url, path) is None && error is UrlParse,
    }
}

/// Whether `request` is the request that a client with `settings` makes to
/// its endpoint followed by `path` as it stands.
pub open spec fn is_direct<T>(
    request: Request<T>,
    settings: ConfigView,
    method: Method,
    path: Seq<char>,
    query: Seq<(Seq<char>, Seq<char>)>,
    body: Body<T>,
) -> bool {
    is_request(request, settings, method, settings.base_url + path, query, body)
}

/// Every request of a client is authenticated: its first header is
/// `Authorization`, with the credential of the client as a bearer token.
pub proof fn lemma_every_request_is_authenticated<T>(
    request: Request<T>,
    settings: ConfigView,
    method: Method,
    address: Seq<char>,
    query: Seq<(Seq<char>, Seq<char>)>,
    body: Body<T>,
)
    requires
        is_request(request, settings, method, address, query, body),
    ensures
        request.headers@.len() >= 1,
        request.headers@[0].0@ == "Authorization"@,
        request.headers@[0].1@ == "Bearer "@ + settings.api_key,
{
    assert(pairs_text(request.headers@).len() == request.headers@.len());
    assert(pairs_text(request.headers@)[0] == (request.headers@[0].0@, request.headers@[0].1@));
}

/// The bytes of a part of `pairs` are no more than those of the whole.
pub proof fn lemma_pairs_bytes_grow(pairs: Seq<(Seq<char>, Seq<char>)>, n: int)
    requires
        0 <= n <= pairs.len(),
    ensures
        pairs_bytes(pairs.take(n)) <= pairs_bytes(pairs),
    decreases pairs.len(),
{
    if n == pairs.len() {
        assert(pairs.take(n) =~= pairs);
    } else {
        lemma_pairs_bytes_grow(pairs.drop_last(), n);
        assert(pairs.drop_last().take(n) =~= pairs.take(n));
    }
}

/// Extends the path of an endpoint by `path`: drops the slashes at the end
/// of `base_path` and appends `path`.
pub fn extended_path(base_path: &str, path: &str) -> (whole: String)
    ensures
        whole@ == extended(base_path@, path@),
{
    join2(trim_end(base_path, '/'), path)
}

/// Whether `pairs` are few and short enough for the URL parser.
pub fn pairs_fit(pairs: &Vec<(String, String)>) -> (fit: bool)
    ensures
        fit == (pairs.len() <= MAX_QUERY_PAIRS && pairs_bytes(pairs_text(pairs@))
            <= MAX_URL_BYTES),
{
    if pairs.len() > MAX_QUERY_PAIRS {
        return false;
    }
    let ghost all = pairs_text(pairs@);
    let mut total: usize = 0;
    let mut i: usize = 0;
    while i < pairs.len()
        invariant
            i <= pairs.len(),
            all == pairs_text(pairs@),
            total == pairs_bytes(all.take(i as int)),
            total <= MAX_URL_BYTES,
        decreases pairs.len() - i,
    {
        let name_len = byte_count(pairs[i].0.as_str());
        let value_len = byte_count(pairs[i].1.as_str());
        proof {
            assert(all.take(i + 1).drop_last() =~= all.take(i as int));
            lemma_pairs_bytes_grow(all, i + 1);
        }
        if name_len > MAX_URL_BYTES - total {
            return false;
        }
        total = total + name_len;
        if value_len > MAX_URL_BYTES - total {
            return false;
        }
        total = total + value_len;
        i = i + 1;
    }
    assert(all.take(i as int) =~= all);
    true
}

/// What a client holds, shared by all handles to it.
pub(crate) struct NvisyClientInner {
    /// The settings.
    pub config: NvisyConfig,
    /// The transport.
    pub client: reqwest::Client,
}

/// An authenticated handle to the API. It holds its settings and its
/// transport behind a shared pointer: a copy is another handle to the
/// same.
pub struct NvisyClient {
    inner: Arc<NvisyClientInner>,
}

impl Clone for NvisyClient {
    /// Another handle to the same client, with the same settings and the
    /// same transport.
    fn clone(&self) -> (copy: NvisyClient)
        ensures
            copy == *self,
            copy.settings() == self.settings(),
            copy.transport() == self.transport(),
    {
        NvisyClient { inner: share(&self.inner) }
    }
}

impl NvisyClient {
    /// The settings of this client.
    pub closed spec fn settings(self) -> ConfigView {
        self.inner.config@
    }

    /// The transport of this client.
    pub closed spec fn transport(self) -> reqwest::Client {
        self.inner.client
    }

    /// A client with the given settings. It adopts the transport that the
    /// configuration holds; where it holds none, it builds one with the
    /// configured timeout, and fails where that fails.
    pub fn new(config: NvisyConfig) -> (outcome: Result<NvisyClient, Error>)
        ensures
            config@.client is Some ==> outcome is Ok,
            match outcome {
                Ok(client) => client.settings() == config@ && (config@.client matches Some(given)
                    ==> client.transport() == given),
                Err(error) => config@.client is None && error matches Error::Http(
                    HttpError::Transport(_),
                ),
            },
    {
        let client = match config.client() {
            Some(given) => given,
            None => {
                let timeout = config.timeout();
                match transport_with_timeout(timeout.as_secs(), timeout.subsec_nanos()) {
                    Ok(made) => made,
                    Err(cause) => {
                        return Err(Error::Http(HttpError::Transport(cause)));
                    },
                }
            },
        };
        Ok(NvisyClient { inner: Arc::new(NvisyClientInner { config, client }) })
    }

    /// A client with the given credential and every other setting by
    /// default. A blank credential is refused.
    pub fn with_api_key(api_key: &str) -> (outcome: Result<NvisyClient, Error>)
        ensures
            match outcome {
                Ok(client) => {
                    &&& acceptable_api_key(api_key@)
                    &&& client.settings().api_key == api_key@
                    &&& client.settings().base_url == DEFAULT_BASE_URL@
                    &&& is_default_timeout(client.settings().timeout)
                    &&& client.settings().client is None
                },
                Err(error) => if acceptable_api_key(api_key@) {
                    error matches Error::Http(HttpError::Transport(_))
                } else {
                    error matches Error::Config(NvisyConfigBuilderError::ValidationError(reason))
                        && reason@ == "API key cannot be empty"@
                },
            },
    {
        match NvisyConfig::builder().with_api_key(api_key).build() {
            Ok(config) => NvisyClient::new(config),
            Err(cause) => Err(Error::Config(cause)),
        }
    }

    /// A builder of settings that holds none yet.
    pub fn builder() -> (builder: NvisyConfigBuilder)
        ensures
            builder@ == (BuilderView { api_key: None, base_url: None, timeout: None, client: None }),
    {
        NvisyConfig::builder()
    }

    /// The settings of this client.
    pub fn config(&self) -> (config: &NvisyConfig)
        ensures
            config@ == self.settings(),
    {
        &self.inner.config
    }

    /// The transport of this client.
    pub fn http(&self) -> (client: &reqwest::Client)
        ensures
            *client == self.transport(),
    {
        &self.inner.client
    }

    /// The address of `path` under the endpoint of this client.
    pub fn parse_url(&self, path: &str) -> (outcome: Result<String, Error>)
        ensures
            match outcome {
                Ok(address) => located(self.settings().base_url, path@) == Some(address@),
                Err(error) => located(self.settings().base_url, path@) is None
                    && error is UrlParse,
            },
    {
        let base_url = self.inner.config.base_url();
        if byte_count(base_url) > MAX_URL_BYTES {
            return Err(Error::UrlParse(url_overflow()));
        }
        let base_path = match url_path(base_url) {
            Ok(base_path) => base_path,
            Err(cause) => {
                return Err(Error::UrlParse(cause));
            },
        };
        let whole = extended_path(base_path.as_str(), path);
        if byte_count(whole.as_str()) > MAX_URL_BYTES {
            return Err(Error::UrlParse(url_overflow()));
        }
        match url_with_path(base_url, whole.as_str()) {
            Ok(address) => Ok(address),
            Err(cause) => Err(Error::UrlParse(cause)),
        }
    }

    /// The address of `path` under the endpoint of this client, with
    /// `params` as its query.
    pub fn build_url(&self, path: &str, params: &Vec<(String, String)>) -> (outcome: Result<
        String,
        Error,
    >)
        ensures
            match outcome {
                Ok(address) => located_with(
                    self.settings().base_url,
                    path@,
                    pairs_text(params@),
                ) == Some(address@),
                Err(error) => located_with(
                    self.settings().base_url,
                    path@,
                    pairs_text(params@),
                ) is None && error is UrlParse,
            },
    {
        let address = self.parse_url(path)?;
        if params.len() == 0 {
            return Ok(address);
        }
        if byte_count(address.as_str()) > MAX_URL_BYTES || !pairs_fit(params) {
            return Err(Error::UrlParse(url_overflow()));
        }
        match url_with_query(address.as_str(), params) {
            Ok(address) => Ok(address),
            Err(cause) => Err(Error::UrlParse(cause)),
        }
    }

    /// The request to `address` with the given method and body: it carries
    /// the credential as a bearer token, the content type of the body, and
    /// the configured timeout.
    pub fn request<T>(
        &self,
        method: Method,
        address: String,
        query: Vec<(String, String)>,
        body: Body<T>,
    ) -> (request: Request<T>)
        ensures
            is_request(request, self.settings(), method, address@, pairs_text(query@), body),
            request.url == address,
            request.query == query,
    {
        let token = join2("Bearer ", self.inner.config.api_key());
        let mut headers: Vec<(String, String)> = Vec::new();
        headers.push((String::from_str("Authorization"), token));
        match &body {
            Body::Json(_) => {
                headers.push(
                    (String::from_str("Content-Type"), String::from_str("application/json")),
                );
            },
            Body::Empty => {},
            Body::Multipart(_) => {},
        }
        assert(pairs_text(headers@) =~= headers_of(self.settings().api_key, body));
        Request {
            method,
            url: address,
            query,
            headers,
            timeout: self.inner.config.timeout(),
            body,
        }
    }

    /// The request to the address that is the endpoint of this client
    /// followed by `path` as it stands.
    pub fn direct<T>(
        &self,
        method: Method,
        path: &str,
        query: Vec<(String, String)>,
        body: Body<T>,
    ) -> (request: Request<T>)
        ensures
            is_direct(request, self.settings(), method, path@, pairs_text(query@), body),
    {
        let address = join2(self.inner.config.base_url(), path);
        self.request(method, address, query, body)
    }

    /// The request for `path` that carries nothing.
    pub fn prepare<T>(&self, method: Method, path: &str) -> (outcome: Result<Request<T>, Error>)
        ensures
            is_prepared(outcome, self.settings(), method, path@, Seq::empty(), Body::Empty),
    {
        let address = self.parse_url(path)?;
        let request = self.request(method, address, Vec::new(), Body::Empty);
        assert(pairs_text(request.query@) =~= Seq::empty());
        Ok(request)
    }

    /// The request for `path` that carries `data` as JSON.
    pub fn prepare_json<T>(&self, method: Method, path: &str, data: T) -> (outcome: Result<
        Request<T>,
        Error,
    >)
        ensures
            is_prepared(outcome, self.settings(), method, path@, Seq::empty(), Body::Json(data)),
    {
        let address = self.parse_url(path)?;
        let request = self.request(method, address, Vec::new(), Body::Json(data));
        assert(pairs_text(request.query@) =~= Seq::empty());
        Ok(request)
    }

    /// The request for `path` whose address holds `params` as its query.
    pub fn prepare_with_params<T>(
        &self,
        method: Method,
        path: &str,
        params: &Vec<(String, String)>,
    ) -> (outcome: Result<Request<T>, Error>)
        ensures
            match outcome {
                Ok(request) => located_with(self.settings().base_url, path@, pairs_text(params@))
                    matches Some(address) && is_request(
                    request,
                    self.settings(),
                    method,
                    address,
                    Seq::empty(),
                    Body::Empty,
                ),
                Err(error) => located_with(
                    self.settings().base_url,
                    path@,
                    pairs_text(params@),
                ) is None && error is UrlParse,
            },
    {
        let address = self.build_url(path, params)?;
        let request = self.request(method, address, Vec::new(), Body::Empty);
        assert(pairs_text(request.query@) =~= Seq::empty());
        Ok(request)
    }

    /// The request for `path` that carries a multipart form.
    pub fn prepare_multipart<T>(&self, method: Method, path: &str, form: FilePart) -> (outcome:
        Result<Request<T>, Error>)
        ensures
            is_prepared(
                outcome,
                self.settings(),
                method,
                path@,
                Seq::empty(),
                Body::Multipart(form),
            ),
    {
        let address = self.parse_url(path)?;
        let request = self.request(method, address, Vec::new(), Body::Multipart(form));
        assert(pairs_text(request.query@) =~= Seq::empty());
        Ok(request)
    }

    /// The request for `path` that carries nothing, with `query` for the
    /// transport to append to its address.
    pub fn request_builder<T>(
        &self,
        method: Method,
        path: &str,
        query: Vec<(String, String)>,
    ) -> (outcome: Result<Request<T>, Error>)
        ensures
            is_prepared(outcome, self.settings(), method, path@, pairs_text(query@), Body::Empty),
    {
        let address = self.parse_url(path)?;
        Ok(self.request(method, address, query, Body::Empty))
    }

    /// The client as it is written for a log, with the credential masked.
    pub fn debug_text(&self) -> (text: String)
        ensures
            text@ == rendering(
                "NvisyClient"@,
                masked(self.settings().api_key),
                self.settings().base_url,
                self.settings().timeout,
            ),
    {
        render("NvisyClient", &self.inner.config)
    }
}

} // verus!

//! The client: its configuration, the plan of a request and the reading of a
//! response.
//!
//! Nothing here touches the network. A call is planned as an `HttpRequest`,
//! whoever performs it hands back the status and the body, and
//! `receive_response` says what they mean.
use reqwest::header::{HeaderMap, HeaderName, HeaderValue};
use reqwest::Client as ReqwestClient;
use vstd::prelude::*;
use vstd::std_specs::convert::FromSpec;
use vstd::utf8::encode_utf8;
use crate::json::{
    json_document, json_rendering, parsed_view, FromJson, Json, JsonValue, RoundTrip,
};
use crate::text::{concat2, concat4, text_view};

verus! {

/// Base URL of the API.
pub const DEFAULT_API_BASE_URL: &'static str = "https://api.anthropic.com/v1";

/// Default version of the API.
pub const DEFAULT_API_VERSION: &'static str = "2023-06-01";

/// The header that carries the API key.
pub const API_KEY_HEADER: &'static str = "x-api-key";

/// The header that carries the API version.
pub const API_VERSION_HEADER: &'static str = "anthropic-version";

/// The header that says what kind of body a request carries.
pub const CONTENT_TYPE_HEADER: &'static str = "content-type";

/// The kind of body that every request with a body carries.
pub const JSON_CONTENT_TYPE: &'static str = "application/json";

#[verifier::external_type_specification]
#[verifier::external_body]
pub struct ExHttpClient(ReqwestClient);

#[verifier::external_type_specification]
#[verifier::external_body]
pub struct ExHeaderValue(HeaderValue);

/// `Client::clone` of `reqwest`: another handle to the same HTTP client.
/// Nothing is claimed of it.
pub assume_specification[ <ReqwestClient as Clone>::clone ](client: &ReqwestClient) -> ReqwestClient;

/// A byte that may stand in the value of a header: a tab, or anything from
/// 32 up but 127.
pub open spec fn is_header_byte(b: u8) -> bool {
    b >= 32 && b != 127 || b == 9
}

/// A text that may be the value of a header: every byte of its UTF-8 form
/// may stand in one.
pub open spec fn is_header_text(text: Seq<char>) -> bool {
    forall|i: int| 0 <= i < encode_utf8(text).len() ==> is_header_byte(#[trigger] encode_utf8(text)[i])
}

/// What `HeaderValue::from_str` reports for a text that is no header value.
pub open spec fn invalid_header_message() -> Seq<char> {
    "failed to parse header value"@
}

/// Whether `text` may be the value of a header.
pub fn is_header_value(text: &str) -> (r: bool)
    ensures
        r == is_header_text(text@),
{
    let bytes = text.as_bytes();
    let mut i: usize = 0;
    while i < bytes.len()
        invariant
            i <= bytes@.len(),
            bytes@ == encode_utf8(text@),
            forall|k: int| 0 <= k < i ==> is_header_byte(#[trigger] bytes@[k]),
        decreases bytes.len() - i,
    {
        let b = bytes[i];
        if !(b >= 32 && b != 127 || b == 9) {
            return false;
        }
        i = i + 1;
    }
    true
}

/// Calls `HeaderValue::from_str`, which takes a text whose bytes are all
/// tabs or at least 32 and not 127, and refuses every other text with an
/// `InvalidHeaderValue`; the error is handed on as its message.
#[verifier::external_body]
fn header_value(text: &str) -> (r: Result<HeaderValue, String>)
    ensures
        r is Ok <==> is_header_text(text@),
        r is Err ==> r->Err_0@ == invalid_header_message(),
{
    HeaderValue::from_str(text).map_err(|e| e.to_string())
}

/// Makes the HTTP client that sends the header `name` with the value
/// `value` with every request: `HeaderName::from_bytes` for the name,
/// `HeaderMap::insert`, then `Client::builder`, `default_headers` and `build`;
/// an error of either is handed on as its message. Whether a client can be
/// built is up to the HTTP backend, so nothing is claimed of the outcome.
#[verifier::external_body]
fn http_client_sending(name: &str, value: HeaderValue) -> (r: Result<ReqwestClient, String>) {
    let name = HeaderName::from_bytes(name.as_bytes()).map_err(|e| e.to_string())?;
    let mut headers = HeaderMap::new();
    headers.insert(name, value);
    ReqwestClient::builder().default_headers(headers).build().map_err(|e| e.to_string())
}

/// What a client is configured with.
pub struct ClientConfig {
    pub api_key: Seq<char>,
    pub api_version: Seq<char>,
    pub api_base_url: Seq<char>,
}

/// What a builder holds: the configuration so far, and the HTTP client that
/// was supplied, if one was.
pub struct BuilderView {
    pub config: ClientConfig,
    pub client: Option<ReqwestClient>,
}

/// `e` is the error that `E` makes from a message with the characters
/// `text`.
pub open spec fn is_error_from<E: From<String>>(e: E, text: Seq<char>) -> bool {
    E::obeys_from_spec() ==> exists|m: String| #[trigger] E::from_spec(m) == e && m@ == text
}

/// Anthropic API client: the HTTP client that performs the calls, and what
/// every call needs to know.
#[derive(Debug, Clone)]
pub struct AnthropicClient {
    client: ReqwestClient,
    api_key: String,
    api_version: String,
    api_base_url: String,
}

/// Builder for `AnthropicClient`.
pub struct AnthropicClientBuilder {
    api_key: String,
    api_version: String,
    api_base_url: String,
    client: Option<ReqwestClient>,
}

impl View for AnthropicClientBuilder {
    type V = BuilderView;

    closed spec fn view(&self) -> BuilderView {
        BuilderView {
            config: ClientConfig {
                api_key: self.api_key@,
                api_version: self.api_version@,
                api_base_url: self.api_base_url@,
            },
            client: self.client,
        }
    }
}

impl AnthropicClientBuilder {
    /// Creates a new builder with the required parameters and the default
    /// base URL.
    pub fn new(api_key: &str, api_version: &str) -> (r: Self)
        ensures
            r@.config.api_key == api_key@,
            r@.config.api_version == api_version@,
            r@.config.api_base_url == DEFAULT_API_BASE_URL@,
            r@.client is None,
    {
        AnthropicClientBuilder {
            api_key: api_key.to_owned(),
            api_version: api_version.to_owned(),
            api_base_url: DEFAULT_API_BASE_URL.to_owned(),
            client: None,
        }
    }

    /// Sets a custom API base URL.
    pub fn with_api_base_url(self, api_base_url: &str) -> (r: Self)
        ensures
            r@ == (BuilderView {
                config: ClientConfig { api_base_url: api_base_url@, ..self@.config },
                ..self@
            }),
    {
        AnthropicClientBuilder {
            api_key: self.api_key,
            api_version: self.api_version,
            api_base_url: api_base_url.to_owned(),
            client: self.client,
        }
    }

    /// Sets a custom HTTP client. Such a client is used as it is: it gets no
    /// default header.
    pub fn with_client(self, client: ReqwestClient) -> (r: Self)
        ensures
            r@ == (BuilderView { client: Some(client), ..self@ }),
    {
        AnthropicClientBuilder {
            api_key: self.api_key,
            api_version: self.api_version,
            api_base_url: self.api_base_url,
            client: Some(client),
        }
    }

    /// Sets the API version.
    pub fn with_api_version(self, api_version: &str) -> (r: Self)
        ensures
            r@ == (BuilderView {
                config: ClientConfig { api_version: api_version@, ..self@.config },
                ..self@
            }),
    {
        AnthropicClientBuilder {
            api_key: self.api_key,
            api_version: api_version.to_owned(),
            api_base_url: self.api_base_url,
            client: self.client,
        }
    }

    /// Builds the client with this configuration.
    ///
    /// With a custom HTTP client this always succeeds. Without one, a client
    /// is made that sends the API version as its `anthropic-version` header
    /// with every request; an API version that is no header value is an
    /// error, and so is whatever the HTTP backend reports.
    pub fn build<E: From<String>>(self) -> (r: Result<AnthropicClient, E>)
        ensures
            r matches Ok(c) ==> c@ == self@.config,
            self@.client matches Some(h) ==> (r matches Ok(c) && c.http_client() == h),
            self@.client is None && !is_header_text(self@.config.api_version) ==> (r matches Err(e)
                && is_error_from(e, invalid_header_message())),
    {
        let made = match self.client {
            Some(client) => Ok(client),
            None => match header_value(self.api_version.as_str()) {
                Ok(version) => http_client_sending(API_VERSION_HEADER, version),
                Err(message) => Err(message),
            },
        };
        AnthropicClient::from_parts(self.api_key, self.api_version, self.api_base_url, made)
    }
}

impl View for AnthropicClient {
    type V = ClientConfig;

    closed spec fn view(&self) -> ClientConfig {
        ClientConfig {
            api_key: self.api_key@,
            api_version: self.api_version@,
            api_base_url: self.api_base_url@,
        }
    }
}

/// The method of an HTTP request.
#[derive(Debug, Clone, Copy, PartialEq, Eq)]
pub enum HttpMethod {
    Get,
    Post,
    Delete,
}

/// One HTTP request, ready to be sent.
#[derive(Debug, PartialEq, Eq)]
pub struct HttpRequest {
    pub method: HttpMethod,
    /// The base URL followed by the path of the endpoint.
    pub url: String,
    /// The headers that this request adds to those of the HTTP client, as
    /// names and values.
    pub headers: Vec<(String, String)>,
    /// The query parameters as names and values, not yet percent-encoded.
    pub query: Vec<(String, String)>,
    /// The JSON body, if the request has one.
    pub body: Option<String>,
}

/// What an `HttpRequest` stands for.
pub struct HttpRequestView {
    pub method: HttpMethod,
    pub url: Seq<char>,
    pub headers: Seq<(Seq<char>, Seq<char>)>,
    pub query: Seq<(Seq<char>, Seq<char>)>,
    pub body: Option<Seq<char>>,
}

/// The characters of a sequence of names and values.
pub open spec fn pairs_view(pairs: Seq<(String, String)>) -> Seq<(Seq<char>, Seq<char>)> {
    Seq::new(pairs.len(), |i: int| (pairs[i].0@, pairs[i].1@))
}

impl View for HttpRequest {
    type V = HttpRequestView;

    open spec fn view(&self) -> HttpRequestView {
        HttpRequestView {
            method: self.method,
            url: self.url@,
            headers: pairs_view(self.headers@),
            query: pairs_view(self.query@),
            body: text_view(self.body),
        }
    }
}

/// What is reported where the body cannot be written as JSON.
pub open spec fn unwritable_body_message() -> Seq<char> {
    "Failed to serialize body: the value holds a number that JSON cannot express"@
}

/// The headers that a request adds to those of the HTTP client: the headers
/// of its kind first, and behind them the content type where the request has
/// a body.
pub open spec fn with_content_type(
    headers: Seq<(Seq<char>, Seq<char>)>,
    has_body: bool,
) -> Seq<(Seq<char>, Seq<char>)> {
    if has_body {
        headers.push((CONTENT_TYPE_HEADER@, JSON_CONTENT_TYPE@))
    } else {
        headers
    }
}

/// The request that a client with the configuration `config` makes of a
/// method, a path, query parameters and a body whose JSON text is `rendered`
/// (`None` inside where the body has none); or the message of the error,
/// where the API key is no header value or the body has no JSON text.
pub open spec fn planned_request(
    config: ClientConfig,
    method: HttpMethod,
    path: Seq<char>,
    query: Seq<(Seq<char>, Seq<char>)>,
    rendered: Option<Option<Seq<char>>>,
) -> Result<HttpRequestView, Seq<char>> {
    if !is_header_text(config.api_key) {
        Err(invalid_header_message())
    } else if rendered == Some(None::<Seq<char>>) {
        Err(unwritable_body_message())
    } else {
        Ok(
            HttpRequestView {
                method,
                url: config.api_base_url + path,
                headers: with_content_type(
                    seq![(API_KEY_HEADER@, config.api_key)],
                    rendered is Some,
                ),
                query,
                body: match rendered {
                    Some(text) => text,
                    None => None,
                },
            },
        )
    }
}

/// `r` is the result that a planning outcome asks for: the request, or the
/// error that `E` makes from the message.
pub open spec fn plans<E: From<String>>(
    r: Result<HttpRequest, E>,
    outcome: Result<HttpRequestView, Seq<char>>,
) -> bool {
    match r {
        Ok(request) => outcome == Ok::<HttpRequestView, Seq<char>>(request@),
        Err(e) => outcome is Err && is_error_from(e, outcome->Err_0),
    }
}

/// The JSON text of an optional body.
pub open spec fn rendered_body(body: Option<&JsonValue>) -> Option<Option<Seq<char>>> {
    match body {
        Some(v) => Some(json_rendering(v@)),
        None => None,
    }
}

/// Whether a status code stands for success: 200 to 299.
pub open spec fn is_success_status(status: u16) -> bool {
    200 <= status < 300
}

/// What is reported where the body of an answer is no JSON: the reason, and
/// the body itself.
pub open spec fn unreadable_body_message(reason: Seq<char>, body: Seq<char>) -> Seq<char> {
    "JSON parsing error: "@ + reason + ". Response body: "@ + body
}

/// What an answer means, given its status, its body and what the JSON reader
/// made of the body: the value of the body where the status stands for
/// success and the body is JSON, the message of the error otherwise. An
/// answer without success is reported with its body as it came.
pub open spec fn response_outcome(status: u16, body: Seq<char>, parsed: Result<Json, Seq<char>>) -> Result<
    Json,
    Seq<char>,
> {
    if !is_success_status(status) {
        Err(body)
    } else {
        match parsed {
            Ok(j) => Ok(j),
            Err(reason) => Err(unreadable_body_message(reason, body)),
        }
    }
}

/// What an answer means, given its status and its body.
pub open spec fn json_outcome(status: u16, body: Seq<char>) -> Result<Json, Seq<char>> {
    response_outcome(status, body, json_document(body))
}

/// `r` is the result that an outcome asks for: the value, or the error that
/// `E` makes from the message.
pub open spec fn reports<E: From<String>>(r: Result<JsonValue, E>, outcome: Result<Json, Seq<char>>) -> bool {
    match r {
        Ok(v) => outcome == Ok::<Json, Seq<char>>(v@),
        Err(e) => outcome is Err && is_error_from(e, outcome->Err_0),
    }
}

/// Why a body that is JSON may still be refused.
pub open spec fn shape_reason() -> Seq<char> {
    "the value is not of the expected shape"@
}

/// What an answer means for an endpoint that answers with a `T`: the `T`
/// that the value of the body describes, or the message of the error.
pub open spec fn typed_outcome<T: FromJson>(
    outcome: Result<Json, Seq<char>>,
    body: Seq<char>,
) -> Result<T::V, Seq<char>> {
    match outcome {
        Err(m) => Err(m),
        Ok(j) => match T::of_json(j) {
            Some(v) => Ok(v),
            None => Err(unreadable_body_message(shape_reason(), body)),
        },
    }
}

/// `r` is the result that a typed outcome asks for: a value that stands for
/// the outcome's, or the error that `E` makes from the message.
pub open spec fn answers<T: View, E: From<String>>(
    r: Result<T, E>,
    outcome: Result<T::V, Seq<char>>,
) -> bool {
    match r {
        Ok(v) => outcome == Ok::<T::V, Seq<char>>(v@),
        Err(e) => outcome is Err && is_error_from(e, outcome->Err_0),
    }
}

/// The error that `E` makes from `message`.
pub fn error_from<E: From<String>>(message: String) -> (e: E)
    ensures
        is_error_from(e, message@),
{
    let ghost shown = message;
    let e = E::from(message);
    assert(E::obeys_from_spec() ==> E::from_spec(shown) == e);
    e
}

/// Whether a status code stands for success.
pub fn is_success(status: u16) -> (r: bool)
    ensures
        r == is_success_status(status),
{
    200 <= status && status < 300
}

/// Reads an answer from its status, its body and what the JSON reader made
/// of the body.
pub fn response_from_parsed<E: From<String>>(
    status: u16,
    body: &str,
    parsed: Result<JsonValue, String>,
) -> (r: Result<JsonValue, E>)
    ensures
        reports(r, response_outcome(status, body@, parsed_view(parsed))),
{
    if !is_success(status) {
        return Err(error_from(body.to_owned()));
    }
    match parsed {
        Ok(value) => Ok(value),
        Err(reason) => Err(
            error_from(concat4("JSON parsing error: ", reason.as_str(), ". Response body: ", body)),
        ),
    }
}

/// Reads an answer from its status and its body. The body is looked at as
/// JSON only where the status stands for success.
pub fn receive_response<E: From<String>>(status: u16, body: &str) -> (r: Result<JsonValue, E>)
    ensures
        reports(r, json_outcome(status, body@)),
{
    if !is_success(status) {
        return Err(error_from(body.to_owned()));
    }
    response_from_parsed(status, body, JsonValue::parse(body))
}

/// The error for a body that is JSON and not of the shape that the endpoint
/// answers with.
pub fn shape_error<E: From<String>>(body: &str) -> (e: E)
    ensures
        is_error_from(e, unreadable_body_message(shape_reason(), body@)),
{
    error_from(
        concat4(
            "JSON parsing error: ",
            "the value is not of the expected shape",
            ". Response body: ",
            body,
        ),
    )
}

/// Reads an answer as a `T`, from its status, its body and what the JSON
/// reader made of the body.
pub fn answer_from_parsed<T: FromJson, E: From<String>>(
    status: u16,
    body: &str,
    parsed: Result<JsonValue, String>,
) -> (r: Result<T, E>)
    ensures
        answers(r, typed_outcome::<T>(response_outcome(status, body@, parsed_view(parsed)), body@)),
{
    match response_from_parsed::<E>(status, body, parsed) {
        Err(e) => Err(e),
        Ok(value) => match T::from_json(&value) {
            Some(answer) => Ok(answer),
            None => Err(shape_error(body)),
        },
    }
}

/// Reads an answer as a `T`, from its status and its body.
pub fn read_answer<T: FromJson, E: From<String>>(status: u16, body: &str) -> (r: Result<T, E>)
    ensures
        answers(r, typed_outcome::<T>(json_outcome(status, body@), body@)),
{
    match receive_response::<E>(status, body) {
        Err(e) => Err(e),
        Ok(value) => match T::from_json(&value) {
            Some(answer) => Ok(answer),
            None => Err(shape_error(body)),
        },
    }
}

/// An answer that echoes a request is read back as the request, field for
/// field: where the status stands for success and the body reads as the
/// very value that the request was written as, the answer is what the
/// request stood for.
pub proof fn lemma_echo_is_read_back<T: RoundTrip>(
    v: T::V,
    status: u16,
    body: Seq<char>,
    parsed: Result<Json, Seq<char>>,
)
    requires
        T::fits_wire(v),
        is_success_status(status),
        parsed == Ok::<Json, Seq<char>>(T::json(v)),
    ensures
        typed_outcome::<T>(response_outcome(status, body, parsed), body) == Ok::<T::V, Seq<char>>(v),
{
    T::lemma_round_trip(v);
}

/// The message for a body that could not be read off the connection.
pub fn body_read_failure(reason: &str) -> (r: String)
    ensures
        r@ == "Failed to get response body: "@ + reason@,
{
    concat2("Failed to get response body: ", reason)
}

/// Adds the content type behind the headers of a request that has a body.
pub fn add_content_type(headers: &mut Vec<(String, String)>, has_body: bool)
    ensures
        pairs_view(final(headers)@) == with_content_type(pairs_view(old(headers)@), has_body),
{
    if has_body {
        headers.push((CONTENT_TYPE_HEADER.to_owned(), JSON_CONTENT_TYPE.to_owned()));
    }
    assert(pairs_view(headers@) =~= with_content_type(pairs_view(old(headers)@), has_body));
}

impl AnthropicClient {
    /// Makes a client of its configuration and of what became of the making
    /// of its HTTP client: the client around the HTTP client, or the error
    /// with the message of why none was made.
    pub fn from_parts<E: From<String>>(
        api_key: String,
        api_version: String,
        api_base_url: String,
        made: Result<ReqwestClient, String>,
    ) -> (r: Result<Self, E>)
        ensures
            match made {
                Ok(h) => r matches Ok(c) && c.http_client() == h && c@ == (ClientConfig {
                    api_key: api_key@,
                    api_version: api_version@,
                    api_base_url: api_base_url@,
                }),
                Err(m) => r matches Err(e) && is_error_from(e, m@),
            },
    {
        match made {
            Ok(client) => Ok(AnthropicClient { client, api_key, api_version, api_base_url }),
            Err(message) => Err(error_from(message)),
        }
    }

    /// The HTTP client that performs the calls.
    pub fn get_client(&self) -> (r: &ReqwestClient)
        ensures
            *r == self.http_client(),
    {
        &self.client
    }

    /// The HTTP client that this client holds: the one that was supplied to
    /// its builder, or the one that was made for it where none was supplied.
    pub closed spec fn http_client(&self) -> ReqwestClient {
        self.client
    }

    pub fn get_api_key(&self) -> (r: &str)
        ensures
            r@ == self@.api_key,
    {
        self.api_key.as_str()
    }

    pub fn get_api_version(&self) -> (r: &str)
        ensures
            r@ == self@.api_version,
    {
        self.api_version.as_str()
    }

    pub fn get_api_base_url(&self) -> (r: &str)
        ensures
            r@ == self@.api_base_url,
    {
        self.api_base_url.as_str()
    }

    /// Creates a builder with the required parameters and the default base
    /// URL.
    pub fn builder(api_key: &str, api_version: &str) -> (r: AnthropicClientBuilder)
        ensures
            r@.config.api_key == api_key@,
            r@.config.api_version == api_version@,
            r@.config.api_base_url == DEFAULT_API_BASE_URL@,
            r@.client is None,
    {
        AnthropicClientBuilder::new(api_key, api_version)
    }

    /// Creates a client with the default base URL and an HTTP client of its
    /// own. An API version that is no header value is an error, and so is
    /// whatever the HTTP backend reports.
    pub fn new<E: From<String>>(api_key: &str, api_version: &str) -> (r: Result<Self, E>)
        ensures
            r matches Ok(c) ==> c@ == (ClientConfig {
                api_key: api_key@,
                api_version: api_version@,
                api_base_url: DEFAULT_API_BASE_URL@,
            }),
            !is_header_text(api_version@) ==> (r matches Err(e) && is_error_from(
                e,
                invalid_header_message(),
            )),
    {
        Self::builder(api_key, api_version).build()
    }

    /// Plans a request: the method and the URL of the endpoint, the API key
    /// as the `x-api-key` header, the content type where there is a body, the
    /// query parameters, and the body as JSON text. Nothing is sent.
    pub fn plan_request<E: From<String>>(
        &self,
        method: HttpMethod,
        path: &str,
        query: Vec<(String, String)>,
        body: Option<&JsonValue>,
    ) -> (r: Result<HttpRequest, E>)
        ensures
            plans(
                r,
                planned_request(self@, method, path@, pairs_view(query@), rendered_body(body)),
            ),
            is_header_text(self@.api_key) && (body matches Some(v) ==> v@.printable()) ==> r is Ok,
    {
        if !is_header_value(self.api_key.as_str()) {
            return Err(error_from("failed to parse header value".to_owned()));
        }
        let text = match body {
            None => None,
            Some(value) => match value.to_text() {
                Some(text) => Some(text),
                None => {
                    return Err(
                        error_from(
                            "Failed to serialize body: the value holds a number that JSON cannot express".to_owned(),
                        ),
                    );
                },
            },
        };
        let mut headers: Vec<(String, String)> = Vec::new();
        headers.push((API_KEY_HEADER.to_owned(), self.api_key.clone()));
        add_content_type(&mut headers, text.is_some());
        let request = HttpRequest {
            method,
            url: concat2(self.api_base_url.as_str(), path),
            headers,
            query,
            body: text,
        };
        assert(request@.headers =~= with_content_type(
            seq![(API_KEY_HEADER@, self@.api_key)],
            body is Some,
        ));
        Ok(request)
    }

    /// Plans a GET request.
    pub fn plan_get<E: From<String>>(&self, path: &str, query: Vec<(String, String)>) -> (r: Result<
        HttpRequest,
        E,
    >)
        ensures
            plans(r, planned_request(self@, HttpMethod::Get, path@, pairs_view(query@), None)),
    {
        self.plan_request(HttpMethod::Get, path, query, None)
    }

    /// Plans a POST request.
    pub fn plan_post<E: From<String>>(&self, path: &str, body: Option<&JsonValue>) -> (r: Result<
        HttpRequest,
        E,
    >)
        ensures
            plans(
                r,
                planned_request(self@, HttpMethod::Post, path@, Seq::empty(), rendered_body(body)),
            ),
            is_header_text(self@.api_key) && (body matches Some(v) ==> v@.printable()) ==> r is Ok,
    {
        let query: Vec<(String, String)> = Vec::new();
        assert(pairs_view(query@) =~= Seq::empty());
        self.plan_request(HttpMethod::Post, path, query, body)
    }

    /// Plans a DELETE request.
    pub fn plan_delete<E: From<String>>(&self, path: &str, query: Vec<(String, String)>) -> (r: Result<
        HttpRequest,
        E,
    >)
        ensures
            plans(r, planned_request(self@, HttpMethod::Delete, path@, pairs_view(query@), None)),
    {
        self.plan_request(HttpMethod::Delete, path, query, None)
    }
}

} // verus!

//! Requests and responses as plain values, and the questions about a request
//! that only the `http` and `url` crates can answer.

use vstd::prelude::*;
use vstd::string::*;

verus! {

/// The request methods that the providers use.
#[derive(Clone, Copy, Debug, PartialEq, Eq, Structural)]
pub enum Method {
    Get,
    Put,
}

/// A request for the caller to send. Every request of this library has an
/// empty body.
#[derive(Debug, PartialEq, Eq)]
pub struct HttpRequest {
    pub method: Method,
    pub url: String,
    pub headers: Vec<(String, String)>,
}

/// What a request is, in the terms of the contracts.
pub struct HttpRequestView {
    pub method: Method,
    pub url: Seq<char>,
    pub headers: Seq<(Seq<char>, Seq<char>)>,
}

impl View for HttpRequest {
    type V = HttpRequestView;

    open spec fn view(&self) -> HttpRequestView {
        HttpRequestView {
            method: self.method,
            url: self.url@,
            headers: self.headers.deep_view(),
        }
    }
}

impl DeepView for HttpRequest {
    type V = HttpRequestView;

    open spec fn deep_view(&self) -> HttpRequestView {
        self@
    }
}

impl Clone for HttpRequest {
    fn clone(&self) -> (r: HttpRequest)
        ensures
            r@ == self@,
    {
        let mut headers: Vec<(String, String)> = Vec::new();
        let mut i: usize = 0;
        while i < self.headers.len()
            invariant
                i <= self.headers.len(),
                headers.len() == i,
                forall|j: int|
                    0 <= j < i ==> (#[trigger] headers[j]).deep_view()
                        == self.headers[j].deep_view(),
            decreases self.headers.len() - i,
        {
            headers.push((self.headers[i].0.clone(), self.headers[i].1.clone()));
            i = i + 1;
        }
        assert(headers.deep_view() =~= self.headers.deep_view());
        HttpRequest { method: self.method, url: self.url.clone(), headers }
    }
}

/// The answer to a request: the status code and the body as text.
#[derive(Debug, PartialEq, Eq)]
pub struct HttpResponse {
    pub status: u16,
    pub body: String,
}

/// What a response is, in the terms of the contracts.
pub struct HttpResponseView {
    pub status: u16,
    pub body: Seq<char>,
}

impl View for HttpResponse {
    type V = HttpResponseView;

    open spec fn view(&self) -> HttpResponseView {
        HttpResponseView { status: self.status, body: self.body@ }
    }
}

impl DeepView for HttpResponse {
    type V = HttpResponseView;

    open spec fn deep_view(&self) -> HttpResponseView {
        self@
    }
}

impl Clone for HttpResponse {
    fn clone(&self) -> (r: HttpResponse)
        ensures
            r == *self,
    {
        HttpResponse { status: self.status, body: self.body.clone() }
    }
}

/// The status is one of the 2xx codes.
pub open spec fn status_is_success(status: u16) -> bool {
    200 <= status < 300
}

impl HttpResponse {
    pub fn new(status: u16, body: String) -> (r: HttpResponse)
        ensures
            r@ == (HttpResponseView { status, body: body@ }),
    {
        HttpResponse { status, body }
    }

    /// Whether the status is exactly 200.
    pub fn is_ok(&self) -> (r: bool)
        ensures
            r == (self.status == 200),
    {
        self.status == 200
    }

    /// Whether the status is one of the 2xx codes.
    pub fn is_success(&self) -> (r: bool)
        ensures
            r == status_is_success(self.status),
    {
        200 <= self.status && self.status < 300
    }
}

/// A byte that may stand in a header value: anything from the space upwards
/// but DEL, and the tab.
pub open spec fn header_byte_allowed(b: u8) -> bool {
    (b >= 32 && b != 127) || b == 9
}

/// Text that may stand as a header value: each byte of its UTF-8 form is
/// allowed.
pub open spec fn header_value_allowed(text: Seq<char>) -> bool {
    forall|i: int|
        0 <= i < vstd::utf8::encode_utf8(text).len() ==> header_byte_allowed(
            #[trigger] vstd::utf8::encode_utf8(text)[i],
        )
}

/// Whether `http::Uri` accepts the text as a URI.
pub uninterp spec fn uri_parses(text: Seq<char>) -> bool;

/// Asks `http::HeaderValue::from_str` whether the text may stand as a
/// header value.
///
/// Trusted: `http` accepts the text exactly where every byte of it is 32 or
/// more and not 127, or is the tab.
#[verifier::external_body]
pub(crate) fn header_value_is_valid(text: &str) -> (r: bool)
    ensures
        r == header_value_allowed(text@),
{
    http::HeaderValue::from_str(text).is_ok()
}

/// Asks `http::Uri` whether it accepts the text.
///
/// Trusted: the answer is that of `http`'s URI parser on this text; nothing
/// is said here about which texts it accepts.
#[verifier::external_body]
pub(crate) fn uri_is_valid(text: &str) -> (r: bool)
    ensures
        r == uri_parses(text@),
{
    text.parse::<http::Uri>().is_ok()
}

/// The URL that the `url` crate makes of a base and of parameters added to
/// its query, or `None` where it does not accept the base as an absolute URL.
pub uninterp spec fn url_with_params(base: Seq<char>, params: Seq<(Seq<char>, Seq<char>)>)
    -> Option<Seq<char>>;

#[verifier::external_type_specification]
#[verifier::external_body]
pub struct ExUrlParseError(url::ParseError);

/// Parses `base` and adds `params` to its query, with
/// `reqwest::Url::parse_with_params`, which is that of the `url` crate.
///
/// Trusted: the text returned is the URL as the `url` crate writes it; an
/// error comes back exactly where the crate rejects the base.
#[verifier::external_body]
pub(crate) fn parse_with_params(base: &str, params: &Vec<(String, String)>) -> (r: Result<
    String,
    url::ParseError,
>)
    ensures
        r matches Ok(u) ==> url_with_params(base@, params.deep_view()) == Some(u@),
        r is Err ==> url_with_params(base@, params.deep_view()) is None,
{
    let url = reqwest::Url::parse_with_params(base, params)?;
    Ok(String::from(url))
}

/// Builds the pair of a header's name and value.
pub fn header(name: &str, value: &str) -> (r: (String, String))
    ensures
        r.deep_view() == (name@, value@),
{
    (String::from_str(name), String::from_str(value))
}

} // verus!

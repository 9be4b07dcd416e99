//! Tokens of a managed identity, from the Azure instance metadata service.

use vstd::prelude::*;
use vstd::string::*;
use crate::text::{join, result_view};
use crate::transport::{
    header, header_value_allowed, header_value_is_valid, parse_with_params, status_is_success,
    uri_is_valid, uri_parses, url_with_params, HttpRequest, HttpRequestView, HttpResponse,
    HttpResponseView, Method,
};

verus! {

/// The version of the token API that is asked.
pub const MSI_API_VERSION: &'static str = "2019-08-01";

/// The metadata service's own endpoint for tokens.
pub const MSI_ENDPOINT: &'static str = "http://169.254.169.254/metadata/identity/oauth2/token";

/// The header that carries the secret.
pub const SECRET_HEADER: &'static str = "x-identity-header";

/// Which user-assigned identity a token is asked for. At most one way of
/// naming it is in force.
#[derive(Debug, PartialEq, Eq)]
pub enum IdentitySelector {
    /// None: the identity that the system assigned.
    Unset,
    ObjectId(String),
    ClientId(String),
    MsiResId(String),
}

/// What an `IdentitySelector` is, in the terms of the contracts.
pub enum IdentitySelectorView {
    Unset,
    ObjectId(Seq<char>),
    ClientId(Seq<char>),
    MsiResId(Seq<char>),
}

impl View for IdentitySelector {
    type V = IdentitySelectorView;

    open spec fn view(&self) -> IdentitySelectorView {
        match self {
            IdentitySelector::Unset => IdentitySelectorView::Unset,
            IdentitySelector::ObjectId(id) => IdentitySelectorView::ObjectId(id@),
            IdentitySelector::ClientId(id) => IdentitySelectorView::ClientId(id@),
            IdentitySelector::MsiResId(id) => IdentitySelectorView::MsiResId(id@),
        }
    }
}

impl Clone for IdentitySelector {
    fn clone(&self) -> (r: IdentitySelector)
        ensures
            r == *self,
    {
        match self {
            IdentitySelector::Unset => IdentitySelector::Unset,
            IdentitySelector::ObjectId(id) => IdentitySelector::ObjectId(id.clone()),
            IdentitySelector::ClientId(id) => IdentitySelector::ClientId(id.clone()),
            IdentitySelector::MsiResId(id) => IdentitySelector::MsiResId(id.clone()),
        }
    }
}

/// The token document that the service answers with.
#[derive(Debug, PartialEq, Eq)]
pub struct MsiTokenResponse {
    pub access_token: String,
    pub token_type: String,
    pub resource: String,
}

/// What a `MsiTokenResponse` is, in the terms of the contracts.
pub struct MsiTokenResponseView {
    pub access_token: Seq<char>,
    pub token_type: Seq<char>,
    pub resource: Seq<char>,
}

impl View for MsiTokenResponse {
    type V = MsiTokenResponseView;

    open spec fn view(&self) -> MsiTokenResponseView {
        MsiTokenResponseView {
            access_token: self.access_token@,
            token_type: self.token_type@,
            resource: self.resource@,
        }
    }
}

impl DeepView for MsiTokenResponse {
    type V = MsiTokenResponseView;

    open spec fn deep_view(&self) -> MsiTokenResponseView {
        self@
    }
}

/// Why no token was obtained.
#[derive(Debug, PartialEq, Eq)]
pub enum MsiError {
    /// The endpoint is no absolute URL.
    InvalidEndpoint,
    /// The URL with its parameters is not one that a request can carry.
    InvalidRequest,
    /// The secret cannot stand in a header.
    InvalidSecret,
    /// No response came back.
    Transport,
    /// The service answered with a status outside 2xx.
    RequestFailed { body: String },
    /// The token document could not be read from the body.
    MalformedResponse { body: String },
    /// The event does not answer the step that was handed out last.
    OutOfTurn,
}

/// What a `MsiError` is, in the terms of the contracts.
pub enum MsiErrorView {
    InvalidEndpoint,
    InvalidRequest,
    InvalidSecret,
    Transport,
    RequestFailed { body: Seq<char> },
    MalformedResponse { body: Seq<char> },
    OutOfTurn,
}

impl View for MsiError {
    type V = MsiErrorView;

    open spec fn view(&self) -> MsiErrorView {
        match self {
            MsiError::InvalidEndpoint => MsiErrorView::InvalidEndpoint,
            MsiError::InvalidRequest => MsiErrorView::InvalidRequest,
            MsiError::InvalidSecret => MsiErrorView::InvalidSecret,
            MsiError::Transport => MsiErrorView::Transport,
            MsiError::RequestFailed { body } => MsiErrorView::RequestFailed { body: body@ },
            MsiError::MalformedResponse { body } => MsiErrorView::MalformedResponse {
                body: body@,
            },
            MsiError::OutOfTurn => MsiErrorView::OutOfTurn,
        }
    }
}

impl DeepView for MsiError {
    type V = MsiErrorView;

    open spec fn deep_view(&self) -> MsiErrorView {
        self@
    }
}

impl MsiErrorView {
    /// The error in words.
    pub open spec fn message(self) -> Seq<char> {
        match self {
            MsiErrorView::InvalidEndpoint => "MSI endpoint is not an absolute URL"@,
            MsiErrorView::InvalidRequest => "MSI token request could not be built"@,
            MsiErrorView::InvalidSecret => "MSI secret cannot stand in a header"@,
            MsiErrorView::Transport => "MSI token request got no response"@,
            MsiErrorView::RequestFailed { body } => "Error getting MSI token: "@ + body,
            MsiErrorView::MalformedResponse { body } =>
                "MSI token response could not be read: "@ + body,
            MsiErrorView::OutOfTurn => "event does not answer the step handed out last"@,
        }
    }
}

impl MsiError {
    /// The error in words, for a log or for the user.
    pub fn message(&self) -> (r: String)
        ensures
            r@ == self@.message(),
    {
        match self {
            MsiError::InvalidEndpoint => String::from_str("MSI endpoint is not an absolute URL"),
            MsiError::InvalidRequest => String::from_str("MSI token request could not be built"),
            MsiError::InvalidSecret => String::from_str("MSI secret cannot stand in a header"),
            MsiError::Transport => String::from_str("MSI token request got no response"),
            MsiError::RequestFailed { body } => join("Error getting MSI token: ", body.as_str()),
            MsiError::MalformedResponse { body } => join(
                "MSI token response could not be read: ",
                body.as_str(),
            ),
            MsiError::OutOfTurn => String::from_str(
                "event does not answer the step handed out last",
            ),
        }
    }
}

/// Asks for tokens of a managed identity that was assigned to the machine.
#[derive(Debug, PartialEq, Eq)]
pub struct ImdsManagedIdentityCredential {
    endpoint: Option<String>,
    secret: Option<String>,
    selector: IdentitySelector,
}

/// What an `ImdsManagedIdentityCredential` is, in the terms of the contracts.
pub struct ManagedIdentityView {
    pub endpoint: Option<Seq<char>>,
    pub secret: Option<Seq<char>>,
    pub selector: IdentitySelectorView,
}

impl View for ImdsManagedIdentityCredential {
    type V = ManagedIdentityView;

    closed spec fn view(&self) -> ManagedIdentityView {
        ManagedIdentityView {
            endpoint: self.endpoint.deep_view(),
            secret: self.secret.deep_view(),
            selector: self.selector@,
        }
    }
}

/// The settings that `ImdsManagedIdentityCredential::new` gives.
pub open spec fn unset_identity() -> ManagedIdentityView {
    ManagedIdentityView { endpoint: None, secret: None, selector: IdentitySelectorView::Unset }
}

/// The query parameter that names the identity, if one is named.
pub open spec fn selector_params(selector: IdentitySelectorView) -> Seq<(Seq<char>, Seq<char>)> {
    match selector {
        IdentitySelectorView::Unset => Seq::empty(),
        IdentitySelectorView::ObjectId(id) => seq![("object_id"@, id)],
        IdentitySelectorView::ClientId(id) => seq![("client_id"@, id)],
        IdentitySelectorView::MsiResId(id) => seq![("msi_res_id"@, id)],
    }
}

/// The query parameters of a token request, in the order in which they are
/// added.
pub open spec fn token_params(resource: Seq<char>, selector: IdentitySelectorView) -> Seq<
    (Seq<char>, Seq<char>),
> {
    seq![("api-version"@, MSI_API_VERSION@), ("resource"@, resource)] + selector_params(selector)
}

/// The headers of a token request.
pub open spec fn token_headers(secret: Option<Seq<char>>) -> Seq<(Seq<char>, Seq<char>)> {
    match secret {
        None => seq![("metadata"@, "true"@)],
        Some(s) => seq![("metadata"@, "true"@), (SECRET_HEADER@, s)],
    }
}

/// The endpoint that is asked: the one that was set, or the service's own.
pub open spec fn endpoint_of(identity: ManagedIdentityView) -> Seq<char> {
    match identity.endpoint {
        Some(e) => e,
        None => MSI_ENDPOINT@,
    }
}

/// The request for a token, given the URL that the endpoint and the
/// parameters make, and whether that URL is a URI: `url` is `None` where
/// the endpoint is no absolute URL.
pub open spec fn token_request_for(
    identity: ManagedIdentityView,
    url: Option<Seq<char>>,
    url_is_uri: bool,
) -> Result<HttpRequestView, MsiErrorView> {
    match url {
        None => Err(MsiErrorView::InvalidEndpoint),
        Some(u) => if !url_is_uri {
            Err(MsiErrorView::InvalidRequest)
        } else if identity.secret matches Some(s) && !header_value_allowed(s) {
            Err(MsiErrorView::InvalidSecret)
        } else {
            Ok(
                HttpRequestView {
                    method: Method::Get,
                    url: u,
                    headers: token_headers(identity.secret),
                },
            )
        },
    }
}

/// The URL of a token request for `resource`, or `None` where the endpoint
/// is no absolute URL.
pub open spec fn token_url(identity: ManagedIdentityView, resource: Seq<char>) -> Option<
    Seq<char>,
> {
    url_with_params(endpoint_of(identity), token_params(resource, identity.selector))
}

/// The request for a token for `resource`.
pub open spec fn token_request_view(identity: ManagedIdentityView, resource: Seq<char>)
    -> Result<HttpRequestView, MsiErrorView> {
    token_request_for(
        identity,
        token_url(identity, resource),
        token_url(identity, resource) matches Some(u) && uri_parses(u),
    )
}

impl Default for ImdsManagedIdentityCredential {
    fn default() -> (r: ImdsManagedIdentityCredential)
        ensures
            r@ == unset_identity(),
    {
        ImdsManagedIdentityCredential::new()
    }
}

impl ImdsManagedIdentityCredential {
    /// A credential for the identity that the system assigned, asked of the
    /// service's own endpoint, without a secret.
    pub fn new() -> (r: ImdsManagedIdentityCredential)
        ensures
            r@ == unset_identity(),
    {
        ImdsManagedIdentityCredential {
            endpoint: None,
            secret: None,
            selector: IdentitySelector::Unset,
        }
    }

    /// Sets the endpoint that tokens are asked of.
    pub fn with_endpoint(self, endpoint: &str) -> (r: ImdsManagedIdentityCredential)
        ensures
            r@ == (ManagedIdentityView { endpoint: Some(endpoint@), ..self@ }),
    {
        let mut r = self;
        r.endpoint = Some(String::from_str(endpoint));
        r
    }

    /// Sets the secret that goes with each request.
    pub fn with_secret(self, secret: &str) -> (r: ImdsManagedIdentityCredential)
        ensures
            r@ == (ManagedIdentityView { secret: Some(secret@), ..self@ }),
    {
        let mut r = self;
        r.secret = Some(String::from_str(secret));
        r
    }

    /// Names the identity by its object id. An identity named before, in
    /// whatever way, is named no longer.
    pub fn with_object_id(self, object_id: &str) -> (r: ImdsManagedIdentityCredential)
        ensures
            r@ == (ManagedIdentityView {
                selector: IdentitySelectorView::ObjectId(object_id@),
                ..self@
            }),
    {
        let mut r = self;
        r.selector = IdentitySelector::ObjectId(String::from_str(object_id));
        r
    }

    /// Names the identity by its client id. An identity named before, in
    /// whatever way, is named no longer.
    pub fn with_client_id(self, client_id: &str) -> (r: ImdsManagedIdentityCredential)
        ensures
            r@ == (ManagedIdentityView {
                selector: IdentitySelectorView::ClientId(client_id@),
                ..self@
            }),
    {
        let mut r = self;
        r.selector = IdentitySelector::ClientId(String::from_str(client_id));
        r
    }

    /// Names the identity by its ARM resource id. An identity named before,
    /// in whatever way, is named no longer.
    pub fn with_identity(self, msi_res_id: &str) -> (r: ImdsManagedIdentityCredential)
        ensures
            r@ == (ManagedIdentityView {
                selector: IdentitySelectorView::MsiResId(msi_res_id@),
                ..self@
            }),
    {
        let mut r = self;
        r.selector = IdentitySelector::MsiResId(String::from_str(msi_res_id));
        r
    }

    /// The way in which the identity is named.
    pub fn selector(&self) -> (r: &IdentitySelector)
        ensures
            r@ == self@.selector,
    {
        &self.selector
    }

    /// The query parameters of a token request for `resource`.
    pub fn query_params(&self, resource: &str) -> (r: Vec<(String, String)>)
        ensures
            r.deep_view() == token_params(resource@, self@.selector),
    {
        let mut params: Vec<(String, String)> = Vec::new();
        params.push(header("api-version", MSI_API_VERSION));
        params.push(header("resource", resource));
        match &self.selector {
            IdentitySelector::Unset => {},
            IdentitySelector::ObjectId(id) => {
                params.push(header("object_id", id.as_str()));
            },
            IdentitySelector::ClientId(id) => {
                params.push(header("client_id", id.as_str()));
            },
            IdentitySelector::MsiResId(id) => {
                params.push(header("msi_res_id", id.as_str()));
            },
        }
        assert(params.deep_view() =~= token_params(resource@, self@.selector));
        params
    }

    /// The request for a token, given the URL that the endpoint and the
    /// parameters make, and whether that URL is a URI.
    pub fn request_for(&self, url: Option<String>, url_is_uri: bool) -> (r: Result<
        HttpRequest,
        MsiError,
    >)
        ensures
            result_view(r) == token_request_for(self@, url.deep_view(), url_is_uri),
    {
        let url = match url {
            Some(u) => u,
            None => {
                return Err(MsiError::InvalidEndpoint);
            },
        };
        if !url_is_uri {
            return Err(MsiError::InvalidRequest);
        }
        let mut headers: Vec<(String, String)> = Vec::new();
        headers.push(header("metadata", "true"));
        match &self.secret {
            Some(secret) => {
                if !header_value_is_valid(secret.as_str()) {
                    return Err(MsiError::InvalidSecret);
                }
                headers.push(header(SECRET_HEADER, secret.as_str()));
            },
            None => {},
        }
        let r = HttpRequest { method: Method::Get, url, headers };
        assert(r@.headers =~= token_headers(self@.secret));
        Ok(r)
    }

    /// The request for a token for `resource`.
    pub fn token_request(&self, resource: &str) -> (r: Result<HttpRequest, MsiError>)
        ensures
            result_view(r) == token_request_view(self@, resource@),
    {
        let params = self.query_params(resource);
        let url = match &self.endpoint {
            Some(endpoint) => parse_with_params(endpoint.as_str(), &params),
            None => parse_with_params(MSI_ENDPOINT, &params),
        };
        match url {
            Ok(u) => {
                let url_is_uri = uri_is_valid(u.as_str());
                self.request_for(Some(u), url_is_uri)
            },
            Err(_) => self.request_for(None, false),
        }
    }
}

/// Where the asking for a token stands: which answer it waits for.
#[derive(Clone, Copy, Debug, PartialEq, Eq, Structural)]
pub enum Stage {
    Idle,
    AwaitResponse,
    AwaitDocument,
}

/// The progress of one asking. Each caller keeps its own.
#[derive(Debug, PartialEq, Eq)]
pub struct TokenState {
    pub stage: Stage,
    /// The body that was handed out for parsing.
    pub body: String,
}

/// What a `TokenState` is, in the terms of the contracts.
pub struct TokenStateView {
    pub stage: Stage,
    pub body: Seq<char>,
}

impl View for TokenState {
    type V = TokenStateView;

    open spec fn view(&self) -> TokenStateView {
        TokenStateView { stage: self.stage, body: self.body@ }
    }
}

/// What the caller reports.
#[derive(Debug, PartialEq, Eq)]
pub enum Event {
    /// The asking begins.
    Start,
    /// The answer to the request handed out last, or `None` where none came.
    Response { response: Option<HttpResponse> },
    /// The document read from the body handed out last, or `None` where the
    /// body does not hold one.
    Document { document: Option<MsiTokenResponse> },
}

/// What an `Event` is, in the terms of the contracts.
pub enum EventView {
    Start,
    Response { response: Option<HttpResponseView> },
    Document { document: Option<MsiTokenResponseView> },
}

impl View for Event {
    type V = EventView;

    open spec fn view(&self) -> EventView {
        match self {
            Event::Start => EventView::Start,
            Event::Response { response } => EventView::Response {
                response: response.deep_view(),
            },
            Event::Document { document } => EventView::Document {
                document: document.deep_view(),
            },
        }
    }
}

/// What the caller is to do next; `T` is what the asking ends in.
#[derive(Debug, PartialEq, Eq)]
pub enum Step<T> {
    /// Send the request and report the response.
    Send { request: HttpRequest },
    /// Read the token document from the body and report it.
    Parse { body: String },
    /// The asking is over.
    Done { result: Result<T, MsiError> },
}

/// What a `Step` is, in the terms of the contracts.
pub enum StepView<V> {
    Send { request: HttpRequestView },
    Parse { body: Seq<char> },
    Done { result: Result<V, MsiErrorView> },
}

impl<T: DeepView> View for Step<T> {
    type V = StepView<T::V>;

    open spec fn view(&self) -> StepView<T::V> {
        match self {
            Step::Send { request } => StepView::Send { request: request@ },
            Step::Parse { body } => StepView::Parse { body: body@ },
            Step::Done { result } => StepView::Done { result: result_view(*result) },
        }
    }
}

/// The progress of an asking, and the step handed out.
pub struct TokenOutcome {
    pub state: TokenStateView,
    pub step: StepView<MsiTokenResponseView>,
}

/// The progress of an asking that has not begun or has ended.
pub open spec fn idle() -> TokenStateView {
    TokenStateView { stage: Stage::Idle, body: Seq::empty() }
}

/// The asking ends in `result`.
pub open spec fn ended(result: Result<MsiTokenResponseView, MsiErrorView>) -> TokenOutcome {
    TokenOutcome { state: idle(), step: StepView::Done { result } }
}

/// One step of asking for a token for `resource`: what becomes of the
/// asking's progress when `event` is reported, and what is to be done next.
pub open spec fn token_outcome(
    identity: ManagedIdentityView,
    state: TokenStateView,
    resource: Seq<char>,
    event: EventView,
) -> TokenOutcome {
    match event {
        EventView::Start => match token_request_view(identity, resource) {
            Ok(request) => TokenOutcome {
                state: TokenStateView { stage: Stage::AwaitResponse, body: Seq::empty() },
                step: StepView::Send { request },
            },
            Err(error) => ended(Err(error)),
        },
        EventView::Response { response } => if state.stage != Stage::AwaitResponse {
            ended(Err(MsiErrorView::OutOfTurn))
        } else {
            match response {
                None => ended(Err(MsiErrorView::Transport)),
                Some(r) => if !status_is_success(r.status) {
                    ended(Err(MsiErrorView::RequestFailed { body: r.body }))
                } else {
                    TokenOutcome {
                        state: TokenStateView { stage: Stage::AwaitDocument, body: r.body },
                        step: StepView::Parse { body: r.body },
                    }
                },
            }
        },
        EventView::Document { document } => if state.stage != Stage::AwaitDocument {
            ended(Err(MsiErrorView::OutOfTurn))
        } else {
            match document {
                None => ended(Err(MsiErrorView::MalformedResponse { body: state.body })),
                Some(d) => ended(Ok(d)),
            }
        },
    }
}

impl TokenState {
    /// The progress of an asking that has not begun.
    pub fn new() -> (r: TokenState)
        ensures
            r@ == idle(),
    {
        TokenState { stage: Stage::Idle, body: String::new() }
    }
}

impl ImdsManagedIdentityCredential {
    /// One step of asking for a token for `resource`: takes what the caller
    /// reports and says what to do next.
    ///
    /// The asking begins with `Event::Start` and ends with `Step::Done`. A
    /// status outside 2xx ends it at once, with the body in the error.
    pub fn get_token(&self, state: &mut TokenState, resource: &str, event: Event) -> (step: Step<
        MsiTokenResponse,
    >)
        ensures
            (TokenOutcome { state: final(state)@, step: step@ }) == token_outcome(
                self@,
                old(state)@,
                resource@,
                event@,
            ),
    {
        match event {
            Event::Start => match self.token_request(resource) {
                Ok(request) => {
                    *state = TokenState { stage: Stage::AwaitResponse, body: String::new() };
                    Step::Send { request }
                },
                Err(error) => {
                    *state = TokenState::new();
                    Step::Done { result: Err(error) }
                },
            },
            Event::Response { response } => {
                let waiting = match state.stage {
                    Stage::AwaitResponse => true,
                    _ => false,
                };
                *state = TokenState::new();
                if !waiting {
                    return Step::Done { result: Err(MsiError::OutOfTurn) };
                }
                match response {
                    None => Step::Done { result: Err(MsiError::Transport) },
                    Some(r) => {
                        if !r.is_success() {
                            Step::Done { result: Err(MsiError::RequestFailed { body: r.body }) }
                        } else {
                            *state = TokenState {
                                stage: Stage::AwaitDocument,
                                body: r.body.clone(),
                            };
                            Step::Parse { body: r.body }
                        }
                    },
                }
            },
            Event::Document { document } => {
                let waiting = match state.stage {
                    Stage::AwaitDocument => true,
                    _ => false,
                };
                let body = state.body.clone();
                *state = TokenState::new();
                if !waiting {
                    return Step::Done { result: Err(MsiError::OutOfTurn) };
                }
                match document {
                    None => Step::Done { result: Err(MsiError::MalformedResponse { body }) },
                    Some(d) => Step::Done { result: Ok(d) },
                }
            },
        }
    }
}

/// The identity is named in one way at most: naming it by its client id
/// leaves nothing of an earlier naming. The parameters of a token request
/// are then the version, the resource and the client id, none of them is
/// named `object_id` or `msi_res_id`, and the request is the one that would
/// be made had the identity never been named otherwise.
pub proof fn lemma_client_id_replaces_selector(
    identity: ManagedIdentityView,
    former: IdentitySelectorView,
    client_id: Seq<char>,
    resource: Seq<char>,
)
    ensures
        ({
            let before = ManagedIdentityView { selector: former, ..identity };
            let after = ManagedIdentityView {
                selector: IdentitySelectorView::ClientId(client_id),
                ..before
            };
            let params = token_params(resource, after.selector);
            &&& params == seq![
                ("api-version"@, MSI_API_VERSION@),
                ("resource"@, resource),
                ("client_id"@, client_id),
            ]
            &&& forall|i: int|
                0 <= i < params.len() ==> (#[trigger] params[i]).0 != "object_id"@ && params[i].0
                    != "msi_res_id"@
            &&& token_request_view(after, resource) == token_request_view(
                ManagedIdentityView {
                    selector: IdentitySelectorView::ClientId(client_id),
                    ..identity
                },
                resource,
            )
        }),
{
    reveal_strlit("api-version");
    reveal_strlit("resource");
    reveal_strlit("client_id");
    reveal_strlit("object_id");
    reveal_strlit("msi_res_id");
    let params = token_params(resource, IdentitySelectorView::ClientId(client_id));
    assert(params =~= seq![
        ("api-version"@, MSI_API_VERSION@),
        ("resource"@, resource),
        ("client_id"@, client_id),
    ]);
    assert("api-version"@.len() == 11 && "resource"@.len() == 8 && "object_id"@.len() == 9
        && "msi_res_id"@.len() == 10);
    assert("client_id"@[0] == 'c' && "object_id"@[0] == 'o');
}

/// A token request carries the secret exactly where one is set, and always
/// the header that marks it as a metadata request.
pub proof fn lemma_token_request_headers(
    identity: ManagedIdentityView,
    resource: Seq<char>,
)
    requires
        token_request_view(identity, resource) is Ok,
    ensures
        ({
            let request = token_request_view(identity, resource)->Ok_0;
            &&& request.method == Method::Get
            &&& request.headers[0] == ("metadata"@, "true"@)
            &&& identity.secret matches Some(secret) ==> request.headers.len() == 2
                && request.headers[1] == (SECRET_HEADER@, secret)
            &&& identity.secret is None ==> request.headers.len() == 1
        }),
{
}

} // verus!

//! The EC2 instance metadata service, version 2.

use vstd::prelude::*;
use vstd::string::*;
use crate::credential::{Credential, CredentialView};
use crate::text::{join, result_view, same};
use crate::time::{clock_reading, parse_rfc3339, rfc3339_instant, seconds_fit, Timestamp};
use crate::transport::{
    header, header_value_allowed, header_value_is_valid, uri_is_valid, uri_parses, HttpRequest,
    HttpRequestView, HttpResponse, HttpResponseView, Method,
};

verus! {

/// Where a session token is asked for.
pub const TOKEN_URL: &'static str = "http://169.254.169.254/latest/api/token";

/// Where the role is listed; with the role's name behind it, where its
/// credentials are.
pub const CREDENTIALS_URL: &'static str =
    "http://169.254.169.254/latest/meta-data/iam/security-credentials/";

/// The header that says for how long a session token is asked.
pub const TOKEN_TTL_HEADER: &'static str = "x-aws-ec2-metadata-token-ttl-seconds";

/// The header that carries the session token.
pub const TOKEN_HEADER: &'static str = "x-aws-ec2-metadata-token";

/// The lifetime that a session token is asked for, in seconds.
pub const TOKEN_TTL_SECONDS: i64 = 21600i64;

/// How long before its end a session token is no longer used, in seconds.
pub const TOKEN_SAFETY_MARGIN_SECONDS: i64 = 600i64;

/// The code of a document that holds credentials.
pub const CODE_SUCCESS: &'static str = "Success";

/// The code of a document that reports a missing trust relationship
/// between the role and EC2.
pub const CODE_UNAUTHORIZED: &'static str = "AssumeRoleUnauthorizedAccess";

/// The document that the credentials endpoint answers with. A member that
/// the document lacks is the empty text here.
#[derive(Debug, PartialEq, Eq)]
pub struct Ec2MetadataIamSecurityCredentials {
    pub access_key_id: String,
    pub secret_access_key: String,
    pub token: String,
    pub expiration: String,
    pub code: String,
    pub message: String,
}

/// What an `Ec2MetadataIamSecurityCredentials` is, in the terms of the contracts.
pub struct DocumentView {
    pub access_key_id: Seq<char>,
    pub secret_access_key: Seq<char>,
    pub token: Seq<char>,
    pub expiration: Seq<char>,
    pub code: Seq<char>,
    pub message: Seq<char>,
}

impl View for Ec2MetadataIamSecurityCredentials {
    type V = DocumentView;

    open spec fn view(&self) -> DocumentView {
        DocumentView {
            access_key_id: self.access_key_id@,
            secret_access_key: self.secret_access_key@,
            token: self.token@,
            expiration: self.expiration@,
            code: self.code@,
            message: self.message@,
        }
    }
}

impl DeepView for Ec2MetadataIamSecurityCredentials {
    type V = DocumentView;

    open spec fn deep_view(&self) -> DocumentView {
        self@
    }
}

/// Why a load from the metadata service failed.
#[derive(Debug, PartialEq, Eq)]
pub enum ImdsError {
    /// The session token cannot stand in a header, or the profile's name
    /// does not give a URI.
    InvalidRequest,
    /// No response came back.
    Transport,
    /// The service answered with a status other than 200.
    RequestFailed { body: String },
    /// The credentials document could not be read from the body.
    MalformedResponse { body: String },
    /// The role has no trust relationship with EC2.
    Unauthorized { code: String, message: String },
    /// The service reported any other code than success.
    Failed { code: String, message: String },
    /// The document's expiration is no RFC 3339 date and time.
    InvalidExpiration { text: String },
    /// The event does not answer the step that was handed out last.
    OutOfTurn,
}

/// What an `ImdsError` is, in the terms of the contracts.
pub enum ImdsErrorView {
    InvalidRequest,
    Transport,
    RequestFailed { body: Seq<char> },
    MalformedResponse { body: Seq<char> },
    Unauthorized { code: Seq<char>, message: Seq<char> },
    Failed { code: Seq<char>, message: Seq<char> },
    InvalidExpiration { text: Seq<char> },
    OutOfTurn,
}

impl View for ImdsError {
    type V = ImdsErrorView;

    open spec fn view(&self) -> ImdsErrorView {
        match self {
            ImdsError::InvalidRequest => ImdsErrorView::InvalidRequest,
            ImdsError::Transport => ImdsErrorView::Transport,
            ImdsError::RequestFailed { body } => ImdsErrorView::RequestFailed { body: body@ },
            ImdsError::MalformedResponse { body } => ImdsErrorView::MalformedResponse {
                body: body@,
            },
            ImdsError::Unauthorized { code, message } => ImdsErrorView::Unauthorized {
                code: code@,
                message: message@,
            },
            ImdsError::Failed { code, message } => ImdsErrorView::Failed {
                code: code@,
                message: message@,
            },
            ImdsError::InvalidExpiration { text } => ImdsErrorView::InvalidExpiration {
                text: text@,
            },
            ImdsError::OutOfTurn => ImdsErrorView::OutOfTurn,
        }
    }
}

impl DeepView for ImdsError {
    type V = ImdsErrorView;

    open spec fn deep_view(&self) -> ImdsErrorView {
        self@
    }
}

impl ImdsErrorView {
    /// The error in words.
    pub open spec fn message(self) -> Seq<char> {
        match self {
            ImdsErrorView::InvalidRequest =>
                "request to AWS EC2 Metadata Services could not be built"@,
            ImdsErrorView::Transport => "request to AWS EC2 Metadata Services got no response"@,
            ImdsErrorView::RequestFailed { body } =>
                "request to AWS EC2 Metadata Services failed: "@ + body,
            ImdsErrorView::MalformedResponse { body } =>
                "response of AWS EC2 Metadata Services could not be read: "@ + body,
            ImdsErrorView::Unauthorized { code, message } =>
                "Incorrect IMDS/IAM configuration: ["@ + code + "] "@ + message
                    + ". Hint: Does this role have a trust relationship with EC2?"@,
            ImdsErrorView::Failed { code, message } =>
                "Error retrieving credentials from IMDS: "@ + code + " "@ + message,
            ImdsErrorView::InvalidExpiration { text } =>
                "expiration is not an RFC 3339 date and time: "@ + text,
            ImdsErrorView::OutOfTurn => "event does not answer the step handed out last"@,
        }
    }
}

impl ImdsError {
    /// The error in words, for a log or for the user.
    pub fn message(&self) -> (r: String)
        ensures
            r@ == self@.message(),
    {
        match self {
            ImdsError::InvalidRequest => String::from_str(
                "request to AWS EC2 Metadata Services could not be built",
            ),
            ImdsError::Transport => String::from_str(
                "request to AWS EC2 Metadata Services got no response",
            ),
            ImdsError::RequestFailed { body } => join(
                "request to AWS EC2 Metadata Services failed: ",
                body.as_str(),
            ),
            ImdsError::MalformedResponse { body } => join(
                "response of AWS EC2 Metadata Services could not be read: ",
                body.as_str(),
            ),
            ImdsError::Unauthorized { code, message } => String::from_str(
                "Incorrect IMDS/IAM configuration: [",
            ).concat(code.as_str()).concat("] ").concat(message.as_str()).concat(
                ". Hint: Does this role have a trust relationship with EC2?",
            ),
            ImdsError::Failed { code, message } => String::from_str(
                "Error retrieving credentials from IMDS: ",
            ).concat(code.as_str()).concat(" ").concat(message.as_str()),
            ImdsError::InvalidExpiration { text } => join(
                "expiration is not an RFC 3339 date and time: ",
                text.as_str(),
            ),
            ImdsError::OutOfTurn => String::from_str(
                "event does not answer the step handed out last",
            ),
        }
    }
}

/// The credential that a document gives, once its expiration has been read:
/// `expiry` is what the expiration text denotes.
pub open spec fn document_outcome(document: DocumentView, expiry: Option<Timestamp>) -> Result<
    CredentialView,
    ImdsErrorView,
> {
    if document.code == CODE_UNAUTHORIZED@ {
        Err(ImdsErrorView::Unauthorized { code: document.code, message: document.message })
    } else if document.code != CODE_SUCCESS@ {
        Err(ImdsErrorView::Failed { code: document.code, message: document.message })
    } else {
        match expiry {
            None => Err(ImdsErrorView::InvalidExpiration { text: document.expiration }),
            Some(instant) => Ok(
                CredentialView {
                    access_key_id: document.access_key_id,
                    secret_access_key: document.secret_access_key,
                    session_token: Some(document.token),
                    expires_in: Some(instant),
                },
            ),
        }
    }
}

/// Decides what a document means, given what its expiration text denotes.
pub fn credential_from_parts(
    document: Ec2MetadataIamSecurityCredentials,
    expiry: Option<Timestamp>,
) -> (r: Result<Credential, ImdsError>)
    ensures
        result_view(r) == document_outcome(document@, expiry),
{
    if same(document.code.as_str(), CODE_UNAUTHORIZED) {
        return Err(ImdsError::Unauthorized { code: document.code, message: document.message });
    }
    if !same(document.code.as_str(), CODE_SUCCESS) {
        return Err(ImdsError::Failed { code: document.code, message: document.message });
    }
    match expiry {
        None => Err(ImdsError::InvalidExpiration { text: document.expiration }),
        Some(instant) => Ok(
            Credential {
                access_key_id: document.access_key_id,
                secret_access_key: document.secret_access_key,
                session_token: Some(document.token),
                expires_in: Some(instant),
            },
        ),
    }
}

/// Decides what a document means. The expiration is read only where the
/// code is that of success.
pub fn credential_from_document(document: Ec2MetadataIamSecurityCredentials) -> (r: Result<
    Credential,
    ImdsError,
>)
    ensures
        result_view(r) == document_outcome(document@, rfc3339_instant(document@.expiration)),
{
    let expiry = parse_rfc3339(document.expiration.as_str());
    credential_from_parts(document, expiry)
}

/// The request for a session token.
pub open spec fn token_request_view() -> HttpRequestView {
    HttpRequestView {
        method: Method::Put,
        url: TOKEN_URL@,
        headers: seq![("content-length"@, "0"@), (TOKEN_TTL_HEADER@, "21600"@)],
    }
}

/// A request to the metadata endpoints, under a session token.
pub open spec fn metadata_request_view(url: Seq<char>, token: Seq<char>) -> HttpRequestView {
    HttpRequestView { method: Method::Get, url, headers: seq![(TOKEN_HEADER@, token)] }
}

/// Whether such a request can be built: the URL is a URI, and the token may
/// stand in a header.
pub open spec fn metadata_request_allowed(url: Seq<char>, token: Seq<char>) -> bool {
    uri_parses(url) && header_value_allowed(token)
}

/// The request for a session token: a PUT without a body that asks for the
/// full lifetime.
pub fn token_request() -> (r: HttpRequest)
    ensures
        r@ == token_request_view(),
{
    let mut headers: Vec<(String, String)> = Vec::new();
    headers.push(header("content-length", "0"));
    headers.push(header(TOKEN_TTL_HEADER, "21600"));
    let r = HttpRequest { method: Method::Put, url: String::from_str(TOKEN_URL), headers };
    assert(r@.headers =~= token_request_view().headers);
    r
}

/// A GET to `url` under the session token, given whether `url` is a URI:
/// `None` where it is none, or where the token may not stand in a header.
pub fn metadata_request_for(url: String, token: &str, url_is_uri: bool) -> (r: Option<
    HttpRequest,
>)
    ensures
        r.deep_view() == if url_is_uri && header_value_allowed(token@) {
            Some(metadata_request_view(url@, token@))
        } else {
            None
        },
{
    if !url_is_uri || !header_value_is_valid(token) {
        return None;
    }
    let mut headers: Vec<(String, String)> = Vec::new();
    headers.push(header(TOKEN_HEADER, token));
    let r = HttpRequest { method: Method::Get, url, headers };
    assert(r@.headers =~= metadata_request_view(url@, token@).headers);
    Some(r)
}

/// A GET to `url` under the session token, or `None` where the two do not
/// make a request.
pub fn metadata_request(url: String, token: &str) -> (r: Option<HttpRequest>)
    ensures
        r.deep_view() == if metadata_request_allowed(url@, token@) {
            Some(metadata_request_view(url@, token@))
        } else {
            None
        },
{
    let url_is_uri = uri_is_valid(url.as_str());
    metadata_request_for(url, token, url_is_uri)
}

/// Where a load stands: which answer it waits for.
#[derive(Clone, Copy, Debug, PartialEq, Eq, Structural)]
pub enum Stage {
    Idle,
    AwaitToken,
    AwaitProfile,
    AwaitCredentials,
    AwaitDocument,
}

/// The progress of one load. Each caller keeps its own, so that loads which
/// run side by side share nothing but the loader's session token.
#[derive(Debug, PartialEq, Eq)]
pub struct LoadState {
    pub stage: Stage,
    /// The session token that this load works under.
    pub token: String,
    /// The body that was handed out for parsing.
    pub body: String,
}

/// What a `LoadState` is, in the terms of the contracts.
pub struct LoadStateView {
    pub stage: Stage,
    pub token: Seq<char>,
    pub body: Seq<char>,
}

impl View for LoadState {
    type V = LoadStateView;

    open spec fn view(&self) -> LoadStateView {
        LoadStateView { stage: self.stage, token: self.token@, body: self.body@ }
    }
}

/// What the caller reports.
#[derive(Debug, PartialEq, Eq)]
pub enum Event {
    /// A load begins.
    Start,
    /// The answer to the request handed out last, or `None` where none came.
    Response { response: Option<HttpResponse> },
    /// The document read from the body handed out last, or `None` where the
    /// body does not hold one.
    Document { document: Option<Ec2MetadataIamSecurityCredentials> },
}

/// What an `Event` is, in the terms of the contracts.
pub enum EventView {
    Start,
    Response { response: Option<HttpResponseView> },
    Document { document: Option<DocumentView> },
}

impl View for Event {
    type V = EventView;

    open spec fn view(&self) -> EventView {
        match self {
            Event::Start => EventView::Start,
            Event::Response { response } => EventView::Response {
                response: response.deep_view(),
            },
            Event::Document { document } => EventView::Document {
                document: document.deep_view(),
            },
        }
    }
}

/// What the caller is to do next.
#[derive(Debug, PartialEq, Eq)]
pub enum Step {
    /// Send the request and report the response.
    Send { request: HttpRequest },
    /// Read the credentials document from the body and report it.
    Parse { body: String },
    /// The load is over.
    Done { result: Result<Option<Credential>, ImdsError> },
}

/// What a `Step` is, in the terms of the contracts.
pub enum StepView {
    Send { request: HttpRequestView },
    Parse { body: Seq<char> },
    Done { result: Result<Option<CredentialView>, ImdsErrorView> },
}

impl View for Step {
    type V = StepView;

    open spec fn view(&self) -> StepView {
        match self {
            Step::Send { request } => StepView::Send { request: request@ },
            Step::Parse { body } => StepView::Parse { body: body@ },
            Step::Done { result } => StepView::Done { result: result_view(*result) },
        }
    }
}

/// Loads credentials from the instance metadata service. It holds the
/// session token between loads.
#[derive(Debug)]
pub struct IMDSv2Loader {
    token: String,
    expires_in: Timestamp,
}

/// The session token that a loader holds, and the instant from which it is
/// no longer used.
pub struct LoaderView {
    pub token: Seq<char>,
    pub expires_in: Timestamp,
}

impl View for IMDSv2Loader {
    type V = LoaderView;

    closed spec fn view(&self) -> LoaderView {
        LoaderView { token: self.token@, expires_in: self.expires_in }
    }
}

/// A loader, the progress of a load, and the step handed out.
pub struct Outcome {
    pub loader: LoaderView,
    pub state: LoadStateView,
    pub step: StepView,
}

/// The instant from which a token obtained at `now` is no longer used: its
/// full lifetime later, less the safety margin.
pub open spec fn token_expiry(now: Timestamp) -> Timestamp {
    now.plus_seconds(TOKEN_TTL_SECONDS - TOKEN_SAFETY_MARGIN_SECONDS)
}

/// The progress of a load that has not begun or has ended.
pub open spec fn idle() -> LoadStateView {
    LoadStateView { stage: Stage::Idle, token: Seq::empty(), body: Seq::empty() }
}

/// The load ends in `error`.
pub open spec fn failed(loader: LoaderView, error: ImdsErrorView) -> Outcome {
    Outcome { loader, state: idle(), step: StepView::Done { result: Err(error) } }
}

/// The load goes on with a GET to `url` under `token`, and then stands at
/// `next`; it ends where the two do not make a request.
pub open spec fn asked(loader: LoaderView, token: Seq<char>, url: Seq<char>, next: Stage)
    -> Outcome {
    if metadata_request_allowed(url, token) {
        Outcome {
            loader,
            state: LoadStateView { stage: next, token, body: Seq::empty() },
            step: StepView::Send { request: metadata_request_view(url, token) },
        }
    } else {
        failed(loader, ImdsErrorView::InvalidRequest)
    }
}

/// A load begins: a token that is still in use is used again, otherwise a
/// new one is asked for.
pub open spec fn started(loader: LoaderView, now: Timestamp) -> Outcome {
    if loader.expires_in.is_after(now) {
        asked(loader, loader.token, CREDENTIALS_URL@, Stage::AwaitProfile)
    } else {
        Outcome {
            loader,
            state: LoadStateView {
                stage: Stage::AwaitToken,
                token: Seq::empty(),
                body: Seq::empty(),
            },
            step: StepView::Send { request: token_request_view() },
        }
    }
}

/// The response brings a session token: it answers the request for one,
/// with the status 200.
pub open spec fn token_arrives(state: LoadStateView, response: Option<HttpResponseView>) -> bool {
    &&& state.stage == Stage::AwaitToken
    &&& response matches Some(r)
    &&& r.status == 200
}

/// A response arrives.
pub open spec fn answered(
    loader: LoaderView,
    state: LoadStateView,
    now: Timestamp,
    response: Option<HttpResponseView>,
) -> Outcome {
    if state.stage != Stage::AwaitToken && state.stage != Stage::AwaitProfile && state.stage
        != Stage::AwaitCredentials {
        failed(loader, ImdsErrorView::OutOfTurn)
    } else {
        match response {
            None => failed(loader, ImdsErrorView::Transport),
            Some(r) => if r.status != 200 {
                failed(loader, ImdsErrorView::RequestFailed { body: r.body })
            } else if state.stage == Stage::AwaitToken {
                asked(
                    LoaderView { token: r.body, expires_in: token_expiry(now) },
                    r.body,
                    CREDENTIALS_URL@,
                    Stage::AwaitProfile,
                )
            } else if state.stage == Stage::AwaitProfile {
                asked(loader, state.token, CREDENTIALS_URL@ + r.body, Stage::AwaitCredentials)
            } else {
                Outcome {
                    loader,
                    state: LoadStateView {
                        stage: Stage::AwaitDocument,
                        token: Seq::empty(),
                        body: r.body,
                    },
                    step: StepView::Parse { body: r.body },
                }
            },
        }
    }
}

/// What a load ends in, given the outcome of its document.
pub open spec fn finished(outcome: Result<CredentialView, ImdsErrorView>) -> Result<
    Option<CredentialView>,
    ImdsErrorView,
> {
    match outcome {
        Ok(credential) => Ok(Some(credential)),
        Err(error) => Err(error),
    }
}

/// The document arrives, or the news that the body holds none.
pub open spec fn parsed(loader: LoaderView, state: LoadStateView, document: Option<DocumentView>)
    -> Outcome {
    if state.stage != Stage::AwaitDocument {
        failed(loader, ImdsErrorView::OutOfTurn)
    } else {
        match document {
            None => failed(loader, ImdsErrorView::MalformedResponse { body: state.body }),
            Some(d) => Outcome {
                loader,
                state: idle(),
                step: StepView::Done {
                    result: finished(document_outcome(d, rfc3339_instant(d.expiration))),
                },
            },
        }
    }
}

/// One step of a load: what becomes of the loader and of the load's
/// progress when `event` is reported at `now`, and what is to be done next.
pub open spec fn load_outcome(
    loader: LoaderView,
    state: LoadStateView,
    now: Timestamp,
    event: EventView,
) -> Outcome {
    match event {
        EventView::Start => started(loader, now),
        EventView::Response { response } => answered(loader, state, now, response),
        EventView::Document { document } => parsed(loader, state, document),
    }
}

impl LoadState {
    /// The progress of a load that has not begun.
    pub fn new() -> (r: LoadState)
        ensures
            r@ == idle(),
    {
        LoadState { stage: Stage::Idle, token: String::new(), body: String::new() }
    }
}

impl IMDSv2Loader {
    /// A loader that holds no session token yet.
    pub fn new() -> (r: IMDSv2Loader)
        ensures
            r@ == (LoaderView {
                token: Seq::empty(),
                expires_in: Timestamp { secs: i64::MIN, nanos: 0 },
            }),
    {
        IMDSv2Loader { token: String::new(), expires_in: Timestamp { secs: i64::MIN, nanos: 0 } }
    }

    /// The session token held.
    pub fn token(&self) -> (r: &str)
        ensures
            r@ == self@.token,
    {
        self.token.as_str()
    }

    /// The instant from which the session token held is no longer used.
    pub fn token_expires_in(&self) -> (r: Timestamp)
        ensures
            r == self@.expires_in,
    {
        self.expires_in
    }

    fn fail(&self, state: &mut LoadState, error: ImdsError) -> (step: Step)
        ensures
            (Outcome { loader: self@, state: final(state)@, step: step@ }) == failed(
                self@,
                error@,
            ),
    {
        *state = LoadState::new();
        Step::Done { result: Err(error) }
    }

    fn ask(&self, state: &mut LoadState, token: String, url: String, next: Stage) -> (step: Step)
        ensures
            (Outcome { loader: self@, state: final(state)@, step: step@ }) == asked(
                self@,
                token@,
                url@,
                next,
            ),
    {
        match metadata_request(url, token.as_str()) {
            Some(request) => {
                *state = LoadState { stage: next, token, body: String::new() };
                Step::Send { request }
            },
            None => self.fail(state, ImdsError::InvalidRequest),
        }
    }

    fn start(&self, state: &mut LoadState, now: Timestamp) -> (step: Step)
        ensures
            (Outcome { loader: self@, state: final(state)@, step: step@ }) == started(self@, now),
    {
        if self.expires_in.after(&now) {
            self.ask(
                state,
                self.token.clone(),
                String::from_str(CREDENTIALS_URL),
                Stage::AwaitProfile,
            )
        } else {
            *state = LoadState {
                stage: Stage::AwaitToken,
                token: String::new(),
                body: String::new(),
            };
            Step::Send { request: token_request() }
        }
    }

    fn answer(
        &mut self,
        state: &mut LoadState,
        now: Timestamp,
        response: Option<HttpResponse>,
    ) -> (step: Step)
        requires
            token_arrives(old(state)@, response.deep_view()) ==> seconds_fit(
                now.secs + TOKEN_TTL_SECONDS,
            ),
        ensures
            (Outcome { loader: final(self)@, state: final(state)@, step: step@ }) == answered(
                old(self)@,
                old(state)@,
                now,
                response.deep_view(),
            ),
    {
        match state.stage {
            Stage::AwaitToken | Stage::AwaitProfile | Stage::AwaitCredentials => {},
            _ => {
                return self.fail(state, ImdsError::OutOfTurn);
            },
        }
        let response = match response {
            Some(r) => r,
            None => {
                return self.fail(state, ImdsError::Transport);
            },
        };
        if !response.is_ok() {
            return self.fail(state, ImdsError::RequestFailed { body: response.body });
        }
        match state.stage {
            Stage::AwaitToken => {
                self.token = response.body.clone();
                self.expires_in = now.add_seconds(TOKEN_TTL_SECONDS).add_seconds(
                    -TOKEN_SAFETY_MARGIN_SECONDS,
                );
                self.ask(
                    state,
                    response.body,
                    String::from_str(CREDENTIALS_URL),
                    Stage::AwaitProfile,
                )
            },
            Stage::AwaitProfile => {
                let url = join(CREDENTIALS_URL, response.body.as_str());
                let token = state.token.clone();
                self.ask(state, token, url, Stage::AwaitCredentials)
            },
            _ => {
                *state = LoadState {
                    stage: Stage::AwaitDocument,
                    token: String::new(),
                    body: response.body.clone(),
                };
                Step::Parse { body: response.body }
            },
        }
    }

    fn parse(
        &self,
        state: &mut LoadState,
        document: Option<Ec2MetadataIamSecurityCredentials>,
    ) -> (step: Step)
        ensures
            (Outcome { loader: self@, state: final(state)@, step: step@ }) == parsed(
                self@,
                old(state)@,
                document.deep_view(),
            ),
    {
        match state.stage {
            Stage::AwaitDocument => {},
            _ => {
                return self.fail(state, ImdsError::OutOfTurn);
            },
        }
        match document {
            None => {
                let body = state.body.clone();
                self.fail(state, ImdsError::MalformedResponse { body })
            },
            Some(d) => {
                *state = LoadState::new();
                match credential_from_document(d) {
                    Ok(credential) => Step::Done { result: Ok(Some(credential)) },
                    Err(error) => Step::Done { result: Err(error) },
                }
            },
        }
    }

    /// One step of a load, at the instant `now`: takes what the caller
    /// reports and says what to do next.
    ///
    /// A load begins with `Event::Start` and ends with `Step::Done`. The
    /// session token is asked for only where none is held that is still in
    /// use; a status other than 200 ends the load at once. Where a session
    /// token arrives, `now` has to leave room for the token's lifetime.
    pub fn load_at(&mut self, state: &mut LoadState, now: Timestamp, event: Event) -> (step: Step)
        requires
            (event@ matches EventView::Response { response } && token_arrives(
                old(state)@,
                response,
            )) ==> seconds_fit(now.secs + TOKEN_TTL_SECONDS),
        ensures
            (Outcome { loader: final(self)@, state: final(state)@, step: step@ }) == load_outcome(
                old(self)@,
                old(state)@,
                now,
                event@,
            ),
    {
        match event {
            Event::Start => self.start(state, now),
            Event::Response { response } => self.answer(state, now, response),
            Event::Document { document } => self.parse(state, document),
        }
    }

    /// One step of a load, at the instant that the clock reports.
    pub fn load(&mut self, state: &mut LoadState, event: Event) -> (step: Step)
        ensures
            exists|now: Timestamp| #[trigger]
                clock_reading(now) && (Outcome {
                    loader: final(self)@,
                    state: final(state)@,
                    step: step@,
                }) == load_outcome(old(self)@, old(state)@, now, event@),
    {
        let now = crate::time::now();
        self.load_at(state, now, event)
    }
}

/// The three kinds of code are told apart: the code of a missing trust
/// relationship gives the error of its own, the code of success gives the
/// credential (or the error of an expiration that cannot be read), and
/// every other code gives the general error with code and message.
pub proof fn lemma_codes_are_told_apart(document: DocumentView, expiry: Option<Timestamp>)
    ensures
        document.code == CODE_UNAUTHORIZED@ <==> document_outcome(document, expiry)
            == Err::<CredentialView, ImdsErrorView>(
            ImdsErrorView::Unauthorized { code: document.code, message: document.message },
        ),
        document.code == CODE_SUCCESS@ <==> (document_outcome(document, expiry) is Ok
            || document_outcome(document, expiry) matches Err(
            ImdsErrorView::InvalidExpiration { .. },
        )),
        document.code != CODE_UNAUTHORIZED@ && document.code != CODE_SUCCESS@
            <==> document_outcome(document, expiry) == Err::<CredentialView, ImdsErrorView>(
            ImdsErrorView::Failed { code: document.code, message: document.message },
        ),
{
    reveal_strlit("Success");
    reveal_strlit("AssumeRoleUnauthorizedAccess");
    assert(CODE_SUCCESS@.len() != CODE_UNAUTHORIZED@.len());
}

/// The session token that a response brought at `obtained` is used again by
/// every load that begins less than 21000 seconds later, that is before the
/// instant from which the token is no longer used: such a load does not ask
/// for a token, it goes on to the credentials under the token held.
pub proof fn lemma_token_is_reused(
    loader: LoaderView,
    state: LoadStateView,
    obtained: Timestamp,
    token: Seq<char>,
    later: Timestamp,
)
    requires
        state.stage == Stage::AwaitToken,
        seconds_fit(obtained.secs + TOKEN_TTL_SECONDS),
        token_expiry(obtained).is_after(later),
    ensures
        token_expiry(obtained) == (Timestamp { secs: (obtained.secs + 21000) as i64, ..obtained }),
        ({
            let first = load_outcome(
                loader,
                state,
                obtained,
                EventView::Response {
                    response: Some(HttpResponseView { status: 200, body: token }),
                },
            );
            let second = load_outcome(first.loader, idle(), later, EventView::Start);
            &&& first.loader == (LoaderView { token, expires_in: token_expiry(obtained) })
            &&& second == asked(first.loader, token, CREDENTIALS_URL@, Stage::AwaitProfile)
            &&& second.loader == first.loader
            &&& second.step != (StepView::Send { request: token_request_view() })
        }),
{
}

/// The session token held changes only where a response brings one, and
/// then it is held until 21000 seconds after the instant at which it came.
pub proof fn lemma_token_changes_only_on_arrival(
    loader: LoaderView,
    state: LoadStateView,
    now: Timestamp,
    event: EventView,
)
    ensures
        ({
            let after = load_outcome(loader, state, now, event);
            match event {
                EventView::Response { response: Some(r) } if token_arrives(state, Some(r)) => {
                    after.loader == (LoaderView { token: r.body, expires_in: token_expiry(now) })
                },
                _ => after.loader == loader,
            }
        }),
{
}

/// A load that begins at or after the instant from which the token held is
/// no longer used asks for a new token first.
pub proof fn lemma_expired_token_is_asked_anew(loader: LoaderView, now: Timestamp)
    requires
        !loader.expires_in.is_after(now),
    ensures
        load_outcome(loader, idle(), now, EventView::Start).step == (StepView::Send {
            request: token_request_view(),
        }),
{
}

} // verus!

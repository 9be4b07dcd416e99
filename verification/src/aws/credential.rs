//! The chain of AWS providers: the environment, the profile, and the
//! exchange of a web identity token for temporary credentials.

use vstd::prelude::*;
use vstd::string::*;
use crate::credential::{Credential, CredentialView, EmptyField};
use crate::retry::{backoff_delay, backoff_may_give};
use crate::text::{join, result_view};
use crate::time::{clock_reading, parse_rfc3339, rfc3339_instant, Timestamp};
use crate::transport::{
    header, status_is_success, HttpRequest, HttpRequestView, HttpResponse, HttpResponseView,
    Method,
};
use super::config::{
    env_loaded, profile_loaded, session_name, unset, ConfigLoader, ConfigView, Entries,
};

verus! {

/// How often a failed exchange is tried again.
pub const MAX_RETRIES: usize = 4;

/// The URL of the exchange up to the role.
pub const STS_URL_ACTION: &'static str =
    "https://sts.amazonaws.com/?Action=AssumeRoleWithWebIdentity&RoleArn=";

/// What stands between the role and the token in the URL of the exchange.
pub const STS_URL_TOKEN: &'static str = "&WebIdentityToken=";

/// What stands between the token and the session name in the URL of the
/// exchange.
pub const STS_URL_VERSION: &'static str = "&Version=2011-06-15&RoleSessionName=";

/// The content type that the exchange is sent with.
pub const FORM_URLENCODED: &'static str = "application/x-www-form-urlencoded";

/// The credentials part of the answer to `AssumeRoleWithWebIdentity`. A
/// member that the answer lacks is the empty text here.
#[derive(Debug, PartialEq, Eq)]
pub struct AssumeRoleWithWebIdentityCredentials {
    pub access_key_id: String,
    pub secret_access_key: String,
    pub session_token: String,
    pub expiration: String,
}

/// What an `AssumeRoleWithWebIdentityCredentials` is, in the terms of the contracts.
pub struct StsCredentialsView {
    pub access_key_id: Seq<char>,
    pub secret_access_key: Seq<char>,
    pub session_token: Seq<char>,
    pub expiration: Seq<char>,
}

impl View for AssumeRoleWithWebIdentityCredentials {
    type V = StsCredentialsView;

    open spec fn view(&self) -> StsCredentialsView {
        StsCredentialsView {
            access_key_id: self.access_key_id@,
            secret_access_key: self.secret_access_key@,
            session_token: self.session_token@,
            expiration: self.expiration@,
        }
    }
}

impl DeepView for AssumeRoleWithWebIdentityCredentials {
    type V = StsCredentialsView;

    open spec fn deep_view(&self) -> StsCredentialsView {
        self@
    }
}

/// Why an attempt at the exchange failed.
#[derive(Debug, PartialEq, Eq)]
pub enum Failure {
    /// The token file could not be read.
    TokenFile,
    /// No response came back.
    Transport,
    /// The service answered with a status outside 2xx.
    RequestFailed { body: String },
    /// The credentials could not be read from the body.
    MalformedResponse { body: String },
    /// The expiration is no RFC 3339 date and time.
    InvalidExpiration { text: String },
    /// The credentials hold an empty field.
    Empty { field: EmptyField },
    /// The event does not answer the step that was handed out last.
    OutOfTurn,
}

/// What a `Failure` is, in the terms of the contracts.
pub enum FailureView {
    TokenFile,
    Transport,
    RequestFailed { body: Seq<char> },
    MalformedResponse { body: Seq<char> },
    InvalidExpiration { text: Seq<char> },
    Empty { field: EmptyField },
    OutOfTurn,
}

impl View for Failure {
    type V = FailureView;

    open spec fn view(&self) -> FailureView {
        match self {
            Failure::TokenFile => FailureView::TokenFile,
            Failure::Transport => FailureView::Transport,
            Failure::RequestFailed { body } => FailureView::RequestFailed { body: body@ },
            Failure::MalformedResponse { body } => FailureView::MalformedResponse { body: body@ },
            Failure::InvalidExpiration { text } => FailureView::InvalidExpiration { text: text@ },
            Failure::Empty { field } => FailureView::Empty { field: *field },
            Failure::OutOfTurn => FailureView::OutOfTurn,
        }
    }
}

impl DeepView for Failure {
    type V = FailureView;

    open spec fn deep_view(&self) -> FailureView {
        self@
    }
}

/// The field's name in words.
pub open spec fn field_name(field: EmptyField) -> Seq<char> {
    match field {
        EmptyField::AccessKeyId => "access key id"@,
        EmptyField::SecretAccessKey => "secret access key"@,
        EmptyField::SessionToken => "session token"@,
    }
}

impl FailureView {
    /// The failure in words.
    pub open spec fn message(self) -> Seq<char> {
        match self {
            FailureView::TokenFile => "web identity token file could not be read"@,
            FailureView::Transport => "request to AWS STS Services got no response"@,
            FailureView::RequestFailed { body } => "request to AWS STS Services failed: "@ + body,
            FailureView::MalformedResponse { body } =>
                "response of AWS STS Services could not be read: "@ + body,
            FailureView::InvalidExpiration { text } =>
                "expiration is not an RFC 3339 date and time: "@ + text,
            FailureView::Empty { field } => "credential has an empty "@ + field_name(field),
            FailureView::OutOfTurn => "event does not answer the step handed out last"@,
        }
    }
}

impl Failure {
    /// The failure in words, for the warning that is logged where the
    /// exchange is given up.
    pub fn message(&self) -> (r: String)
        ensures
            r@ == self@.message(),
    {
        match self {
            Failure::TokenFile => String::from_str("web identity token file could not be read"),
            Failure::Transport => String::from_str("request to AWS STS Services got no response"),
            Failure::RequestFailed { body } => join(
                "request to AWS STS Services failed: ",
                body.as_str(),
            ),
            Failure::MalformedResponse { body } => join(
                "response of AWS STS Services could not be read: ",
                body.as_str(),
            ),
            Failure::InvalidExpiration { text } => join(
                "expiration is not an RFC 3339 date and time: ",
                text.as_str(),
            ),
            Failure::Empty { field } => {
                let name = match field {
                    EmptyField::AccessKeyId => "access key id",
                    EmptyField::SecretAccessKey => "secret access key",
                    EmptyField::SessionToken => "session token",
                };
                join("credential has an empty ", name)
            },
            Failure::OutOfTurn => String::from_str(
                "event does not answer the step handed out last",
            ),
        }
    }
}

/// The URL of the exchange. The three values are put in as they are.
pub open spec fn sts_url(role_arn: Seq<char>, token: Seq<char>, session: Seq<char>) -> Seq<char> {
    STS_URL_ACTION@ + role_arn + STS_URL_TOKEN@ + token + STS_URL_VERSION@ + session
}

/// The request of the exchange.
pub open spec fn sts_request_view(role_arn: Seq<char>, token: Seq<char>, session: Seq<char>)
    -> HttpRequestView {
    HttpRequestView {
        method: Method::Get,
        url: sts_url(role_arn, token, session),
        headers: seq![("content-type"@, FORM_URLENCODED@)],
    }
}

/// The request that exchanges the web identity `token` for credentials of
/// the role `role_arn`, under the session name `session`.
pub fn sts_request(role_arn: &str, token: &str, session: &str) -> (r: HttpRequest)
    ensures
        r@ == sts_request_view(role_arn@, token@, session@),
{
    let url = String::from_str(STS_URL_ACTION).concat(role_arn).concat(STS_URL_TOKEN).concat(
        token,
    ).concat(STS_URL_VERSION).concat(session);
    let mut headers: Vec<(String, String)> = Vec::new();
    headers.push(header("content-type", FORM_URLENCODED));
    let r = HttpRequest { method: Method::Get, url, headers };
    assert(r@.headers =~= sts_request_view(role_arn@, token@, session@).headers);
    r
}

/// The credential that the answer to the exchange gives, once its
/// expiration has been read: `expiry` is what the expiration text denotes.
/// Every field has to hold something.
pub open spec fn sts_outcome(fields: StsCredentialsView, expiry: Option<Timestamp>) -> Result<
    CredentialView,
    FailureView,
> {
    match expiry {
        None => Err(FailureView::InvalidExpiration { text: fields.expiration }),
        Some(instant) => {
            let credential = CredentialView {
                access_key_id: fields.access_key_id,
                secret_access_key: fields.secret_access_key,
                session_token: Some(fields.session_token),
                expires_in: Some(instant),
            };
            match credential.first_empty_field() {
                Some(field) => Err(FailureView::Empty { field }),
                None => Ok(credential),
            }
        },
    }
}

/// Decides what the answer to the exchange means, given what its expiration
/// text denotes.
pub fn credential_from_parts(
    fields: AssumeRoleWithWebIdentityCredentials,
    expiry: Option<Timestamp>,
) -> (r: Result<Credential, Failure>)
    ensures
        result_view(r) == sts_outcome(fields@, expiry),
{
    let instant = match expiry {
        Some(instant) => instant,
        None => {
            return Err(Failure::InvalidExpiration { text: fields.expiration });
        },
    };
    let credential = Credential {
        access_key_id: fields.access_key_id,
        secret_access_key: fields.secret_access_key,
        session_token: Some(fields.session_token),
        expires_in: Some(instant),
    };
    match credential.check() {
        Ok(()) => Ok(credential),
        Err(field) => Err(Failure::Empty { field }),
    }
}

/// Decides what the answer to the exchange means.
pub fn credential_from_answer(fields: AssumeRoleWithWebIdentityCredentials) -> (r: Result<
    Credential,
    Failure,
>)
    ensures
        result_view(r) == sts_outcome(fields@, rfc3339_instant(fields@.expiration)),
{
    let expiry = parse_rfc3339(fields.expiration.as_str());
    credential_from_parts(fields, expiry)
}

/// Where a load stands: which report it waits for.
#[derive(Clone, Copy, Debug, PartialEq, Eq, Structural)]
pub enum Stage {
    Idle,
    AwaitEnvironment,
    AwaitProfile,
    AwaitTokenFile,
    AwaitResponse,
    AwaitDocument,
    AwaitSleep,
}

/// The progress of one load. Each caller keeps its own, so that loads which
/// run side by side share nothing but the loader.
#[derive(Debug, PartialEq, Eq)]
pub struct LoadState {
    pub stage: Stage,
    /// How many attempts at the exchange have failed in this load.
    pub attempts: usize,
    /// The body that was handed out for parsing.
    pub body: String,
}

/// What a `LoadState` is, in the terms of the contracts.
pub struct LoadStateView {
    pub stage: Stage,
    pub attempts: usize,
    pub body: Seq<char>,
}

impl View for LoadState {
    type V = LoadStateView;

    open spec fn view(&self) -> LoadStateView {
        LoadStateView { stage: self.stage, attempts: self.attempts, body: self.body@ }
    }
}

/// What the caller reports.
#[derive(Debug, PartialEq, Eq)]
pub enum Event {
    /// A load begins.
    Start,
    /// The environment's variables with their values.
    Environment { vars: Vec<(String, String)> },
    /// The properties of the active profile, as the shared credentials file
    /// and the config file give them. A file that is not there gives none.
    Profile { shared: Vec<(String, String)>, config: Vec<(String, String)> },
    /// What the token file holds, or `None` where it could not be read.
    TokenFile { content: Option<String> },
    /// The answer to the request handed out last, or `None` where none came.
    Response { response: Option<HttpResponse> },
    /// The credentials read from the body handed out last, or `None` where
    /// the body does not hold them.
    Document { fields: Option<AssumeRoleWithWebIdentityCredentials> },
    /// The delay handed out last has passed.
    Slept,
}

/// What an `Event` is, in the terms of the contracts.
pub enum EventView {
    Start,
    Environment { vars: Entries },
    Profile { shared: Entries, config: Entries },
    TokenFile { content: Option<Seq<char>> },
    Response { response: Option<HttpResponseView> },
    Document { fields: Option<StsCredentialsView> },
    Slept,
}

impl View for Event {
    type V = EventView;

    open spec fn view(&self) -> EventView {
        match self {
            Event::Start => EventView::Start,
            Event::Environment { vars } => EventView::Environment { vars: vars.deep_view() },
            Event::Profile { shared, config } => EventView::Profile {
                shared: shared.deep_view(),
                config: config.deep_view(),
            },
            Event::TokenFile { content } => EventView::TokenFile { content: content.deep_view() },
            Event::Response { response } => EventView::Response {
                response: response.deep_view(),
            },
            Event::Document { fields } => EventView::Document { fields: fields.deep_view() },
            Event::Slept => EventView::Slept,
        }
    }
}

/// What the caller is to do next.
#[derive(Debug, PartialEq, Eq)]
pub enum Step {
    /// Read the environment and report it.
    ReadEnvironment,
    /// Read the active profile from the two files and report it. Each of
    /// the three is given where the environment named it; where it is
    /// `None`, the usual profile or place is meant.
    ReadProfile {
        profile: Option<String>,
        shared_credentials_file: Option<String>,
        config_file: Option<String>,
    },
    /// Read the whole token file and report what it holds.
    ReadTokenFile { path: String },
    /// Send the request and report the response.
    Send { request: HttpRequest },
    /// Read the credentials from the body and report them.
    Parse { body: String },
    /// Wait this long, then report that the delay has passed.
    Sleep { millis: u64 },
    /// The load is over. `warning` holds the last failure where the
    /// exchange was given up; the caller may log it.
    Done { credential: Option<Credential>, warning: Option<Failure> },
}

/// What a `Step` is, in the terms of the contracts.
pub enum StepView {
    ReadEnvironment,
    ReadProfile {
        profile: Option<Seq<char>>,
        shared_credentials_file: Option<Seq<char>>,
        config_file: Option<Seq<char>>,
    },
    ReadTokenFile { path: Seq<char> },
    Send { request: HttpRequestView },
    Parse { body: Seq<char> },
    Sleep { millis: u64 },
    Done { credential: Option<CredentialView>, warning: Option<FailureView> },
}

impl View for Step {
    type V = StepView;

    open spec fn view(&self) -> StepView {
        match self {
            Step::ReadEnvironment => StepView::ReadEnvironment,
            Step::ReadProfile { profile, shared_credentials_file, config_file } =>
                StepView::ReadProfile {
                    profile: profile.deep_view(),
                    shared_credentials_file: shared_credentials_file.deep_view(),
                    config_file: config_file.deep_view(),
                },
            Step::ReadTokenFile { path } => StepView::ReadTokenFile { path: path@ },
            Step::Send { request } => StepView::Send { request: request@ },
            Step::Parse { body } => StepView::Parse { body: body@ },
            Step::Sleep { millis } => StepView::Sleep { millis: *millis },
            Step::Done { credential, warning } => StepView::Done {
                credential: credential.deep_view(),
                warning: warning.deep_view(),
            },
        }
    }
}

/// Loads the AWS credential from the providers in their fixed order and
/// keeps it while it is valid.
#[derive(Debug)]
pub struct CredentialLoader {
    credential: Option<Credential>,
    disable_env: bool,
    disable_profile: bool,
    disable_assume_role_with_web_identity: bool,
    config_loader: ConfigLoader,
}

/// What a loader is, in the terms of the contracts.
pub struct LoaderView {
    pub credential: Option<CredentialView>,
    pub disable_env: bool,
    pub disable_profile: bool,
    pub disable_assume_role_with_web_identity: bool,
    pub config: ConfigView,
}

impl View for CredentialLoader {
    type V = LoaderView;

    closed spec fn view(&self) -> LoaderView {
        LoaderView {
            credential: self.credential.deep_view(),
            disable_env: self.disable_env,
            disable_profile: self.disable_profile,
            disable_assume_role_with_web_identity: self.disable_assume_role_with_web_identity,
            config: self.config_loader@,
        }
    }
}

/// A loader, the progress of a load, and the step handed out.
pub struct Outcome {
    pub loader: LoaderView,
    pub state: LoadStateView,
    pub step: StepView,
}

/// The loader that `CredentialLoader::default` gives: nothing kept, nothing
/// disabled, nothing set.
pub open spec fn fresh() -> LoaderView {
    LoaderView {
        credential: None,
        disable_env: false,
        disable_profile: false,
        disable_assume_role_with_web_identity: false,
        config: unset(),
    }
}

/// The progress of a load that has not begun or has ended.
pub open spec fn idle() -> LoadStateView {
    LoadStateView { stage: Stage::Idle, attempts: 0, body: Seq::empty() }
}

/// The progress of a load that waits at `stage` after `attempts` failed
/// attempts.
pub open spec fn waiting(stage: Stage, attempts: usize) -> LoadStateView {
    LoadStateView { stage, attempts, body: Seq::empty() }
}

/// The credential that the settings give: the key pair where both halves
/// are set, with the session token where one is set.
pub open spec fn config_credential(config: ConfigView) -> Option<CredentialView> {
    match (config.access_key_id, config.secret_access_key) {
        (Some(id), Some(key)) => Some(
            CredentialView {
                access_key_id: id,
                secret_access_key: key,
                session_token: config.session_token,
                expires_in: None,
            },
        ),
        _ => None,
    }
}

/// The load ends. A credential that was found is kept from now on.
pub open spec fn done(
    loader: LoaderView,
    credential: Option<CredentialView>,
    warning: Option<FailureView>,
) -> Outcome {
    Outcome {
        loader: match credential {
            Some(found) => LoaderView { credential: Some(found), ..loader },
            None => loader,
        },
        state: idle(),
        step: StepView::Done { credential, warning },
    }
}

/// The exchange is tried: the token file is asked for where the exchange is
/// not disabled and the token file and the role are both set; otherwise the
/// load ends without a credential.
pub open spec fn web_identity_tried(loader: LoaderView, attempts: usize) -> Outcome {
    if loader.disable_assume_role_with_web_identity {
        done(loader, None, None)
    } else {
        match (loader.config.web_identity_token_file, loader.config.role_arn) {
            (Some(path), Some(_)) => Outcome {
                loader,
                state: waiting(Stage::AwaitTokenFile, attempts),
                step: StepView::ReadTokenFile { path },
            },
            _ => done(loader, None, None),
        }
    }
}

/// The profile is tried, or passed over where it is disabled.
pub open spec fn profile_tried(loader: LoaderView) -> Outcome {
    if loader.disable_profile {
        web_identity_tried(loader, 0)
    } else {
        Outcome {
            loader,
            state: waiting(Stage::AwaitProfile, 0),
            step: StepView::ReadProfile {
                profile: loader.config.profile,
                shared_credentials_file: loader.config.shared_credentials_file,
                config_file: loader.config.config_file,
            },
        }
    }
}

/// The environment is tried, or passed over where it is disabled.
pub open spec fn env_tried(loader: LoaderView) -> Outcome {
    if loader.disable_env {
        profile_tried(loader)
    } else {
        Outcome {
            loader,
            state: waiting(Stage::AwaitEnvironment, 0),
            step: StepView::ReadEnvironment,
        }
    }
}

/// A load begins: the credential kept is handed out where it is valid at
/// `now`; otherwise the providers are tried in their order.
pub open spec fn started(loader: LoaderView, now: Timestamp) -> Outcome {
    match loader.credential {
        Some(kept) if kept.is_valid_at(now) => Outcome {
            loader,
            state: idle(),
            step: StepView::Done { credential: Some(kept), warning: None },
        },
        _ => env_tried(loader),
    }
}

/// The number of failed attempts after one more.
pub open spec fn one_more(attempts: usize) -> usize {
    if attempts < usize::MAX {
        (attempts + 1) as usize
    } else {
        attempts
    }
}

/// An attempt at the exchange failed: the load waits for `delay` where the
/// backoff gave one, and gives the exchange up where it gave none.
pub open spec fn attempt_failed(
    loader: LoaderView,
    state: LoadStateView,
    delay: Option<u64>,
    failure: FailureView,
) -> Outcome {
    match delay {
        Some(millis) => Outcome {
            loader,
            state: waiting(Stage::AwaitSleep, one_more(state.attempts)),
            step: StepView::Sleep { millis },
        },
        None => done(loader, None, Some(failure)),
    }
}

/// One step of a load: what becomes of the loader and of the load's
/// progress when `event` is reported at `now`, and what is to be done next.
/// `delay` is what the backoff answers for the failures so far.
pub open spec fn load_outcome(
    loader: LoaderView,
    state: LoadStateView,
    now: Timestamp,
    delay: Option<u64>,
    event: EventView,
) -> Outcome {
    match event {
        EventView::Start => started(loader, now),
        EventView::Environment { vars } => if state.stage != Stage::AwaitEnvironment {
            done(loader, None, Some(FailureView::OutOfTurn))
        } else {
            let read = LoaderView { config: env_loaded(loader.config, vars), ..loader };
            match config_credential(read.config) {
                Some(found) => done(read, Some(found), None),
                None => profile_tried(read),
            }
        },
        EventView::Profile { shared, config } => if state.stage != Stage::AwaitProfile {
            done(loader, None, Some(FailureView::OutOfTurn))
        } else {
            let read = LoaderView {
                config: profile_loaded(loader.config, shared, config),
                ..loader
            };
            match config_credential(read.config) {
                Some(found) => done(read, Some(found), None),
                None => web_identity_tried(read, 0),
            }
        },
        EventView::TokenFile { content } => if state.stage != Stage::AwaitTokenFile {
            done(loader, None, Some(FailureView::OutOfTurn))
        } else {
            match (content, loader.config.role_arn) {
                (None, _) => attempt_failed(loader, state, delay, FailureView::TokenFile),
                (Some(_), None) => done(loader, None, None),
                (Some(token), Some(role_arn)) => Outcome {
                    loader,
                    state: waiting(Stage::AwaitResponse, state.attempts),
                    step: StepView::Send {
                        request: sts_request_view(role_arn, token, session_name(loader.config)),
                    },
                },
            }
        },
        EventView::Response { response } => if state.stage != Stage::AwaitResponse {
            done(loader, None, Some(FailureView::OutOfTurn))
        } else {
            match response {
                None => attempt_failed(loader, state, delay, FailureView::Transport),
                Some(r) => if !status_is_success(r.status) {
                    attempt_failed(
                        loader,
                        state,
                        delay,
                        FailureView::RequestFailed { body: r.body },
                    )
                } else {
                    Outcome {
                        loader,
                        state: LoadStateView {
                            stage: Stage::AwaitDocument,
                            attempts: state.attempts,
                            body: r.body,
                        },
                        step: StepView::Parse { body: r.body },
                    }
                },
            }
        },
        EventView::Document { fields } => if state.stage != Stage::AwaitDocument {
            done(loader, None, Some(FailureView::OutOfTurn))
        } else {
            match fields {
                None => attempt_failed(
                    loader,
                    state,
                    delay,
                    FailureView::MalformedResponse { body: state.body },
                ),
                Some(f) => match sts_outcome(f, rfc3339_instant(f.expiration)) {
                    Ok(found) => done(loader, Some(found), None),
                    Err(failure) => attempt_failed(loader, state, delay, failure),
                },
            }
        },
        EventView::Slept => if state.stage != Stage::AwaitSleep {
            done(loader, None, Some(FailureView::OutOfTurn))
        } else {
            web_identity_tried(loader, state.attempts)
        },
    }
}

impl LoadState {
    /// The progress of a load that has not begun.
    pub fn new() -> (r: LoadState)
        ensures
            r@ == idle(),
    {
        LoadState { stage: Stage::Idle, attempts: 0, body: String::new() }
    }

    fn wait(stage: Stage, attempts: usize) -> (r: LoadState)
        ensures
            r@ == waiting(stage, attempts),
    {
        LoadState { stage, attempts, body: String::new() }
    }
}

impl Default for CredentialLoader {
    fn default() -> (r: CredentialLoader)
        ensures
            r@ == fresh(),
    {
        CredentialLoader {
            credential: None,
            disable_env: false,
            disable_profile: false,
                disable_assume_role_with_web_identity: false,
            config_loader: ConfigLoader::default(),
        }
    }
}

impl CredentialLoader {
    /// The same loader, which passes the environment over.
    pub fn with_disable_env(self) -> (r: CredentialLoader)
        ensures
            r@ == (LoaderView { disable_env: true, ..self@ }),
    {
        let mut r = self;
        r.disable_env = true;
        r
    }

    /// The same loader, which passes the profile over.
    pub fn with_disable_profile(self) -> (r: CredentialLoader)
        ensures
            r@ == (LoaderView { disable_profile: true, ..self@ }),
    {
        let mut r = self;
        r.disable_profile = true;
        r
    }

    /// The same loader, which passes the exchange of a web identity token
    /// over.
    pub fn with_disable_assume_role_with_web_identity(self) -> (r: CredentialLoader)
        ensures
            r@ == (LoaderView { disable_assume_role_with_web_identity: true, ..self@ }),
    {
        let mut r = self;
        r.disable_assume_role_with_web_identity = true;
        r
    }

    /// The same loader, which keeps this credential.
    pub fn with_credential(self, cred: Credential) -> (r: CredentialLoader)
        ensures
            r@ == (LoaderView { credential: Some(cred@), ..self@ }),
    {
        let mut r = self;
        r.credential = Some(cred);
        r
    }

    /// The same loader, with these settings in place of its own.
    pub fn with_config_loader(self, cfg: ConfigLoader) -> (r: CredentialLoader)
        ensures
            r@ == (LoaderView { config: cfg@, ..self@ }),
    {
        let mut r = self;
        r.config_loader = cfg;
        r
    }

    /// The credential kept.
    pub fn cached(&self) -> (r: Option<Credential>)
        ensures
            r.deep_view() == self@.credential,
    {
        self.credential.clone()
    }

    fn finish(
        &mut self,
        state: &mut LoadState,
        credential: Option<Credential>,
        warning: Option<Failure>,
    ) -> (step: Step)
        ensures
            (Outcome { loader: final(self)@, state: final(state)@, step: step@ }) == done(
                old(self)@,
                credential.deep_view(),
                warning.deep_view(),
            ),
    {
        *state = LoadState::new();
        match &credential {
            Some(found) => {
                self.credential = Some(found.clone());
            },
            None => {},
        }
        Step::Done { credential, warning }
    }

    fn load_via_config(&self) -> (r: Option<Credential>)
        ensures
            r.deep_view() == config_credential(self@.config),
    {
        match (self.config_loader.access_key_id(), self.config_loader.secret_access_key()) {
            (Some(id), Some(key)) => Some(
                Credential {
                    access_key_id: id,
                    secret_access_key: key,
                    session_token: self.config_loader.session_token(),
                    expires_in: None,
                },
            ),
            _ => None,
        }
    }

    fn load_via_assume_role_with_web_identity(&mut self, state: &mut LoadState, attempts: usize)
        -> (step: Step)
        ensures
            (Outcome { loader: final(self)@, state: final(state)@, step: step@ })
                == web_identity_tried(old(self)@, attempts),
    {
        if self.disable_assume_role_with_web_identity {
            return self.finish(state, None, None);
        }
        match (self.config_loader.web_identity_token_file(), self.config_loader.role_arn()) {
            (Some(path), Some(_)) => {
                *state = LoadState::wait(Stage::AwaitTokenFile, attempts);
                Step::ReadTokenFile { path }
            },
            _ => self.finish(state, None, None),
        }
    }

    fn load_via_profile(&mut self, state: &mut LoadState) -> (step: Step)
        ensures
            (Outcome { loader: final(self)@, state: final(state)@, step: step@ })
                == profile_tried(old(self)@),
    {
        if self.disable_profile {
            return self.load_via_assume_role_with_web_identity(state, 0);
        }
        *state = LoadState::wait(Stage::AwaitProfile, 0);
        Step::ReadProfile {
            profile: self.config_loader.profile(),
            shared_credentials_file: self.config_loader.shared_credentials_file(),
            config_file: self.config_loader.config_file(),
        }
    }

    fn load_via_env(&mut self, state: &mut LoadState) -> (step: Step)
        ensures
            (Outcome { loader: final(self)@, state: final(state)@, step: step@ }) == env_tried(
                old(self)@,
            ),
    {
        if self.disable_env {
            return self.load_via_profile(state);
        }
        *state = LoadState::wait(Stage::AwaitEnvironment, 0);
        Step::ReadEnvironment
    }

    fn retry(&mut self, state: &mut LoadState, delay: Option<u64>, failure: Failure) -> (step:
        Step)
        ensures
            (Outcome { loader: final(self)@, state: final(state)@, step: step@ })
                == attempt_failed(old(self)@, old(state)@, delay, failure@),
    {
        match delay {
            Some(millis) => {
                let attempts = if state.attempts < usize::MAX {
                    state.attempts + 1
                } else {
                    state.attempts
                };
                *state = LoadState::wait(Stage::AwaitSleep, attempts);
                Step::Sleep { millis }
            },
            None => self.finish(state, None, Some(failure)),
        }
    }

    /// One step of a load, at the instant `now` and with `delay` as the
    /// backoff's answer: takes what the caller reports and says what to do
    /// next.
    ///
    /// A load begins with `Event::Start` and ends with `Step::Done`. The
    /// credential kept is handed out without another step while it is
    /// valid. A provider that is disabled, or that lacks a setting it needs,
    /// is passed over without a step of its own.
    pub fn load_at(
        &mut self,
        state: &mut LoadState,
        now: Timestamp,
        delay: Option<u64>,
        event: Event,
    ) -> (step: Step)
        ensures
            (Outcome { loader: final(self)@, state: final(state)@, step: step@ }) == load_outcome(
                old(self)@,
                old(state)@,
                now,
                delay,
                event@,
            ),
    {
        match event {
            Event::Start => {
                match &self.credential {
                    Some(kept) => {
                        if kept.is_valid_at(now) {
                            *state = LoadState::new();
                            return Step::Done { credential: Some(kept.clone()), warning: None };
                        }
                    },
                    None => {},
                }
                self.load_via_env(state)
            },
            Event::Environment { vars } => {
                match state.stage {
                    Stage::AwaitEnvironment => {},
                    _ => {
                        return self.finish(state, None, Some(Failure::OutOfTurn));
                    },
                }
                self.config_loader.load_via_env(&vars);
                match self.load_via_config() {
                    Some(found) => self.finish(state, Some(found), None),
                    None => self.load_via_profile(state),
                }
            },
            Event::Profile { shared, config } => {
                match state.stage {
                    Stage::AwaitProfile => {},
                    _ => {
                        return self.finish(state, None, Some(Failure::OutOfTurn));
                    },
                }
                self.config_loader.load_via_profile(&shared, &config);
                match self.load_via_config() {
                    Some(found) => self.finish(state, Some(found), None),
                    None => self.load_via_assume_role_with_web_identity(state, 0),
                }
            },
            Event::TokenFile { content } => {
                match state.stage {
                    Stage::AwaitTokenFile => {},
                    _ => {
                        return self.finish(state, None, Some(Failure::OutOfTurn));
                    },
                }
                match (content, self.config_loader.role_arn()) {
                    (None, _) => self.retry(state, delay, Failure::TokenFile),
                    (Some(_), None) => self.finish(state, None, None),
                    (Some(token), Some(role_arn)) => {
                        let session = self.config_loader.role_session_name();
                        *state = LoadState::wait(Stage::AwaitResponse, state.attempts);
                        Step::Send {
                            request: sts_request(
                                role_arn.as_str(),
                                token.as_str(),
                                session.as_str(),
                            ),
                        }
                    },
                }
            },
            Event::Response { response } => {
                match state.stage {
                    Stage::AwaitResponse => {},
                    _ => {
                        return self.finish(state, None, Some(Failure::OutOfTurn));
                    },
                }
                match response {
                    None => self.retry(state, delay, Failure::Transport),
                    Some(r) => {
                        if !r.is_success() {
                            self.retry(state, delay, Failure::RequestFailed { body: r.body })
                        } else {
                            *state = LoadState {
                                stage: Stage::AwaitDocument,
                                attempts: state.attempts,
                                body: r.body.clone(),
                            };
                            Step::Parse { body: r.body }
                        }
                    },
                }
            },
            Event::Document { fields } => {
                match state.stage {
                    Stage::AwaitDocument => {},
                    _ => {
                        return self.finish(state, None, Some(Failure::OutOfTurn));
                    },
                }
                match fields {
                    None => {
                        let body = state.body.clone();
                        self.retry(state, delay, Failure::MalformedResponse { body })
                    },
                    Some(f) => match credential_from_answer(f) {
                        Ok(found) => self.finish(state, Some(found), None),
                        Err(failure) => self.retry(state, delay, failure),
                    },
                }
            },
            Event::Slept => {
                match state.stage {
                    Stage::AwaitSleep => {},
                    _ => {
                        return self.finish(state, None, Some(Failure::OutOfTurn));
                    },
                }
                let attempts = state.attempts;
                self.load_via_assume_role_with_web_identity(state, attempts)
            },
        }
    }

    /// One step of a load, at the instant that the clock reports and with
    /// the delay that the backoff gives for the failures so far.
    pub fn load(&mut self, state: &mut LoadState, event: Event) -> (step: Step)
        ensures
            exists|now: Timestamp, delay: Option<u64>| #[trigger]
                clock_reading(now) && #[trigger] backoff_may_give(
                    MAX_RETRIES,
                    old(state)@.attempts,
                    delay,
                ) && (Outcome { loader: final(self)@, state: final(state)@, step: step@ })
                    == load_outcome(old(self)@, old(state)@, now, delay, event@),
    {
        let now = crate::time::now();
        let delay = backoff_delay(MAX_RETRIES, state.attempts);
        self.load_at(state, now, delay, event)
    }
}

/// The exchange can be tried: it is not disabled, and the token file and
/// the role are both set.
pub open spec fn web_identity_configured(loader: LoaderView) -> bool {
    &&& !loader.disable_assume_role_with_web_identity
    &&& loader.config.web_identity_token_file is Some
    &&& loader.config.role_arn is Some
}

/// The response is none that the exchange accepts: none came, or its status
/// lies outside 2xx.
pub open spec fn response_fails(response: Option<HttpResponseView>) -> bool {
    match response {
        None => true,
        Some(r) => !status_is_success(r.status),
    }
}

/// The failure that a failing response stands for.
pub open spec fn response_failure(response: Option<HttpResponseView>) -> FailureView {
    match response {
        None => FailureView::Transport,
        Some(r) => FailureView::RequestFailed { body: r.body },
    }
}

/// One attempt at the exchange against a service that fails: the token
/// file is asked for and read, the request is sent, and `response` comes
/// back.
pub open spec fn failing_attempt(
    loader: LoaderView,
    attempts: usize,
    now: Timestamp,
    delay: Option<u64>,
    token: Seq<char>,
    response: Option<HttpResponseView>,
) -> Outcome {
    let asked = web_identity_tried(loader, attempts);
    let sent = load_outcome(
        asked.loader,
        asked.state,
        now,
        delay,
        EventView::TokenFile { content: Some(token) },
    );
    load_outcome(sent.loader, sent.state, now, delay, EventView::Response { response })
}

/// A load against a service that fails every time, from the attempt
/// numbered `attempts` on: how many requests it sends, and how it ends.
/// `delays` holds the backoff's answers, one for each attempt.
pub open spec fn failing_run(
    loader: LoaderView,
    attempts: usize,
    now: Timestamp,
    delays: Seq<Option<u64>>,
    token: Seq<char>,
    response: Option<HttpResponseView>,
) -> (nat, Outcome)
    decreases delays.len(),
{
    if delays.len() == 0 {
        (0, web_identity_tried(loader, attempts))
    } else {
        let failed = failing_attempt(loader, attempts, now, delays[0], token, response);
        if failed.step is Sleep {
            let slept = load_outcome(failed.loader, failed.state, now, delays[0], EventView::Slept);
            let rest = failing_run(
                slept.loader,
                slept.state.attempts,
                now,
                delays.skip(1),
                token,
                response,
            );
            ((1 + rest.0) as nat, rest.1)
        } else {
            (1, failed)
        }
    }
}

/// A load sends a request only where a role is set, and asks for the token
/// file only where the exchange can be tried: a provider that lacks what it
/// needs makes no request.
pub proof fn lemma_no_request_without_settings(
    loader: LoaderView,
    state: LoadStateView,
    now: Timestamp,
    delay: Option<u64>,
    event: EventView,
)
    ensures
        load_outcome(loader, state, now, delay, event).step is Send ==> loader.config.role_arn
            is Some,
        load_outcome(loader, state, now, delay, event).step is ReadTokenFile
            ==> web_identity_configured(load_outcome(loader, state, now, delay, event).loader),
{
}

/// A provider that is disabled is passed over before anything is read for
/// it, and a load never changes which providers are disabled.
pub proof fn lemma_disabled_providers_are_skipped(
    loader: LoaderView,
    state: LoadStateView,
    now: Timestamp,
    delay: Option<u64>,
    event: EventView,
)
    ensures
        ({
            let after = load_outcome(loader, state, now, delay, event);
            &&& after.step is ReadEnvironment ==> !loader.disable_env
            &&& after.step is ReadProfile ==> !loader.disable_profile
            &&& after.step is ReadTokenFile ==> !loader.disable_assume_role_with_web_identity
            &&& after.loader.disable_env == loader.disable_env
            &&& after.loader.disable_profile == loader.disable_profile
            &&& after.loader.disable_assume_role_with_web_identity
                == loader.disable_assume_role_with_web_identity
        }),
{
}

/// The credential kept is replaced only by a credential that a load ended
/// with; a load that ends without one, or that has not ended, leaves it in
/// its place.
pub proof fn lemma_kept_credential_is_only_superseded(
    loader: LoaderView,
    state: LoadStateView,
    now: Timestamp,
    delay: Option<u64>,
    event: EventView,
)
    ensures
        ({
            let after = load_outcome(loader, state, now, delay, event);
            &&& after.step matches StepView::Done { credential: Some(found), .. }
                ==> after.loader.credential == Some(found)
            &&& !(after.step matches StepView::Done { credential: Some(_), .. })
                ==> after.loader.credential == loader.credential
            &&& after.step is Done ==> after.state == idle()
        }),
{
}

/// Where the exchange is the only provider left and the token file or the
/// role is not set, a load that finds no valid credential kept ends at once
/// without a credential: nothing is read and nothing is sent.
pub proof fn lemma_unconfigured_exchange_gives_none(
    loader: LoaderView,
    state: LoadStateView,
    now: Timestamp,
    delay: Option<u64>,
)
    requires
        loader.credential matches Some(kept) ==> !kept.is_valid_at(now),
        loader.disable_env,
        loader.disable_profile,
        loader.config.web_identity_token_file is None || loader.config.role_arn is None,
    ensures
        load_outcome(loader, state, now, delay, EventView::Start) == done(loader, None, None),
{
}

/// Where the environment lacks the access key id or the secret key and no
/// other provider is enabled, the load ends without a credential as soon as
/// the environment is read, and nothing is kept.
pub proof fn lemma_environment_without_keys_gives_none(
    loader: LoaderView,
    state: LoadStateView,
    now: Timestamp,
    delay: Option<u64>,
    vars: Entries,
)
    requires
        state.stage == Stage::AwaitEnvironment,
        loader.disable_profile,
        loader.disable_assume_role_with_web_identity,
        env_loaded(loader.config, vars).access_key_id is None || env_loaded(
            loader.config,
            vars,
        ).secret_access_key is None,
    ensures
        load_outcome(loader, state, now, delay, EventView::Environment { vars }).step
            == (StepView::Done { credential: None, warning: None }),
        load_outcome(loader, state, now, delay, EventView::Environment { vars }).loader.credential
            == loader.credential,
{
}

/// A credential that a load ended with is handed out again by every load
/// that begins while it is valid: that load ends at once, the credential is
/// the same, and no step of reading or sending comes between.
pub proof fn lemma_second_load_is_served_from_cache(
    loader: LoaderView,
    state: LoadStateView,
    now: Timestamp,
    delay: Option<u64>,
    event: EventView,
    later_state: LoadStateView,
    later: Timestamp,
    later_delay: Option<u64>,
)
    requires
        load_outcome(loader, state, now, delay, event).step matches StepView::Done {
            credential: Some(found),
            ..
        } && found.is_valid_at(later),
    ensures
        ({
            let first = load_outcome(loader, state, now, delay, event);
            let second = load_outcome(
                first.loader,
                later_state,
                later,
                later_delay,
                EventView::Start,
            );
            &&& second.loader == first.loader
            &&& second.state == idle()
            &&& first.step matches StepView::Done { credential, .. } && second.step
                == (StepView::Done { credential, warning: None })
        }),
{
}

/// An attempt that fails is followed by a delay while the backoff gives
/// one, which it does for the first `MAX_RETRIES` failures; the failure
/// after those ends the load without a credential and with the failure as
/// its warning.
pub proof fn lemma_failed_attempt(
    loader: LoaderView,
    attempts: usize,
    now: Timestamp,
    delay: Option<u64>,
    token: Seq<char>,
    response: Option<HttpResponseView>,
)
    requires
        web_identity_configured(loader),
        response_fails(response),
        backoff_may_give(MAX_RETRIES, attempts, delay),
    ensures
        attempts < MAX_RETRIES ==> failing_attempt(loader, attempts, now, delay, token, response)
            == (Outcome {
            loader,
            state: waiting(Stage::AwaitSleep, (attempts + 1) as usize),
            step: StepView::Sleep { millis: delay->0 },
        }),
        attempts >= MAX_RETRIES ==> failing_attempt(loader, attempts, now, delay, token, response)
            == done(loader, None, Some(response_failure(response))),
{
}

/// Against a service that fails every time, a load makes exactly five
/// attempts, the first and `MAX_RETRIES` more, and then ends without a
/// credential, with the last failure as its warning, and keeps nothing new.
pub proof fn lemma_exhaustion_after_five_attempts(
    loader: LoaderView,
    now: Timestamp,
    delays: Seq<Option<u64>>,
    token: Seq<char>,
    response: Option<HttpResponseView>,
)
    requires
        web_identity_configured(loader),
        response_fails(response),
        delays.len() >= 5,
        forall|i: int| 0 <= i < 5 ==> backoff_may_give(MAX_RETRIES, i as usize, #[trigger] delays[i]),
    ensures
        failing_run(loader, 0, now, delays, token, response) == (
            5nat,
            done(loader, None, Some(response_failure(response))),
        ),
{
    let d1 = delays.skip(1);
    let d2 = d1.skip(1);
    let d3 = d2.skip(1);
    let d4 = d3.skip(1);
    assert(d1[0] == delays[1] && d2[0] == delays[2] && d3[0] == delays[3] && d4[0] == delays[4]);
    lemma_failed_attempt(loader, 0, now, delays[0], token, response);
    lemma_failed_attempt(loader, 1, now, delays[1], token, response);
    lemma_failed_attempt(loader, 2, now, delays[2], token, response);
    lemma_failed_attempt(loader, 3, now, delays[3], token, response);
    lemma_failed_attempt(loader, 4, now, delays[4], token, response);
    assert(failing_run(loader, 4, now, d4, token, response) == (
        1nat,
        done(loader, None, Some(response_failure(response))),
    ));
    assert(failing_run(loader, 3, now, d3, token, response).0 == 2);
    assert(failing_run(loader, 2, now, d2, token, response).0 == 3);
    assert(failing_run(loader, 1, now, d1, token, response).0 == 4);
}

} // verus!

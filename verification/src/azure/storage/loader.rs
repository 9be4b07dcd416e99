//! The Azure Storage loader: static settings first, then the managed
//! identity, with the credential found kept for later loads.

use vstd::prelude::*;
use vstd::string::*;
use crate::text::result_view;
use super::config::{Config, ConfigView};
use super::credential::{Credential, CredentialView};
use super::imds_credential::{
    idle, token_outcome, Event, EventView, MsiError, MsiErrorView, MsiTokenResponseView, Step,
    StepView, TokenState, TokenStateView,
};

verus! {

/// The resource that tokens for Azure Storage are asked for.
pub const STORAGE_RESOURCE: &'static str = "https://storage.azure.com/";

/// Loads the credential for Azure Storage and keeps it.
#[derive(Debug)]
pub struct Loader {
    config: Config,
    credential: Option<Credential>,
}

/// A loader's settings and the credential it keeps.
pub struct LoaderView {
    pub config: ConfigView,
    pub credential: Option<CredentialView>,
}

impl View for Loader {
    type V = LoaderView;

    closed spec fn view(&self) -> LoaderView {
        LoaderView { config: self.config@, credential: self.credential.deep_view() }
    }
}

/// The credential that the static settings give: the shared access
/// signature where a token is set, else the shared key where the account's
/// name and key are both set, else none.
pub open spec fn config_credential(config: ConfigView) -> Option<CredentialView> {
    match config.sas_token {
        Some(token) => Some(CredentialView::SharedAccessSignature(token)),
        None => match (config.account_name, config.account_key) {
            (Some(name), Some(key)) => Some(CredentialView::SharedKey(name, key)),
            _ => None,
        },
    }
}

/// What a load gives: the credential kept where there is one, else what the
/// static settings give.
pub open spec fn loaded(loader: LoaderView) -> Option<CredentialView> {
    match loader.credential {
        Some(kept) => Some(kept),
        None => config_credential(loader.config),
    }
}

/// A loader, the progress of a load through the managed identity, and the
/// step handed out.
pub struct ImdsOutcome {
    pub loader: LoaderView,
    pub state: TokenStateView,
    pub step: StepView<Option<CredentialView>>,
}

/// What the loader makes of a step of asking for a token: a token obtained
/// is kept as a bearer token and ends the load; everything else is passed
/// on.
pub open spec fn imds_step(
    loader: LoaderView,
    state: TokenStateView,
    step: StepView<MsiTokenResponseView>,
) -> ImdsOutcome {
    match step {
        StepView::Send { request } => ImdsOutcome {
            loader,
            state,
            step: StepView::Send { request },
        },
        StepView::Parse { body } => ImdsOutcome { loader, state, step: StepView::Parse { body } },
        StepView::Done { result: Err(error) } => ImdsOutcome {
            loader,
            state,
            step: StepView::Done { result: Err(error) },
        },
        StepView::Done { result: Ok(token) } => ImdsOutcome {
            loader: LoaderView {
                credential: Some(CredentialView::BearerToken(token.access_token)),
                ..loader
            },
            state,
            step: StepView::Done {
                result: Ok(Some(CredentialView::BearerToken(token.access_token))),
            },
        },
    }
}

/// One step of a load through the managed identity. A load that begins
/// while a credential is kept ends at once with that credential.
pub open spec fn imds_outcome(loader: LoaderView, state: TokenStateView, event: EventView)
    -> ImdsOutcome {
    if event is Start && loader.credential is Some {
        ImdsOutcome {
            loader,
            state: idle(),
            step: StepView::Done { result: Ok(loader.credential) },
        }
    } else {
        let asked = token_outcome(loader.config.imds, state, STORAGE_RESOURCE@, event);
        imds_step(loader, asked.state, asked.step)
    }
}

impl Loader {
    /// A loader with these settings that keeps no credential yet.
    pub fn new(config: Config) -> (r: Loader)
        ensures
            r@ == (LoaderView { config: config@, credential: None }),
    {
        Loader { config, credential: None }
    }

    /// The credential kept.
    pub fn cached(&self) -> (r: Option<Credential>)
        ensures
            r.deep_view() == self@.credential,
    {
        self.credential.clone()
    }

    fn load_via_config(&self) -> (r: Option<Credential>)
        ensures
            r.deep_view() == config_credential(self@.config),
    {
        match &self.config.sas_token {
            Some(token) => {
                return Some(Credential::SharedAccessSignature(token.clone()));
            },
            None => {},
        }
        match (&self.config.account_name, &self.config.account_key) {
            (Some(name), Some(key)) => Some(Credential::SharedKey(name.clone(), key.clone())),
            _ => None,
        }
    }

    /// Loads the credential: the one kept, else the one that the static
    /// settings give, which is then kept. No request is made, and the load
    /// does not fail.
    pub fn load(&mut self) -> (r: Result<Option<Credential>, MsiError>)
        ensures
            result_view(r) == Ok::<Option<CredentialView>, MsiErrorView>(loaded(old(self)@)),
            final(self)@ == (LoaderView { credential: loaded(old(self)@), ..old(self)@ }),
    {
        match &self.credential {
            Some(kept) => {
                return Ok(Some(kept.clone()));
            },
            None => {},
        }
        let found = self.load_via_config();
        self.credential = found.clone();
        Ok(found)
    }

    /// One step of a load through the managed identity: takes what the
    /// caller reports and says what to do next.
    ///
    /// A load begins with `Event::Start` and ends with `Step::Done`. The
    /// token obtained is kept as a bearer token; a failure is passed on and
    /// nothing is kept.
    pub fn load_with_imds(&mut self, state: &mut TokenState, event: Event) -> (step: Step<
        Option<Credential>,
    >)
        ensures
            (ImdsOutcome { loader: final(self)@, state: final(state)@, step: step@ })
                == imds_outcome(old(self)@, old(state)@, event@),
    {
        let begins = match &event {
            Event::Start => true,
            _ => false,
        };
        if begins {
            match &self.credential {
                Some(kept) => {
                    *state = TokenState::new();
                    return Step::Done { result: Ok(Some(kept.clone())) };
                },
                None => {},
            }
        }
        match self.config.imds.get_token(state, STORAGE_RESOURCE, event) {
            Step::Send { request } => Step::Send { request },
            Step::Parse { body } => Step::Parse { body },
            Step::Done { result: Err(error) } => Step::Done { result: Err(error) },
            Step::Done { result: Ok(token) } => {
                let credential = Credential::BearerToken(token.access_token);
                self.credential = Some(credential.clone());
                Step::Done { result: Ok(Some(credential)) }
            },
        }
    }
}

/// Settings without a shared access signature token, and without the
/// account's name or without its key, give no credential.
pub proof fn lemma_incomplete_settings_give_none(config: ConfigView)
    requires
        config.sas_token is None,
        config.account_name is None || config.account_key is None,
    ensures
        config_credential(config) is None,
{
}

/// A shared access signature token goes before the account's key.
pub proof fn lemma_sas_token_goes_first(config: ConfigView, token: Seq<char>)
    requires
        config.sas_token == Some(token),
    ensures
        config_credential(config) == Some(CredentialView::SharedAccessSignature(token)),
{
}

/// A load that follows one which gave a credential gives the same
/// credential and leaves the loader as it is.
pub proof fn lemma_load_again_gives_the_same(loader: LoaderView)
    requires
        loaded(loader) is Some,
    ensures
        ({
            let after = LoaderView { credential: loaded(loader), ..loader };
            &&& loaded(after) == loaded(loader)
            &&& (LoaderView { credential: loaded(after), ..after }) == after
        }),
{
}

/// Once a load through the managed identity has ended with a credential,
/// every load that begins afterwards ends at once with that credential: no
/// request is handed out.
pub proof fn lemma_imds_load_again_is_served_from_cache(
    loader: LoaderView,
    state: TokenStateView,
    event: EventView,
    later_state: TokenStateView,
)
    requires
        imds_outcome(loader, state, event).step matches StepView::Done { result: Ok(Some(_)) },
    ensures
        ({
            let first = imds_outcome(loader, state, event);
            let second = imds_outcome(first.loader, later_state, EventView::Start);
            &&& second.loader == first.loader
            &&& second.state == idle()
            &&& second.step == first.step
        }),
{
}

} // verus!

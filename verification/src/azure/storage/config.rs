//! What an Azure Storage loader is set up with.

use vstd::prelude::*;
use vstd::string::*;
use super::imds_credential::{unset_identity, ImdsManagedIdentityCredential, ManagedIdentityView};

verus! {

/// Static settings: the account's name and key, a shared access signature
/// token, and the managed identity to ask tokens for.
#[derive(Debug, PartialEq, Eq)]
pub struct Config {
    pub account_name: Option<String>,
    pub account_key: Option<String>,
    pub sas_token: Option<String>,
    pub imds: ImdsManagedIdentityCredential,
}

/// What the settings are, in the terms of the contracts.
pub struct ConfigView {
    pub account_name: Option<Seq<char>>,
    pub account_key: Option<Seq<char>>,
    pub sas_token: Option<Seq<char>>,
    pub imds: ManagedIdentityView,
}

impl View for Config {
    type V = ConfigView;

    open spec fn view(&self) -> ConfigView {
        ConfigView {
            account_name: self.account_name.deep_view(),
            account_key: self.account_key.deep_view(),
            sas_token: self.sas_token.deep_view(),
            imds: self.imds@,
        }
    }
}

impl Config {
    /// Settings with nothing set.
    pub fn new() -> (r: Config)
        ensures
            r@ == (ConfigView {
                account_name: None,
                account_key: None,
                sas_token: None,
                imds: unset_identity(),
            }),
    {
        Config {
            account_name: None,
            account_key: None,
            sas_token: None,
            imds: ImdsManagedIdentityCredential::new(),
        }
    }
}

} // verus!

//! The Azure Storage credential.

use vstd::prelude::*;
use vstd::string::*;

verus! {

/// What a request to Azure Storage is signed or authorised with.
#[derive(Debug, PartialEq, Eq)]
pub enum Credential {
    /// The account's name and its key.
    SharedKey(String, String),
    /// A shared access signature token.
    SharedAccessSignature(String),
    /// A bearer token.
    BearerToken(String),
}

/// What a `Credential` is, in the terms of the contracts.
pub enum CredentialView {
    SharedKey(Seq<char>, Seq<char>),
    SharedAccessSignature(Seq<char>),
    BearerToken(Seq<char>),
}

impl View for Credential {
    type V = CredentialView;

    open spec fn view(&self) -> CredentialView {
        match self {
            Credential::SharedKey(account, key) => CredentialView::SharedKey(account@, key@),
            Credential::SharedAccessSignature(token) => CredentialView::SharedAccessSignature(
                token@,
            ),
            Credential::BearerToken(token) => CredentialView::BearerToken(token@),
        }
    }
}

impl DeepView for Credential {
    type V = CredentialView;

    open spec fn deep_view(&self) -> CredentialView {
        self@
    }
}

impl Clone for Credential {
    fn clone(&self) -> (r: Credential)
        ensures
            r == *self,
    {
        match self {
            Credential::SharedKey(account, key) => Credential::SharedKey(
                account.clone(),
                key.clone(),
            ),
            Credential::SharedAccessSignature(token) => Credential::SharedAccessSignature(
                token.clone(),
            ),
            Credential::BearerToken(token) => Credential::BearerToken(token.clone()),
        }
    }
}

} // verus!

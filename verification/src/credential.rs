//! The AWS credential and its validity.

use vstd::prelude::*;
use vstd::string::*;
use crate::time::{clock_reading, Timestamp};

verus! {

/// Key material for AWS: the key pair, the session token of temporary
/// credentials, and the instant at which they stop being valid.
#[derive(Debug, PartialEq, Eq)]
pub struct Credential {
    pub access_key_id: String,
    pub secret_access_key: String,
    pub session_token: Option<String>,
    pub expires_in: Option<Timestamp>,
}

/// What a credential is, in the terms of the contracts.
pub struct CredentialView {
    pub access_key_id: Seq<char>,
    pub secret_access_key: Seq<char>,
    pub session_token: Option<Seq<char>>,
    pub expires_in: Option<Timestamp>,
}

impl View for Credential {
    type V = CredentialView;

    open spec fn view(&self) -> CredentialView {
        CredentialView {
            access_key_id: self.access_key_id@,
            secret_access_key: self.secret_access_key@,
            session_token: self.session_token.deep_view(),
            expires_in: self.expires_in,
        }
    }
}

impl DeepView for Credential {
    type V = CredentialView;

    open spec fn deep_view(&self) -> CredentialView {
        self@
    }
}

impl CredentialView {
    /// A credential without an expiry is always valid; one with an expiry is
    /// valid while the expiry lies strictly after `now`.
    pub open spec fn is_valid_at(self, now: Timestamp) -> bool {
        match self.expires_in {
            None => true,
            Some(expiry) => expiry.is_after(now),
        }
    }

    /// The first field that is empty, in the order in which `check` looks.
    pub open spec fn first_empty_field(self) -> Option<EmptyField> {
        if self.access_key_id.len() == 0 {
            Some(EmptyField::AccessKeyId)
        } else if self.secret_access_key.len() == 0 {
            Some(EmptyField::SecretAccessKey)
        } else if self.session_token matches Some(token) && token.len() == 0 {
            Some(EmptyField::SessionToken)
        } else {
            None
        }
    }
}

/// The field that `Credential::check` found empty.
#[derive(Clone, Copy, Debug, PartialEq, Eq, Structural)]
pub enum EmptyField {
    AccessKeyId,
    SecretAccessKey,
    SessionToken,
}

impl Clone for Credential {
    fn clone(&self) -> (r: Credential)
        ensures
            r == *self,
    {
        Credential {
            access_key_id: self.access_key_id.clone(),
            secret_access_key: self.secret_access_key.clone(),
            session_token: self.session_token.clone(),
            expires_in: self.expires_in,
        }
    }
}

impl Credential {
    /// A credential of the key pair alone: no session token, no expiry.
    pub fn new(access_key_id: &str, secret_access_key: &str) -> (r: Credential)
        ensures
            r@ == (CredentialView {
                access_key_id: access_key_id@,
                secret_access_key: secret_access_key@,
                session_token: None,
                expires_in: None,
            }),
    {
        Credential {
            access_key_id: String::from_str(access_key_id),
            secret_access_key: String::from_str(secret_access_key),
            session_token: None,
            expires_in: None,
        }
    }

    pub fn access_key(&self) -> (r: &str)
        ensures
            r@ == self@.access_key_id,
    {
        self.access_key_id.as_str()
    }

    pub fn secret_key(&self) -> (r: &str)
        ensures
            r@ == self@.secret_access_key,
    {
        self.secret_access_key.as_str()
    }

    pub fn security_token(&self) -> (r: Option<&str>)
        ensures
            r.deep_view() == self@.session_token,
    {
        match &self.session_token {
            Some(token) => Some(token.as_str()),
            None => None,
        }
    }

    pub fn expires_in(&self) -> (r: Option<Timestamp>)
        ensures
            r == self@.expires_in,
    {
        self.expires_in
    }

    /// Replaces the session token, or removes it.
    pub fn set_security_token(&mut self, token: Option<&str>)
        ensures
            final(self)@ == (CredentialView { session_token: token.deep_view(), ..old(self)@ }),
    {
        self.session_token = match token {
            Some(t) => Some(String::from_str(t)),
            None => None,
        };
    }

    /// The same credential with this session token.
    pub fn with_security_token(self, token: &str) -> (r: Credential)
        ensures
            r@ == (CredentialView { session_token: Some(token@), ..self@ }),
    {
        let mut r = self;
        r.session_token = Some(String::from_str(token));
        r
    }

    /// The same credential, valid until `expires_in`.
    pub fn with_expires_in(self, expires_in: Timestamp) -> (r: Credential)
        ensures
            r@ == (CredentialView { expires_in: Some(expires_in), ..self@ }),
    {
        let mut r = self;
        r.expires_in = Some(expires_in);
        r
    }

    /// Whether the credential is valid at `now`.
    pub fn is_valid_at(&self, now: Timestamp) -> (r: bool)
        ensures
            r == self@.is_valid_at(now),
    {
        match self.expires_in {
            None => true,
            Some(expiry) => expiry.after(&now),
        }
    }

    /// Whether the credential is valid at the instant that the clock reports.
    pub fn is_valid(&self) -> (r: bool)
        ensures
            exists|now: Timestamp| #[trigger] clock_reading(now) && r == self@.is_valid_at(now),
    {
        let now = crate::time::now();
        self.is_valid_at(now)
    }

    /// Looks for an empty field: the access key id first, then the secret
    /// key, then the session token where there is one.
    pub fn check(&self) -> (r: Result<(), EmptyField>)
        ensures
            r is Ok <==> self@.first_empty_field() is None,
            r matches Err(field) ==> self@.first_empty_field() == Some(field),
    {
        if self.access_key_id.as_str().is_empty() {
            return Err(EmptyField::AccessKeyId);
        }
        if self.secret_access_key.as_str().is_empty() {
            return Err(EmptyField::SecretAccessKey);
        }
        match &self.session_token {
            Some(token) => {
                if token.as_str().is_empty() {
                    return Err(EmptyField::SessionToken);
                }
            },
            None => {},
        }
        Ok(())
    }
}

} // verus!

//! The settings that the AWS providers read: what the environment and the
//! profile files say, merged in a fixed order.

use vstd::prelude::*;
use vstd::string::*;
use crate::text::same;
use super::constants::{
    AWS_ACCESS_KEY_ID, AWS_CONFIG_FILE, AWS_PROFILE, AWS_ROLE_ARN, AWS_ROLE_SESSION_NAME,
    AWS_SECRET_ACCESS_KEY, AWS_SESSION_TOKEN, AWS_SHARED_CREDENTIALS_FILE,
    AWS_WEB_IDENTITY_TOKEN_FILE,
};

verus! {

/// The name of the access key id in a profile.
pub const PROFILE_ACCESS_KEY_ID: &'static str = "aws_access_key_id";

/// The name of the secret key in a profile.
pub const PROFILE_SECRET_ACCESS_KEY: &'static str = "aws_secret_access_key";

/// The name of the session token in a profile.
pub const PROFILE_SESSION_TOKEN: &'static str = "aws_session_token";

/// The name of the role in a profile.
pub const PROFILE_ROLE_ARN: &'static str = "role_arn";

/// The name of the token file's path in a profile.
pub const PROFILE_WEB_IDENTITY_TOKEN_FILE: &'static str = "web_identity_token_file";

/// The name of the session name in a profile.
pub const PROFILE_ROLE_SESSION_NAME: &'static str = "role_session_name";

/// The session name that is used where none is set.
pub const DEFAULT_ROLE_SESSION_NAME: &'static str = "reqsign";

/// Names with their values, in the order in which they were read.
pub type Entries = Seq<(Seq<char>, Seq<char>)>;

/// The value of the first entry with this name.
pub open spec fn lookup(entries: Entries, name: Seq<char>) -> Option<Seq<char>>
    decreases entries.len(),
{
    if entries.len() == 0 {
        None
    } else if entries[0].0 == name {
        Some(entries[0].1)
    } else {
        lookup(entries.skip(1), name)
    }
}

/// A setting after a source was read: what was set stays, what was not is
/// taken from the source.
pub open spec fn filled(current: Option<Seq<char>>, found: Option<Seq<char>>) -> Option<
    Seq<char>,
> {
    if current is Some {
        current
    } else {
        found
    }
}

/// Looks `name` up among the entries.
pub fn find(entries: &Vec<(String, String)>, name: &str) -> (r: Option<String>)
    ensures
        r.deep_view() == lookup(entries.deep_view(), name@),
{
    let ghost all = entries.deep_view();
    let mut i: usize = 0;
    assert(all.skip(0) =~= all);
    while i < entries.len()
        invariant
            i <= entries.len(),
            all == entries.deep_view(),
            all.len() == entries.len(),
            lookup(all, name@) == lookup(all.skip(i as int), name@),
        decreases entries.len() - i,
    {
        let ghost rest = all.skip(i as int);
        assert(rest[0] == all[i as int]);
        assert(all[i as int] == entries[i as int].deep_view());
        assert(rest.skip(1) =~= all.skip(i + 1));
        if same(entries[i].0.as_str(), name) {
            return Some(entries[i].1.clone());
        }
        i = i + 1;
    }
    None
}

/// The settings read so far.
#[derive(Debug, PartialEq, Eq)]
pub struct ConfigLoader {
    access_key_id: Option<String>,
    secret_access_key: Option<String>,
    session_token: Option<String>,
    web_identity_token_file: Option<String>,
    role_arn: Option<String>,
    role_session_name: Option<String>,
    profile: Option<String>,
    config_file: Option<String>,
    shared_credentials_file: Option<String>,
}

/// What the settings are, in the terms of the contracts.
pub struct ConfigView {
    pub access_key_id: Option<Seq<char>>,
    pub secret_access_key: Option<Seq<char>>,
    pub session_token: Option<Seq<char>>,
    pub web_identity_token_file: Option<Seq<char>>,
    pub role_arn: Option<Seq<char>>,
    pub role_session_name: Option<Seq<char>>,
    /// The name of the active profile, where the environment names one.
    pub profile: Option<Seq<char>>,
    /// The path of the config file, where the environment names one.
    pub config_file: Option<Seq<char>>,
    /// The path of the shared credentials file, where the environment names
    /// one.
    pub shared_credentials_file: Option<Seq<char>>,
}

impl View for ConfigLoader {
    type V = ConfigView;

    closed spec fn view(&self) -> ConfigView {
        ConfigView {
            access_key_id: self.access_key_id.deep_view(),
            secret_access_key: self.secret_access_key.deep_view(),
            session_token: self.session_token.deep_view(),
            web_identity_token_file: self.web_identity_token_file.deep_view(),
            role_arn: self.role_arn.deep_view(),
            role_session_name: self.role_session_name.deep_view(),
            profile: self.profile.deep_view(),
            config_file: self.config_file.deep_view(),
            shared_credentials_file: self.shared_credentials_file.deep_view(),
        }
    }
}

/// Settings with nothing set.
pub open spec fn unset() -> ConfigView {
    ConfigView {
        access_key_id: None,
        secret_access_key: None,
        session_token: None,
        web_identity_token_file: None,
        role_arn: None,
        role_session_name: None,
        profile: None,
        config_file: None,
        shared_credentials_file: None,
    }
}

/// The settings after the environment was read.
pub open spec fn env_loaded(config: ConfigView, vars: Entries) -> ConfigView {
    ConfigView {
        access_key_id: filled(config.access_key_id, lookup(vars, AWS_ACCESS_KEY_ID@)),
        secret_access_key: filled(
            config.secret_access_key,
            lookup(vars, AWS_SECRET_ACCESS_KEY@),
        ),
        session_token: filled(config.session_token, lookup(vars, AWS_SESSION_TOKEN@)),
        web_identity_token_file: filled(
            config.web_identity_token_file,
            lookup(vars, AWS_WEB_IDENTITY_TOKEN_FILE@),
        ),
        role_arn: filled(config.role_arn, lookup(vars, AWS_ROLE_ARN@)),
        role_session_name: filled(
            config.role_session_name,
            lookup(vars, AWS_ROLE_SESSION_NAME@),
        ),
        profile: filled(config.profile, lookup(vars, AWS_PROFILE@)),
        config_file: filled(config.config_file, lookup(vars, AWS_CONFIG_FILE@)),
        shared_credentials_file: filled(
            config.shared_credentials_file,
            lookup(vars, AWS_SHARED_CREDENTIALS_FILE@),
        ),
    }
}

/// The settings after one profile file was read: `props` are the
/// properties of the active profile in that file. Which profile is active
/// and where the files lie is not for a file to say.
pub open spec fn file_loaded(config: ConfigView, props: Entries) -> ConfigView {
    ConfigView {
        access_key_id: filled(config.access_key_id, lookup(props, PROFILE_ACCESS_KEY_ID@)),
        secret_access_key: filled(
            config.secret_access_key,
            lookup(props, PROFILE_SECRET_ACCESS_KEY@),
        ),
        session_token: filled(config.session_token, lookup(props, PROFILE_SESSION_TOKEN@)),
        web_identity_token_file: filled(
            config.web_identity_token_file,
            lookup(props, PROFILE_WEB_IDENTITY_TOKEN_FILE@),
        ),
        role_arn: filled(config.role_arn, lookup(props, PROFILE_ROLE_ARN@)),
        role_session_name: filled(
            config.role_session_name,
            lookup(props, PROFILE_ROLE_SESSION_NAME@),
        ),
        ..config
    }
}

/// The settings after the profile was read: the shared credentials file
/// first, the config file second, so that the first one's values stand.
pub open spec fn profile_loaded(config: ConfigView, shared: Entries, file: Entries)
    -> ConfigView {
    file_loaded(file_loaded(config, shared), file)
}

/// The session name in force.
pub open spec fn session_name(config: ConfigView) -> Seq<char> {
    match config.role_session_name {
        Some(name) => name,
        None => DEFAULT_ROLE_SESSION_NAME@,
    }
}

fn fill(current: Option<String>, entries: &Vec<(String, String)>, name: &str) -> (r: Option<
    String,
>)
    ensures
        r.deep_view() == filled(current.deep_view(), lookup(entries.deep_view(), name@)),
{
    match current {
        Some(value) => Some(value),
        None => find(entries, name),
    }
}

fn copy(value: &Option<String>) -> (r: Option<String>)
    ensures
        r.deep_view() == value.deep_view(),
{
    match value {
        Some(v) => Some(v.clone()),
        None => None,
    }
}

impl Clone for ConfigLoader {
    fn clone(&self) -> (r: ConfigLoader)
        ensures
            r@ == self@,
    {
        ConfigLoader {
            access_key_id: copy(&self.access_key_id),
            secret_access_key: copy(&self.secret_access_key),
            session_token: copy(&self.session_token),
            web_identity_token_file: copy(&self.web_identity_token_file),
            role_arn: copy(&self.role_arn),
            role_session_name: copy(&self.role_session_name),
            profile: copy(&self.profile),
            config_file: copy(&self.config_file),
            shared_credentials_file: copy(&self.shared_credentials_file),
        }
    }
}

impl Default for ConfigLoader {
    fn default() -> (r: ConfigLoader)
        ensures
            r@ == unset(),
    {
        ConfigLoader {
            access_key_id: None,
            secret_access_key: None,
            session_token: None,
            web_identity_token_file: None,
            role_arn: None,
            role_session_name: None,
            profile: None,
            config_file: None,
            shared_credentials_file: None,
        }
    }
}

impl ConfigLoader {
    /// Takes in the environment: each setting that is not set yet gets the
    /// value of its variable, where `vars` has it.
    pub fn load_via_env(&mut self, vars: &Vec<(String, String)>)
        ensures
            final(self)@ == env_loaded(old(self)@, vars.deep_view()),
    {
        self.access_key_id = fill(copy(&self.access_key_id), vars, AWS_ACCESS_KEY_ID);
        self.secret_access_key = fill(copy(&self.secret_access_key), vars, AWS_SECRET_ACCESS_KEY);
        self.session_token = fill(copy(&self.session_token), vars, AWS_SESSION_TOKEN);
        self.web_identity_token_file = fill(
            copy(&self.web_identity_token_file),
            vars,
            AWS_WEB_IDENTITY_TOKEN_FILE,
        );
        self.role_arn = fill(copy(&self.role_arn), vars, AWS_ROLE_ARN);
        self.role_session_name = fill(copy(&self.role_session_name), vars, AWS_ROLE_SESSION_NAME);
        self.profile = fill(copy(&self.profile), vars, AWS_PROFILE);
        self.config_file = fill(copy(&self.config_file), vars, AWS_CONFIG_FILE);
        self.shared_credentials_file = fill(
            copy(&self.shared_credentials_file),
            vars,
            AWS_SHARED_CREDENTIALS_FILE,
        );
    }

    fn load_via_file(&mut self, props: &Vec<(String, String)>)
        ensures
            final(self)@ == file_loaded(old(self)@, props.deep_view()),
    {
        self.access_key_id = fill(copy(&self.access_key_id), props, PROFILE_ACCESS_KEY_ID);
        self.secret_access_key = fill(
            copy(&self.secret_access_key),
            props,
            PROFILE_SECRET_ACCESS_KEY,
        );
        self.session_token = fill(copy(&self.session_token), props, PROFILE_SESSION_TOKEN);
        self.web_identity_token_file = fill(
            copy(&self.web_identity_token_file),
            props,
            PROFILE_WEB_IDENTITY_TOKEN_FILE,
        );
        self.role_arn = fill(copy(&self.role_arn), props, PROFILE_ROLE_ARN);
        self.role_session_name = fill(
            copy(&self.role_session_name),
            props,
            PROFILE_ROLE_SESSION_NAME,
        );
    }

    /// Takes in the active profile, as the shared credentials file and the
    /// config file give it. A setting that both files hold gets the value
    /// of the shared credentials file.
    pub fn load_via_profile(
        &mut self,
        shared: &Vec<(String, String)>,
        file: &Vec<(String, String)>,
    )
        ensures
            final(self)@ == profile_loaded(old(self)@, shared.deep_view(), file.deep_view()),
    {
        self.load_via_file(shared);
        self.load_via_file(file);
    }

    pub fn access_key_id(&self) -> (r: Option<String>)
        ensures
            r.deep_view() == self@.access_key_id,
    {
        copy(&self.access_key_id)
    }

    pub fn secret_access_key(&self) -> (r: Option<String>)
        ensures
            r.deep_view() == self@.secret_access_key,
    {
        copy(&self.secret_access_key)
    }

    pub fn session_token(&self) -> (r: Option<String>)
        ensures
            r.deep_view() == self@.session_token,
    {
        copy(&self.session_token)
    }

    pub fn web_identity_token_file(&self) -> (r: Option<String>)
        ensures
            r.deep_view() == self@.web_identity_token_file,
    {
        copy(&self.web_identity_token_file)
    }

    pub fn role_arn(&self) -> (r: Option<String>)
        ensures
            r.deep_view() == self@.role_arn,
    {
        copy(&self.role_arn)
    }

    /// The name of the active profile, where the environment names one.
    pub fn profile(&self) -> (r: Option<String>)
        ensures
            r.deep_view() == self@.profile,
    {
        copy(&self.profile)
    }

    /// The path of the config file, where the environment names one.
    pub fn config_file(&self) -> (r: Option<String>)
        ensures
            r.deep_view() == self@.config_file,
    {
        copy(&self.config_file)
    }

    /// The path of the shared credentials file, where the environment names
    /// one.
    pub fn shared_credentials_file(&self) -> (r: Option<String>)
        ensures
            r.deep_view() == self@.shared_credentials_file,
    {
        copy(&self.shared_credentials_file)
    }

    /// The session name in force: the one that was set, or the default.
    pub fn role_session_name(&self) -> (r: String)
        ensures
            r@ == session_name(self@),
    {
        match &self.role_session_name {
            Some(name) => name.clone(),
            None => String::from_str(DEFAULT_ROLE_SESSION_NAME),
        }
    }
}

/// A setting of the active profile that the shared credentials file holds
/// has that file's value after the profile was read, whatever the config
/// file holds, unless something had set it before.
pub proof fn lemma_shared_credentials_stand(config: ConfigView, shared: Entries, file: Entries)
    ensures
        ({
            let read = profile_loaded(config, shared, file);
            &&& config.access_key_id is None && lookup(shared, PROFILE_ACCESS_KEY_ID@) is Some
                ==> read.access_key_id == lookup(shared, PROFILE_ACCESS_KEY_ID@)
            &&& config.secret_access_key is None && lookup(shared, PROFILE_SECRET_ACCESS_KEY@)
                is Some ==> read.secret_access_key == lookup(shared, PROFILE_SECRET_ACCESS_KEY@)
            &&& config.session_token is None && lookup(shared, PROFILE_SESSION_TOKEN@) is Some
                ==> read.session_token == lookup(shared, PROFILE_SESSION_TOKEN@)
            &&& config.role_arn is None && lookup(shared, PROFILE_ROLE_ARN@) is Some
                ==> read.role_arn == lookup(shared, PROFILE_ROLE_ARN@)
            &&& config.web_identity_token_file is None && lookup(
                shared,
                PROFILE_WEB_IDENTITY_TOKEN_FILE@,
            ) is Some ==> read.web_identity_token_file == lookup(
                shared,
                PROFILE_WEB_IDENTITY_TOKEN_FILE@,
            )
            &&& config.role_session_name is None && lookup(shared, PROFILE_ROLE_SESSION_NAME@)
                is Some ==> read.role_session_name == lookup(shared, PROFILE_ROLE_SESSION_NAME@)
        }),
{
}

/// What a source sets stays set: reading the environment or the profile
/// changes no setting that had a value before.
pub proof fn lemma_settings_stay(config: ConfigView, vars: Entries, shared: Entries, file: Entries)
    ensures
        config.access_key_id is Some ==> env_loaded(config, vars).access_key_id
            == config.access_key_id && profile_loaded(config, shared, file).access_key_id
            == config.access_key_id,
        config.secret_access_key is Some ==> env_loaded(config, vars).secret_access_key
            == config.secret_access_key && profile_loaded(config, shared, file).secret_access_key
            == config.secret_access_key,
{
}

} // verus!

use reqsign::aws::config::ConfigLoader;
use reqsign::aws::constants::{
    AWS_ACCESS_KEY_ID, AWS_CONFIG_FILE, AWS_PROFILE, AWS_ROLE_ARN, AWS_ROLE_SESSION_NAME,
    AWS_SECRET_ACCESS_KEY, AWS_SESSION_TOKEN, AWS_SHARED_CREDENTIALS_FILE,
    AWS_WEB_IDENTITY_TOKEN_FILE,
};
use reqsign::aws::credential::{
    credential_from_answer, credential_from_parts, sts_request, AssumeRoleWithWebIdentityCredentials,
    CredentialLoader, Event, Failure, LoadState, Stage, Step, MAX_RETRIES,
};
use reqsign::credential::{Credential, EmptyField};
use reqsign::time::Timestamp;
use reqsign::transport::{HttpResponse, Method};

fn entries(pairs: &[(&str, &str)]) -> Vec<(String, String)> {
    pairs.iter().map(|(k, v)| (k.to_string(), v.to_string())).collect()
}

fn noon() -> Timestamp {
    Timestamp::new(1_700_000_000, 0)
}

fn answer(expiration: &str) -> AssumeRoleWithWebIdentityCredentials {
    AssumeRoleWithWebIdentityCredentials {
        access_key_id: "access_key_id".to_string(),
        secret_access_key: "secret_access_key".to_string(),
        session_token: "session_token".to_string(),
        expiration: expiration.to_string(),
    }
}

/// A loader with only the exchange enabled, set up with a token file and a role.
fn web_loader() -> CredentialLoader {
    let mut cfg = ConfigLoader::default();
    cfg.load_via_env(&entries(&[
        (AWS_WEB_IDENTITY_TOKEN_FILE, "/var/run/token"),
        (AWS_ROLE_ARN, "arn:aws:iam::123:role/reqsign"),
    ]));
    CredentialLoader::default().with_disable_env().with_disable_profile().with_config_loader(cfg)
}

#[test]
fn test_credential_env_loader_without_env() {
    let mut l = CredentialLoader::default()
        .with_disable_profile()
        .with_disable_assume_role_with_web_identity();
    let mut state = LoadState::new();
    assert_eq!(l.load(&mut state, Event::Start), Step::ReadEnvironment);
    let x = l.load(&mut state, Event::Environment { vars: entries(&[]) });
    assert_eq!(x, Step::Done { credential: None, warning: None });
    assert!(l.cached().is_none());
}

#[test]
fn test_credential_env_loader_with_env() {
    let mut l = CredentialLoader::default()
        .with_disable_profile()
        .with_disable_assume_role_with_web_identity();
    let mut state = LoadState::new();
    assert_eq!(l.load(&mut state, Event::Start), Step::ReadEnvironment);
    let x = l.load(
        &mut state,
        Event::Environment {
            vars: entries(&[
                (AWS_ACCESS_KEY_ID, "access_key_id"),
                (AWS_SECRET_ACCESS_KEY, "secret_access_key"),
            ]),
        },
    );
    match x {
        Step::Done { credential: Some(x), warning: None } => {
            assert_eq!("access_key_id", x.access_key());
            assert_eq!("secret_access_key", x.secret_key());
        }
        other => panic!("must load succeed: {other:?}"),
    }
}

fn read_profile() -> Step {
    Step::ReadProfile { profile: None, shared_credentials_file: None, config_file: None }
}

/// Loads with the two files named in the environment; `shared` and `config`
/// are the properties of the default profile that the files hold.
fn load_from_profile(
    shared_file: &str,
    shared: &[(&str, &str)],
    config_file: &str,
    config: &[(&str, &str)],
) -> Credential {
    let mut l = CredentialLoader::default().with_disable_assume_role_with_web_identity();
    let mut state = LoadState::new();
    assert_eq!(l.load(&mut state, Event::Start), Step::ReadEnvironment);
    let x = l.load(
        &mut state,
        Event::Environment {
            vars: entries(&[
                (AWS_CONFIG_FILE, config_file),
                (AWS_SHARED_CREDENTIALS_FILE, shared_file),
            ]),
        },
    );
    assert_eq!(
        x,
        Step::ReadProfile {
            profile: None,
            shared_credentials_file: Some(shared_file.to_string()),
            config_file: Some(config_file.to_string()),
        }
    );
    let x = l.load(
        &mut state,
        Event::Profile { shared: entries(shared), config: entries(config) },
    );
    match x {
        Step::Done { credential: Some(x), warning: None } => x,
        other => panic!("load must success: {other:?}"),
    }
}

#[test]
fn test_credential_profile_loader_from_config() {
    let x = load_from_profile(
        "testdata/services/aws/not_exist",
        &[],
        "testdata/services/aws/default_config",
        &[
            ("aws_access_key_id", "config_access_key_id"),
            ("aws_secret_access_key", "config_secret_access_key"),
        ],
    );
    assert_eq!("config_access_key_id", x.access_key());
    assert_eq!("config_secret_access_key", x.secret_key());
}

#[test]
fn test_credential_profile_loader_from_shared() {
    let x = load_from_profile(
        "testdata/services/aws/default_credential",
        &[
            ("aws_access_key_id", "shared_access_key_id"),
            ("aws_secret_access_key", "shared_secret_access_key"),
        ],
        "testdata/services/aws/not_exist",
        &[],
    );
    assert_eq!("shared_access_key_id", x.access_key());
    assert_eq!("shared_secret_access_key", x.secret_key());
}

#[test]
fn test_credential_profile_loader_from_both() {
    let x = load_from_profile(
        "testdata/services/aws/default_credential",
        &[
            ("aws_access_key_id", "shared_access_key_id"),
            ("aws_secret_access_key", "shared_secret_access_key"),
        ],
        "testdata/services/aws/default_config",
        &[
            ("aws_access_key_id", "config_access_key_id"),
            ("aws_secret_access_key", "config_secret_access_key"),
        ],
    );
    assert_eq!("shared_access_key_id", x.access_key());
    assert_eq!("shared_secret_access_key", x.secret_key());
}

#[test]
fn test_environment_goes_before_profile() {
    let mut cfg = ConfigLoader::default();
    cfg.load_via_env(&entries(&[(AWS_ACCESS_KEY_ID, "env_id")]));
    cfg.load_via_profile(
        &entries(&[("aws_access_key_id", "shared_id"), ("aws_secret_access_key", "shared_key")]),
        &entries(&[("aws_session_token", "config_token")]),
    );
    assert_eq!(cfg.access_key_id().as_deref(), Some("env_id"));
    assert_eq!(cfg.secret_access_key().as_deref(), Some("shared_key"));
    assert_eq!(cfg.session_token().as_deref(), Some("config_token"));
}

#[test]
fn test_first_entry_of_a_name_counts() {
    let mut cfg = ConfigLoader::default();
    cfg.load_via_env(&entries(&[
        ("AWS_ACCESS_KEY_ID_", "not this"),
        (AWS_ACCESS_KEY_ID, "first"),
        (AWS_ACCESS_KEY_ID, "second"),
    ]));
    assert_eq!(cfg.access_key_id().as_deref(), Some("first"));
    assert_eq!(cfg.secret_access_key(), None);
}

#[test]
fn test_environment_names_the_profile_and_the_files() {
    let mut l = CredentialLoader::default();
    let mut state = LoadState::new();
    l.load(&mut state, Event::Start);
    let x = l.load(
        &mut state,
        Event::Environment {
            vars: entries(&[
                (AWS_PROFILE, "work"),
                (AWS_SHARED_CREDENTIALS_FILE, "/a/credentials"),
            ]),
        },
    );
    assert_eq!(
        x,
        Step::ReadProfile {
            profile: Some("work".to_string()),
            shared_credentials_file: Some("/a/credentials".to_string()),
            config_file: None,
        }
    );
    // a profile file cannot name another profile or place
    let mut cfg = ConfigLoader::default();
    cfg.load_via_profile(&entries(&[("AWS_PROFILE", "x"), ("profile", "y")]), &entries(&[]));
    assert_eq!(cfg.profile(), None);
    assert_eq!(cfg.config_file(), None);
    assert_eq!(cfg.shared_credentials_file(), None);
}

#[test]
fn test_role_session_name_default_and_set() {
    let mut cfg = ConfigLoader::default();
    assert_eq!(cfg.role_session_name(), "reqsign");
    cfg.load_via_env(&entries(&[(AWS_ROLE_SESSION_NAME, "mine")]));
    assert_eq!(cfg.role_session_name(), "mine");
}

#[test]
fn test_env_credential_carries_session_token() {
    let mut l = CredentialLoader::default();
    let mut state = LoadState::new();
    l.load(&mut state, Event::Start);
    let x = l.load(
        &mut state,
        Event::Environment {
            vars: entries(&[
                (AWS_ACCESS_KEY_ID, "id"),
                (AWS_SECRET_ACCESS_KEY, "key"),
                (AWS_SESSION_TOKEN, "token"),
            ]),
        },
    );
    let expected = Credential::new("id", "key").with_security_token("token");
    assert_eq!(x, Step::Done { credential: Some(expected), warning: None });
    assert_eq!(state.stage, Stage::Idle);
}

#[test]
fn test_env_with_one_key_only_goes_on_to_profile() {
    let mut l = CredentialLoader::default();
    let mut state = LoadState::new();
    l.load(&mut state, Event::Start);
    let x = l.load(&mut state, Event::Environment { vars: entries(&[(AWS_ACCESS_KEY_ID, "id")]) });
    assert_eq!(x, read_profile());
    // the profile supplies the other half
    let x = l.load(
        &mut state,
        Event::Profile { shared: entries(&[("aws_secret_access_key", "key")]), config: entries(&[]) },
    );
    assert_eq!(x, Step::Done { credential: Some(Credential::new("id", "key")), warning: None });
}

#[test]
fn test_disabled_providers_are_passed_over() {
    let mut l = CredentialLoader::default().with_disable_env();
    let mut state = LoadState::new();
    assert_eq!(l.load(&mut state, Event::Start), read_profile());

    let mut l = CredentialLoader::default().with_disable_env().with_disable_profile();
    let mut state = LoadState::new();
    assert_eq!(l.load(&mut state, Event::Start), Step::Done { credential: None, warning: None });

    let mut l = web_loader();
    let mut state = LoadState::new();
    assert_eq!(
        l.load(&mut state, Event::Start),
        Step::ReadTokenFile { path: "/var/run/token".to_string() }
    );

    let mut l = web_loader().with_disable_assume_role_with_web_identity();
    let mut state = LoadState::new();
    assert_eq!(l.load(&mut state, Event::Start), Step::Done { credential: None, warning: None });
}

#[test]
fn test_missing_role_or_token_file_gives_none_without_request() {
    for vars in [
        entries(&[(AWS_ROLE_ARN, "arn")]),
        entries(&[(AWS_WEB_IDENTITY_TOKEN_FILE, "/token")]),
        entries(&[]),
    ] {
        let mut l = CredentialLoader::default().with_disable_profile();
        let mut state = LoadState::new();
        assert_eq!(l.load(&mut state, Event::Start), Step::ReadEnvironment);
        let x = l.load(&mut state, Event::Environment { vars });
        assert_eq!(x, Step::Done { credential: None, warning: None });
        assert_eq!(state, LoadState::new());
    }
}

#[test]
fn test_second_load_is_served_from_cache() {
    let mut l = CredentialLoader::default();
    let mut state = LoadState::new();
    l.load(&mut state, Event::Start);
    let first = l.load(
        &mut state,
        Event::Environment {
            vars: entries(&[(AWS_ACCESS_KEY_ID, "id"), (AWS_SECRET_ACCESS_KEY, "key")]),
        },
    );
    let mut again = LoadState::new();
    let second = l.load(&mut again, Event::Start);
    assert_eq!(first, second);
    assert_eq!(second, Step::Done { credential: Some(Credential::new("id", "key")), warning: None });
}

#[test]
fn test_cached_credential_is_used_until_it_expires() {
    let expiry = Timestamp::new(1_700_000_100, 500);
    let kept = Credential::new("id", "key").with_expires_in(expiry);
    let mut l = CredentialLoader::default().with_credential(kept.clone());
    let mut state = LoadState::new();

    let before = Timestamp::new(1_700_000_100, 499);
    assert_eq!(
        l.load_at(&mut state, before, None, Event::Start),
        Step::Done { credential: Some(kept.clone()), warning: None }
    );
    // at the expiry itself the credential is no longer valid
    assert_eq!(l.load_at(&mut state, expiry, None, Event::Start), Step::ReadEnvironment);
    let after = Timestamp::new(1_700_000_101, 0);
    assert_eq!(l.load_at(&mut state, after, None, Event::Start), Step::ReadEnvironment);
    // a load that finds nothing leaves the expired credential in its place
    let x = l.load_at(&mut state, after, None, Event::Environment { vars: entries(&[]) });
    assert_eq!(x, read_profile());
    assert_eq!(l.cached(), Some(kept));
}

#[test]
fn test_new_credential_replaces_the_expired_one() {
    let kept = Credential::new("old", "old").with_expires_in(Timestamp::new(10, 0));
    let mut l = CredentialLoader::default().with_credential(kept);
    let mut state = LoadState::new();
    assert_eq!(l.load_at(&mut state, noon(), None, Event::Start), Step::ReadEnvironment);
    l.load_at(
        &mut state,
        noon(),
        None,
        Event::Environment {
            vars: entries(&[(AWS_ACCESS_KEY_ID, "new"), (AWS_SECRET_ACCESS_KEY, "new")]),
        },
    );
    assert_eq!(l.cached(), Some(Credential::new("new", "new")));
}

#[test]
fn test_sts_request_is_written_out() {
    let r = sts_request("arn:aws:iam::123:role/reqsign", "the token", "session");
    assert_eq!(r.method, Method::Get);
    assert_eq!(
        r.url,
        "https://sts.amazonaws.com/?Action=AssumeRoleWithWebIdentity&RoleArn=arn:aws:iam::123:role/reqsign&WebIdentityToken=the token&Version=2011-06-15&RoleSessionName=session"
    );
    assert_eq!(
        r.headers,
        vec![("content-type".to_string(), "application/x-www-form-urlencoded".to_string())]
    );
}

#[test]
fn test_web_identity_exchange_succeeds() {
    let mut l = web_loader();
    let mut state = LoadState::new();
    assert_eq!(
        l.load(&mut state, Event::Start),
        Step::ReadTokenFile { path: "/var/run/token".to_string() }
    );
    let x = l.load(&mut state, Event::TokenFile { content: Some("jwt".to_string()) });
    assert_eq!(
        x,
        Step::Send { request: sts_request("arn:aws:iam::123:role/reqsign", "jwt", "reqsign") }
    );
    let x = l.load(
        &mut state,
        Event::Response { response: Some(HttpResponse::new(200, "<xml/>".to_string())) },
    );
    assert_eq!(x, Step::Parse { body: "<xml/>".to_string() });
    let x = l.load(&mut state, Event::Document { fields: Some(answer("2099-01-01T00:00:00Z")) });
    let expected = Credential::new("access_key_id", "secret_access_key")
        .with_security_token("session_token")
        .with_expires_in(Timestamp::new(4070908800, 0));
    assert_eq!(x, Step::Done { credential: Some(expected.clone()), warning: None });
    assert_eq!(l.cached(), Some(expected.clone()));
    // and the next load needs no step
    let mut again = LoadState::new();
    assert_eq!(
        l.load(&mut again, Event::Start),
        Step::Done { credential: Some(expected), warning: None }
    );
}

#[test]
fn test_web_identity_answer_gives_credential() {
    let cred = credential_from_answer(answer("2022-05-25T11:45:17Z")).expect("must succeed");
    assert_eq!(cred.access_key_id, "access_key_id");
    assert_eq!(cred.secret_access_key, "secret_access_key");
    assert_eq!(cred.session_token.as_deref(), Some("session_token"));
    assert_eq!(cred.expires_in, Some(Timestamp::new(1653479117, 0)));
}

#[test]
fn test_web_identity_answer_is_checked() {
    assert_eq!(
        credential_from_answer(answer("yesterday")),
        Err(Failure::InvalidExpiration { text: "yesterday".to_string() })
    );
    assert_eq!(
        credential_from_answer(answer("")),
        Err(Failure::InvalidExpiration { text: String::new() })
    );
    let mut a = answer("2022-05-25T11:45:17Z");
    a.access_key_id = String::new();
    assert_eq!(credential_from_answer(a), Err(Failure::Empty { field: EmptyField::AccessKeyId }));
    let mut a = answer("2022-05-25T11:45:17Z");
    a.secret_access_key = String::new();
    assert_eq!(
        credential_from_answer(a),
        Err(Failure::Empty { field: EmptyField::SecretAccessKey })
    );
    let mut a = answer("2022-05-25T11:45:17Z");
    a.session_token = String::new();
    assert_eq!(credential_from_answer(a), Err(Failure::Empty { field: EmptyField::SessionToken }));
    // the expiration is looked at before the fields
    let mut a = answer("nonsense");
    a.access_key_id = String::new();
    assert_eq!(
        credential_from_parts(a, None),
        Err(Failure::InvalidExpiration { text: "nonsense".to_string() })
    );
}

/// Runs a load against a service that answers every request with `status`.
/// Returns the number of requests, the delays, and the last step.
fn run_against(status: u16) -> (usize, Vec<u64>, Step) {
    let mut l = web_loader();
    let mut state = LoadState::new();
    let mut step = l.load(&mut state, Event::Start);
    let mut requests = 0;
    let mut delays = Vec::new();
    for _ in 0..100 {
        step = match step {
            Step::ReadTokenFile { .. } => {
                l.load(&mut state, Event::TokenFile { content: Some("jwt".to_string()) })
            }
            Step::Send { .. } => {
                requests += 1;
                l.load(
                    &mut state,
                    Event::Response { response: Some(HttpResponse::new(status, "no".to_string())) },
                )
            }
            Step::Sleep { millis } => {
                delays.push(millis);
                l.load(&mut state, Event::Slept)
            }
            other => return (requests, delays, other),
        };
    }
    panic!("the load does not end");
}

#[test]
fn test_exhaustion_after_five_attempts() {
    let (requests, delays, last) = run_against(500);
    assert_eq!(requests, 5);
    assert_eq!(requests, MAX_RETRIES + 1);
    assert_eq!(delays.len(), 4);
    for (i, millis) in delays.iter().enumerate() {
        let base = 1000u64 << i;
        assert!(base <= *millis && *millis <= 2 * base, "delay {i} is {millis}");
    }
    assert_eq!(
        last,
        Step::Done {
            credential: None,
            warning: Some(Failure::RequestFailed { body: "no".to_string() })
        }
    );
}

#[test]
fn test_statuses_outside_2xx_fail_and_others_do_not() {
    for status in [199u16, 300, 301, 403, 500] {
        let (requests, _, _) = run_against(status);
        assert_eq!(requests, 5, "status {status}");
    }
    for status in [200u16, 201, 204, 299] {
        let (requests, delays, last) = run_against(status);
        assert_eq!(requests, 1, "status {status}");
        assert!(delays.is_empty());
        assert_eq!(last, Step::Parse { body: "no".to_string() });
    }
}

#[test]
fn test_backoff_answer_decides_between_delay_and_giving_up() {
    let mut l = web_loader();
    let mut state = LoadState { stage: Stage::AwaitResponse, attempts: 2, body: String::new() };
    let x = l.load_at(&mut state, noon(), Some(4321), Event::Response { response: None });
    assert_eq!(x, Step::Sleep { millis: 4321 });
    assert_eq!(state, LoadState { stage: Stage::AwaitSleep, attempts: 3, body: String::new() });
    let x = l.load_at(&mut state, noon(), None, Event::Slept);
    assert_eq!(x, Step::ReadTokenFile { path: "/var/run/token".to_string() });
    assert_eq!(state.attempts, 3);
    let x = l.load_at(&mut state, noon(), None, Event::TokenFile { content: None });
    assert_eq!(x, Step::Done { credential: None, warning: Some(Failure::TokenFile) });
    assert_eq!(state, LoadState::new());
}

#[test]
fn test_every_kind_of_failed_attempt_is_retried() {
    let failures: Vec<(Stage, Event, Failure)> = vec![
        (Stage::AwaitTokenFile, Event::TokenFile { content: None }, Failure::TokenFile),
        (Stage::AwaitResponse, Event::Response { response: None }, Failure::Transport),
        (
            Stage::AwaitResponse,
            Event::Response { response: Some(HttpResponse::new(404, "gone".to_string())) },
            Failure::RequestFailed { body: "gone".to_string() },
        ),
        (
            Stage::AwaitDocument,
            Event::Document { fields: None },
            Failure::MalformedResponse { body: "kept body".to_string() },
        ),
        (
            Stage::AwaitDocument,
            Event::Document { fields: Some(answer("never")) },
            Failure::InvalidExpiration { text: "never".to_string() },
        ),
    ];
    for (stage, event, failure) in failures {
        let body = if stage == Stage::AwaitDocument { "kept body" } else { "" };
        let mut l = web_loader();
        let mut state = LoadState { stage, attempts: 0, body: body.to_string() };
        let x = l.load_at(&mut state, noon(), None, event);
        assert_eq!(x, Step::Done { credential: None, warning: Some(failure) });
        assert!(l.cached().is_none());
    }
}

#[test]
fn test_event_out_of_turn_ends_the_load() {
    let events = || {
        vec![
            Event::Environment { vars: entries(&[(AWS_ACCESS_KEY_ID, "a"), (AWS_SECRET_ACCESS_KEY, "b")]) },
            Event::Profile { shared: entries(&[]), config: entries(&[]) },
            Event::TokenFile { content: Some("jwt".to_string()) },
            Event::Response { response: Some(HttpResponse::new(200, String::new())) },
            Event::Document { fields: Some(answer("2099-01-01T00:00:00Z")) },
            Event::Slept,
        ]
    };
    for event in events() {
        let mut l = web_loader();
        let mut state = LoadState::new();
        let x = l.load(&mut state, event);
        assert_eq!(x, Step::Done { credential: None, warning: Some(Failure::OutOfTurn) });
        assert!(l.cached().is_none());
    }
}

#[test]
fn test_failure_messages() {
    assert_eq!(
        Failure::RequestFailed { body: "denied".to_string() }.message(),
        "request to AWS STS Services failed: denied"
    );
    assert_eq!(
        Failure::Empty { field: EmptyField::SessionToken }.message(),
        "credential has an empty session token"
    );
    assert_eq!(Failure::TokenFile.message(), "web identity token file could not be read");
}

use reqsign::aws::imds::{
    credential_from_document, credential_from_parts, metadata_request, metadata_request_for,
    token_request,
    Ec2MetadataIamSecurityCredentials, Event, IMDSv2Loader, ImdsError, LoadState, Stage, Step,
};
use reqsign::credential::Credential;
use reqsign::time::Timestamp;
use reqsign::transport::{HttpRequest, HttpResponse, Method};

const CREDENTIALS_URL: &str = "http://169.254.169.254/latest/meta-data/iam/security-credentials/";

fn get(url: &str, token: &str) -> HttpRequest {
    HttpRequest {
        method: Method::Get,
        url: url.to_string(),
        headers: vec![("x-aws-ec2-metadata-token".to_string(), token.to_string())],
    }
}

fn ok(body: &str) -> Event {
    Event::Response { response: Some(HttpResponse::new(200, body.to_string())) }
}

fn document(code: &str) -> Ec2MetadataIamSecurityCredentials {
    Ec2MetadataIamSecurityCredentials {
        access_key_id: "access_key_id".to_string(),
        secret_access_key: "secret_access_key".to_string(),
        token: "session_token".to_string(),
        expiration: "2022-05-25T11:45:17Z".to_string(),
        code: code.to_string(),
        message: "the message".to_string(),
    }
}

#[test]
fn test_token_request_is_a_put_for_the_full_lifetime() {
    let r = token_request();
    assert_eq!(r.method, Method::Put);
    assert_eq!(r.url, "http://169.254.169.254/latest/api/token");
    assert_eq!(
        r.headers,
        vec![
            ("content-length".to_string(), "0".to_string()),
            ("x-aws-ec2-metadata-token-ttl-seconds".to_string(), "21600".to_string()),
        ]
    );
}

#[test]
fn test_requests_and_responses_are_copied_whole() {
    let r = token_request();
    assert_eq!(r.clone(), r);
    let r = get(CREDENTIALS_URL, "t");
    assert_eq!(r.clone(), r);
    let a = HttpResponse::new(204, "body".to_string());
    assert_eq!(a.clone(), a);
    assert!(a.is_success());
    assert!(!a.is_ok());
    assert!(HttpResponse::new(200, String::new()).is_ok());
}

#[test]
fn test_load_runs_through_token_profile_and_credentials() {
    let mut l = IMDSv2Loader::new();
    let mut state = LoadState::new();
    let now = Timestamp::new(1_700_000_000, 7);

    assert_eq!(l.load_at(&mut state, now, Event::Start), Step::Send { request: token_request() });
    assert_eq!(state.stage, Stage::AwaitToken);

    let x = l.load_at(&mut state, now, ok("the-token"));
    assert_eq!(x, Step::Send { request: get(CREDENTIALS_URL, "the-token") });
    assert_eq!(l.token(), "the-token");
    assert_eq!(l.token_expires_in(), Timestamp::new(1_700_021_000, 7));

    let x = l.load_at(&mut state, now, ok("my-role"));
    let url = format!("{CREDENTIALS_URL}my-role");
    assert_eq!(x, Step::Send { request: get(&url, "the-token") });

    let x = l.load_at(&mut state, now, ok("{json}"));
    assert_eq!(x, Step::Parse { body: "{json}".to_string() });

    let x = l.load_at(&mut state, now, Event::Document { document: Some(document("Success")) });
    let expected = Credential::new("access_key_id", "secret_access_key")
        .with_security_token("session_token")
        .with_expires_in(Timestamp::new(1653479117, 0));
    assert_eq!(x, Step::Done { result: Ok(Some(expected)) });
    assert_eq!(state, LoadState::new());
}

/// Counts the PUT requests of a whole load that begins at `now`.
fn puts_of_a_load(l: &mut IMDSv2Loader, now: Timestamp) -> usize {
    let mut state = LoadState::new();
    let mut puts = 0;
    let mut step = l.load_at(&mut state, now, Event::Start);
    for body in ["token-1", "role", "{}"] {
        match &step {
            Step::Send { request } if request.method == Method::Put => {
                puts += 1;
                step = l.load_at(&mut state, now, ok(body));
            }
            _ => {}
        }
        if body == "token-1" {
            continue;
        }
        step = l.load_at(&mut state, now, ok(body));
    }
    assert_eq!(step, Step::Parse { body: "{}".to_string() });
    puts
}

#[test]
fn test_token_is_reused_within_its_window() {
    let mut l = IMDSv2Loader::new();
    let first = Timestamp::new(1_700_000_000, 0);
    assert_eq!(puts_of_a_load(&mut l, first), 1);
    // one nanosecond short of 21000 seconds later
    assert_eq!(puts_of_a_load(&mut l, Timestamp::new(1_700_020_999, 999_999_999)), 0);
    assert_eq!(puts_of_a_load(&mut l, Timestamp::new(1_700_010_000, 0)), 0);
    assert_eq!(l.token(), "token-1");
    assert_eq!(l.token_expires_in(), Timestamp::new(1_700_021_000, 0));
}

#[test]
fn test_token_is_asked_anew_from_its_expiry_on() {
    let mut l = IMDSv2Loader::new();
    assert_eq!(puts_of_a_load(&mut l, Timestamp::new(1_700_000_000, 0)), 1);
    assert_eq!(puts_of_a_load(&mut l, Timestamp::new(1_700_021_000, 0)), 1);
    assert_eq!(l.token_expires_in(), Timestamp::new(1_700_042_000, 0));
    assert_eq!(puts_of_a_load(&mut l, Timestamp::new(1_800_000_000, 0)), 1);
}

#[test]
fn test_new_loader_asks_for_a_token_at_any_time() {
    for secs in [i64::MIN, -1, 0, 1_700_000_000] {
        let mut l = IMDSv2Loader::new();
        let mut state = LoadState::new();
        let x = l.load_at(&mut state, Timestamp::new(secs, 0), Event::Start);
        assert_eq!(x, Step::Send { request: token_request() });
    }
}

#[test]
fn test_load_reads_the_clock() {
    let mut l = IMDSv2Loader::new();
    let mut state = LoadState::new();
    assert_eq!(l.load(&mut state, Event::Start), Step::Send { request: token_request() });
    l.load(&mut state, ok("t"));
    // the token obtained now is in use for the next 21000 seconds
    let expiry = l.token_expires_in();
    assert!(expiry.secs > 1_700_000_000 + 21_000);
    let mut again = LoadState::new();
    assert_eq!(l.load(&mut again, Event::Start), Step::Send { request: get(CREDENTIALS_URL, "t") });
}

#[test]
fn test_status_other_than_200_ends_the_load() {
    for stage in [Stage::AwaitToken, Stage::AwaitProfile, Stage::AwaitCredentials] {
        for status in [201u16, 204, 301, 401, 404, 500] {
            let mut l = IMDSv2Loader::new();
            let mut state = LoadState { stage, token: "t".to_string(), body: String::new() };
            let x = l.load_at(
                &mut state,
                Timestamp::new(5, 0),
                Event::Response { response: Some(HttpResponse::new(status, "why".to_string())) },
            );
            assert_eq!(
                x,
                Step::Done { result: Err(ImdsError::RequestFailed { body: "why".to_string() }) }
            );
            assert_eq!(state, LoadState::new());
            // a token refused is not kept
            assert_eq!(l.token(), "");
        }
    }
}

#[test]
fn test_missing_response_ends_the_load() {
    let mut l = IMDSv2Loader::new();
    let mut state = LoadState::new();
    l.load_at(&mut state, Timestamp::new(5, 0), Event::Start);
    let x = l.load_at(&mut state, Timestamp::new(5, 0), Event::Response { response: None });
    assert_eq!(x, Step::Done { result: Err(ImdsError::Transport) });
}

#[test]
fn test_token_that_cannot_stand_in_a_header() {
    for token in ["line\nbreak", "bell\u{7}", "del\u{7f}"] {
        let mut l = IMDSv2Loader::new();
        let mut state = LoadState::new();
        l.load_at(&mut state, Timestamp::new(5, 0), Event::Start);
        let x = l.load_at(&mut state, Timestamp::new(5, 0), ok(token));
        assert_eq!(x, Step::Done { result: Err(ImdsError::InvalidRequest) });
        assert_eq!(metadata_request(CREDENTIALS_URL.to_string(), token), None);
    }
    // the tab and bytes above 127 may stand
    for token in ["tab\tbed", "caf\u{e9}", " "] {
        assert_eq!(
            metadata_request(CREDENTIALS_URL.to_string(), token),
            Some(get(CREDENTIALS_URL, token))
        );
    }
}

#[test]
fn test_profile_that_gives_no_uri() {
    let mut l = IMDSv2Loader::new();
    let mut state = LoadState::new();
    let now = Timestamp::new(5, 0);
    l.load_at(&mut state, now, Event::Start);
    l.load_at(&mut state, now, ok("t"));
    let x = l.load_at(&mut state, now, ok("my role"));
    assert_eq!(x, Step::Done { result: Err(ImdsError::InvalidRequest) });
    assert_eq!(metadata_request(String::new(), "t"), None);
    assert_eq!(metadata_request_for("u".to_string(), "t", false), None);
    assert_eq!(metadata_request_for("u".to_string(), "t", true), Some(get("u", "t")));
    assert_eq!(metadata_request_for("u".to_string(), "\n", true), None);
}

#[test]
fn test_codes_are_told_apart() {
    let unauthorized = credential_from_document(document("AssumeRoleUnauthorizedAccess"));
    let other = credential_from_document(document("InternalError"));
    let success = credential_from_document(document("Success"));
    assert_eq!(
        unauthorized,
        Err(ImdsError::Unauthorized {
            code: "AssumeRoleUnauthorizedAccess".to_string(),
            message: "the message".to_string(),
        })
    );
    assert_eq!(
        other,
        Err(ImdsError::Failed {
            code: "InternalError".to_string(),
            message: "the message".to_string()
        })
    );
    assert!(success.is_ok());
    assert_ne!(unauthorized, other);
    assert_ne!(unauthorized, success);
    assert_ne!(other, success);
    // a document without a code is no success either
    assert_eq!(
        credential_from_document(document("")),
        Err(ImdsError::Failed { code: String::new(), message: "the message".to_string() })
    );
    assert_eq!(
        credential_from_document(document("success")),
        Err(ImdsError::Failed { code: "success".to_string(), message: "the message".to_string() })
    );
}

#[test]
fn test_expiration_is_read_only_on_success() {
    let mut d = document("Success");
    d.expiration = "soon".to_string();
    assert_eq!(
        credential_from_document(d),
        Err(ImdsError::InvalidExpiration { text: "soon".to_string() })
    );
    let mut d = document("AssumeRoleUnauthorizedAccess");
    d.expiration = "soon".to_string();
    assert!(matches!(credential_from_document(d), Err(ImdsError::Unauthorized { .. })));
    let cred = credential_from_parts(document("Success"), Some(Timestamp::new(1, 2))).unwrap();
    assert_eq!(cred.expires_in, Some(Timestamp::new(1, 2)));
    assert_eq!(cred.session_token.as_deref(), Some("session_token"));
}

#[test]
fn test_body_without_a_document() {
    let mut l = IMDSv2Loader::new();
    let mut state =
        LoadState { stage: Stage::AwaitCredentials, token: "t".to_string(), body: String::new() };
    let now = Timestamp::new(5, 0);
    assert_eq!(l.load_at(&mut state, now, ok("<html>")), Step::Parse { body: "<html>".to_string() });
    let x = l.load_at(&mut state, now, Event::Document { document: None });
    assert_eq!(
        x,
        Step::Done { result: Err(ImdsError::MalformedResponse { body: "<html>".to_string() }) }
    );
}

#[test]
fn test_event_out_of_turn() {
    let now = Timestamp::new(5, 0);
    let mut l = IMDSv2Loader::new();
    let mut state = LoadState::new();
    assert_eq!(l.load_at(&mut state, now, ok("t")), Step::Done { result: Err(ImdsError::OutOfTurn) });
    assert_eq!(l.token(), "");
    let x = l.load_at(&mut state, now, Event::Document { document: Some(document("Success")) });
    assert_eq!(x, Step::Done { result: Err(ImdsError::OutOfTurn) });
    l.load_at(&mut state, now, Event::Start);
    let x = l.load_at(&mut state, now, Event::Document { document: None });
    assert_eq!(x, Step::Done { result: Err(ImdsError::OutOfTurn) });
    assert_eq!(state, LoadState::new());
}

/// Picks a member of a JSON object as text; the empty text where it is not there.
fn member(value: &serde_json::Value, name: &str) -> String {
    value.get(name).and_then(serde_json::Value::as_str).unwrap_or_default().to_string()
}

fn document_of(json: &str) -> Ec2MetadataIamSecurityCredentials {
    let value: serde_json::Value = serde_json::from_str(json).expect("must be JSON");
    Ec2MetadataIamSecurityCredentials {
        access_key_id: member(&value, "AccessKeyId"),
        secret_access_key: member(&value, "SecretAccessKey"),
        token: member(&value, "Token"),
        expiration: member(&value, "Expiration"),
        code: member(&value, "Code"),
        message: member(&value, "Message"),
    }
}

#[test]
fn test_documents_as_the_service_writes_them() {
    let success = r#"{
        "Code" : "Success",
        "LastUpdated" : "2022-05-25T05:40:12Z",
        "Type" : "AWS-HMAC",
        "AccessKeyId" : "access_key_id",
        "SecretAccessKey" : "secret_access_key",
        "Token" : "session_token",
        "Expiration" : "2022-05-25T11:45:17Z"
    }"#;
    let expected = Credential::new("access_key_id", "secret_access_key")
        .with_security_token("session_token")
        .with_expires_in(Timestamp::new(1653479117, 0));
    assert_eq!(credential_from_document(document_of(success)), Ok(expected));

    let denied = r#"{
        "Code" : "AssumeRoleUnauthorizedAccess",
        "Message" : "EC2 cannot assume the role reqsign.",
        "LastUpdated" : "2022-05-25T05:40:12Z"
    }"#;
    let error = credential_from_document(document_of(denied)).unwrap_err();
    assert_eq!(
        error.message(),
        "Incorrect IMDS/IAM configuration: [AssumeRoleUnauthorizedAccess] EC2 cannot assume the role reqsign.. Hint: Does this role have a trust relationship with EC2?"
    );
}

#[test]
fn test_error_messages() {
    assert_eq!(
        ImdsError::Unauthorized { code: "C".to_string(), message: "M".to_string() }.message(),
        "Incorrect IMDS/IAM configuration: [C] M. Hint: Does this role have a trust relationship with EC2?"
    );
    assert_eq!(
        ImdsError::Failed { code: "C".to_string(), message: "M".to_string() }.message(),
        "Error retrieving credentials from IMDS: C M"
    );
    assert_eq!(
        ImdsError::RequestFailed { body: "B".to_string() }.message(),
        "request to AWS EC2 Metadata Services failed: B"
    );
}

use hive_client::authentication::challenge::AuthStep;
use hive_client::authentication::provider::{
    AuthFlow, AuthResponse, AuthenticationResult, ChallengeAnswer, ChallengeKind, NewDeviceMetadata,
};
use hive_client::authentication::{
    AuthenticationError, ChallengeParameters, ChallengeRequest, ChallengeResponse, HiveAuth, TrustedDevice, User,
};
use hive_client::authentication::MAX_CHALLENGE_ROUNDS;

const SRP_B: &str = "36ef01c6dde9fe503da333b1acc758ba";
const SALT: &str = "36ef01c6dde9fe503da333b1acc758ba";
const SECRET_BLOCK: &str =
    "9ae77ec7154c14dcc487b47707fee4b4920cb96d8a8c045e4c8df879a7b375524aa736acdec6c9ad4ea606774d00621b";

fn user() -> User {
    User::new("example@example.com", "example")
}

fn device() -> TrustedDevice {
    TrustedDevice::new("device_password", "device_group_key", "device_key")
}

fn password_parameters() -> ChallengeParameters {
    let mut parameters = ChallengeParameters::new();
    parameters.insert("SRP_B", SRP_B);
    parameters.insert("SALT", SALT);
    parameters.insert("SECRET_BLOCK", SECRET_BLOCK);
    parameters.insert("USER_ID_FOR_SRP", "user-id-1234");
    parameters
}

fn device_parameters() -> ChallengeParameters {
    let mut parameters = ChallengeParameters::new();
    parameters.insert("SRP_B", SRP_B);
    parameters.insert("SALT", SALT);
    parameters.insert("SECRET_BLOCK", SECRET_BLOCK);
    parameters
}

fn challenge(name: &str, parameters: Option<ChallengeParameters>, session: Option<&str>) -> AuthResponse {
    AuthResponse {
        challenge_name: Some(name.to_string()),
        challenge_parameters: parameters,
        session: session.map(str::to_string),
        authentication_result: None,
    }
}

fn success(expires_in: i32, new_device: Option<NewDeviceMetadata>) -> AuthResponse {
    AuthResponse {
        challenge_name: None,
        challenge_parameters: None,
        session: None,
        authentication_result: Some(AuthenticationResult {
            id_token: Some("id-token".to_string()),
            access_token: Some("access-token".to_string()),
            refresh_token: Some("refresh-token".to_string()),
            expires_in,
            new_device_metadata: new_device,
        }),
    }
}

fn value_of<'a>(pairs: &'a [(String, String)], name: &str) -> Option<&'a str> {
    pairs.iter().find(|(n, _)| n == name).map(|(_, v)| v.as_str())
}

fn names_of(pairs: &[(String, String)]) -> Vec<&str> {
    pairs.iter().map(|(n, _)| n.as_str()).collect()
}

fn respond(step: Result<AuthStep, AuthenticationError>) -> ChallengeAnswer {
    match step {
        Ok(AuthStep::Respond(answer)) => answer,
        other => panic!("unexpected step: {:?}", other),
    }
}

#[test]
fn login_request_carries_public_value_and_username() {
    let auth = HiveAuth::new(&user(), None);
    let request = auth.login();
    assert_eq!(request.auth_flow, AuthFlow::UserSrpAuth);
    assert_eq!(request.client_id, "3rl4i0ajrmtdm8sbre54p9dvd9");
    assert_eq!(names_of(&request.auth_parameters), vec!["SRP_A", "USERNAME"]);
    assert_eq!(value_of(&request.auth_parameters, "USERNAME"), Some("example@example.com"));
    let a = value_of(&request.auth_parameters, "SRP_A").unwrap();
    assert!(!a.is_empty());
    assert!(a.chars().all(|c| c.is_ascii_hexdigit()));
    assert!(auth.session().is_none());
}

#[test]
fn login_request_names_the_trusted_device() {
    let auth = HiveAuth::new(&user(), Some(&device()));
    let request = auth.login();
    assert_eq!(names_of(&request.auth_parameters), vec!["SRP_A", "USERNAME", "DEVICE_KEY"]);
    assert_eq!(value_of(&request.auth_parameters, "DEVICE_KEY"), Some("device_key"));
}

#[test]
fn login_public_value_is_the_same_within_one_engine() {
    let auth = HiveAuth::new(&user(), None);
    let first = auth.login();
    let second = auth.login();
    assert_eq!(
        value_of(&first.auth_parameters, "SRP_A"),
        value_of(&second.auth_parameters, "SRP_A")
    );
}

#[test]
fn login_without_challenge_completes() {
    let mut auth = HiveAuth::new(&user(), None);
    let step = auth.login_response(success(3600, None), 1_000);
    match step {
        Ok(AuthStep::Complete(tokens, device)) => {
            assert_eq!(tokens.id_token(), "id-token");
            assert_eq!(tokens.access_token(), "access-token");
            assert_eq!(tokens.refresh_token(), "refresh-token");
            assert_eq!(tokens.expires_at(), 3_601_000);
            assert!(tokens.expires_at() > 1_000);
            assert!(device.is_none());
        }
        other => panic!("unexpected step: {:?}", other),
    }
    assert!(auth.session().is_none());
}

#[test]
fn login_with_incomplete_result_is_not_valid() {
    let mut auth = HiveAuth::new(&user(), None);
    let mut response = success(3600, None);
    response.authentication_result.as_mut().unwrap().refresh_token = None;
    assert!(matches!(
        auth.login_response(response, 0),
        Err(AuthenticationError::AccessTokenNotValid)
    ));
    assert!(auth.session().is_none());

    let empty = AuthResponse {
        challenge_name: None,
        challenge_parameters: None,
        session: Some("s".to_string()),
        authentication_result: None,
    };
    assert!(matches!(auth.login_response(empty, 0), Err(AuthenticationError::AccessTokenNotValid)));
}

#[test]
fn password_verifier_is_answered_with_the_provider_user_id() {
    let mut auth = HiveAuth::new(&user(), None);
    let step = auth.login_response(
        challenge("PASSWORD_VERIFIER", Some(password_parameters()), Some("session-1")),
        0,
    );
    let answer = respond(step);
    assert_eq!(answer.challenge_name, ChallengeKind::PasswordVerifier);
    assert_eq!(answer.session.as_deref(), Some("session-1"));
    assert_eq!(answer.client_id, "3rl4i0ajrmtdm8sbre54p9dvd9");
    assert_eq!(
        names_of(&answer.challenge_responses),
        vec!["USERNAME", "PASSWORD_CLAIM_SECRET_BLOCK", "PASSWORD_CLAIM_SIGNATURE", "TIMESTAMP"]
    );
    assert_eq!(value_of(&answer.challenge_responses, "USERNAME"), Some("user-id-1234"));
    assert_eq!(
        value_of(&answer.challenge_responses, "PASSWORD_CLAIM_SECRET_BLOCK"),
        Some(SECRET_BLOCK)
    );
    assert!(!value_of(&answer.challenge_responses, "PASSWORD_CLAIM_SIGNATURE").unwrap().is_empty());
    assert_ne!(value_of(&answer.challenge_responses, "PASSWORD_CLAIM_SIGNATURE"), Some(SECRET_BLOCK));
    assert!(!value_of(&answer.challenge_responses, "TIMESTAMP").unwrap().is_empty());
    assert!(value_of(&answer.challenge_responses, "TIMESTAMP").unwrap().contains("UTC"));

    let session = auth.session().expect("the login is in progress");
    assert_eq!(session.0, "user-id-1234");
    assert_eq!(session.1.as_deref(), Some("session-1"));
    assert_eq!(auth.rounds(), 1);
}

#[test]
fn password_verifier_answer_names_the_trusted_device() {
    let mut auth = HiveAuth::new(&user(), Some(&device()));
    let answer = respond(auth.login_response(
        challenge("PASSWORD_VERIFIER", Some(password_parameters()), None),
        0,
    ));
    assert_eq!(
        names_of(&answer.challenge_responses),
        vec![
            "USERNAME",
            "PASSWORD_CLAIM_SECRET_BLOCK",
            "PASSWORD_CLAIM_SIGNATURE",
            "TIMESTAMP",
            "DEVICE_KEY"
        ]
    );
    assert_eq!(value_of(&answer.challenge_responses, "DEVICE_KEY"), Some("device_key"));
    assert!(answer.session.is_none());
}

#[test]
fn missing_salt_fails_and_leaves_the_session() {
    let mut parameters = ChallengeParameters::new();
    parameters.insert("SRP_B", SRP_B);
    parameters.insert("SECRET_BLOCK", SECRET_BLOCK);
    parameters.insert("USER_ID_FOR_SRP", "user-id-1234");
    let mut auth = HiveAuth::new(&user(), None);
    match auth.login_response(challenge("PASSWORD_VERIFIER", Some(parameters), Some("session-1")), 0) {
        Err(AuthenticationError::MissingChallengeParameter(name)) => assert_eq!(name, "SALT"),
        other => panic!("unexpected step: {:?}", other),
    }
    let session = auth.session().expect("the login is still in progress");
    assert_eq!(session.0, "example@example.com");
    assert_eq!(session.1.as_deref(), Some("session-1"));
}

#[test]
fn missing_parameters_are_reported_in_order() {
    let names = ["SECRET_BLOCK", "USER_ID_FOR_SRP", "SALT", "SRP_B"];
    for (i, expected) in names.iter().enumerate() {
        let mut parameters = ChallengeParameters::new();
        for present in &names[..i] {
            parameters.insert(present, "00");
        }
        let mut auth = HiveAuth::new(&user(), None);
        match auth.login_response(challenge("PASSWORD_VERIFIER", Some(parameters), None), 0) {
            Err(AuthenticationError::MissingChallengeParameter(name)) => assert_eq!(&name, expected),
            other => panic!("unexpected step: {:?}", other),
        }
    }
}

#[test]
fn challenge_without_parameters_misses_the_first() {
    let mut auth = HiveAuth::new(&user(), None);
    match auth.login_response(challenge("PASSWORD_VERIFIER", None, None), 0) {
        Err(AuthenticationError::MissingChallengeParameter(name)) => assert_eq!(name, "SECRET_BLOCK"),
        other => panic!("unexpected step: {:?}", other),
    }
}

#[test]
fn malformed_server_value_is_a_proof_error() {
    let mut parameters = password_parameters();
    parameters.insert("SRP_B", "not hex at all");
    let mut auth = HiveAuth::new(&user(), None);
    assert!(matches!(
        auth.login_response(challenge("PASSWORD_VERIFIER", Some(parameters), Some("session-1")), 0),
        Err(AuthenticationError::SrpFailed(_))
    ));
    let session = auth.session().expect("the login is still in progress");
    assert_eq!(session.0, "user-id-1234");
    assert_eq!(session.1.as_deref(), Some("session-1"));
}

#[test]
fn challenge_of_an_unknown_name_is_unsupported() {
    for name in ["CUSTOM_CHALLENGE", "SOFTWARE_TOKEN_MFA", "password_verifier", "SMS_MFA ", ""] {
        let mut auth = HiveAuth::new(&user(), Some(&device()));
        match auth.login_response(challenge(name, Some(password_parameters()), Some("s")), 0) {
            Err(AuthenticationError::UnsupportedChallenge(named)) => assert_eq!(named, name),
            other => panic!("unexpected step: {:?}", other),
        }
        assert!(auth.session().is_none());

        let mut auth = HiveAuth::new(&user(), Some(&device()));
        respond(auth.login_response(challenge("PASSWORD_VERIFIER", Some(password_parameters()), Some("s1")), 0));
        match auth.handle_challenge_response(challenge(name, None, Some("s2")), 0) {
            Err(AuthenticationError::UnsupportedChallenge(named)) => assert_eq!(named, name),
            other => panic!("unexpected step: {:?}", other),
        }
        assert!(auth.session().is_none());
    }
}

#[test]
fn sms_challenge_in_the_first_response_waits_for_the_caller() {
    let mut auth = HiveAuth::new(&user(), None);
    match auth.login_response(challenge("SMS_MFA", None, Some("s1")), 0) {
        Err(AuthenticationError::NextChallenge(ChallengeRequest::SmsMfa)) => {}
        other => panic!("unexpected step: {:?}", other),
    }
    let session = auth.session().expect("the login waits for the code");
    assert_eq!(session.0, "example@example.com");
    assert_eq!(session.1.as_deref(), Some("s1"));
    assert_eq!(auth.rounds(), 0);

    let answer = auth
        .respond_to_challenge(ChallengeResponse::SmsMfa("123456".to_string()))
        .expect("the code is an answer");
    assert_eq!(answer.challenge_name, ChallengeKind::SmsMfa);
    assert_eq!(answer.session.as_deref(), Some("s1"));
    assert_eq!(names_of(&answer.challenge_responses), vec!["SMS_MFA_CODE", "USERNAME"]);
    assert_eq!(value_of(&answer.challenge_responses, "SMS_MFA_CODE"), Some("123456"));
    assert_eq!(value_of(&answer.challenge_responses, "USERNAME"), Some("example@example.com"));

    match auth.handle_challenge_response(success(60, None), 5_000) {
        Ok(AuthStep::Complete(tokens, None)) => assert_eq!(tokens.expires_at(), 65_000),
        other => panic!("unexpected step: {:?}", other),
    }
    assert!(auth.session().is_none());
}

#[test]
fn device_challenges_in_the_first_response_are_answered() {
    let mut auth = HiveAuth::new(&user(), Some(&device()));
    let answer = respond(auth.login_response(challenge("DEVICE_SRP_AUTH", None, Some("s1")), 0));
    assert_eq!(answer.challenge_name, ChallengeKind::DeviceSrpAuth);
    assert_eq!(answer.session.as_deref(), Some("s1"));
    assert_eq!(names_of(&answer.challenge_responses), vec!["SRP_A", "USERNAME", "DEVICE_KEY"]);
    assert_eq!(value_of(&answer.challenge_responses, "USERNAME"), Some("example@example.com"));
    assert!(!value_of(&answer.challenge_responses, "SRP_A").unwrap().is_empty());
    assert_eq!(auth.rounds(), 1);

    let mut auth = HiveAuth::new(&user(), Some(&device()));
    let answer = respond(auth.login_response(
        challenge("DEVICE_PASSWORD_VERIFIER", Some(device_parameters()), Some("s1")),
        0,
    ));
    assert_eq!(answer.challenge_name, ChallengeKind::DevicePasswordVerifier);
    assert_eq!(
        value_of(&answer.challenge_responses, "PASSWORD_CLAIM_SECRET_BLOCK"),
        Some(SECRET_BLOCK)
    );
    assert_eq!(auth.rounds(), 1);
}

#[test]
fn device_challenge_in_the_first_response_needs_a_trusted_device() {
    let mut auth = HiveAuth::new(&user(), None);
    assert!(matches!(
        auth.login_response(challenge("DEVICE_SRP_AUTH", None, Some("s1")), 0),
        Err(AuthenticationError::NoAuthenticationInProgress)
    ));
    let session = auth.session().expect("the login is still in progress");
    assert_eq!(session.1.as_deref(), Some("s1"));
}

#[test]
fn respond_without_login_is_not_in_progress() {
    let mut auth = HiveAuth::new(&user(), Some(&device()));
    assert!(matches!(
        auth.respond_to_challenge(ChallengeResponse::SmsMfa("123456".to_string())),
        Err(AuthenticationError::NoAuthenticationInProgress)
    ));
    assert!(matches!(
        auth.respond_to_challenge(ChallengeResponse::PasswordVerifier(password_parameters())),
        Err(AuthenticationError::NoAuthenticationInProgress)
    ));
    assert!(matches!(
        auth.respond_to_challenge(ChallengeResponse::DeviceSrpAuth),
        Err(AuthenticationError::NoAuthenticationInProgress)
    ));
    assert!(matches!(
        auth.handle_challenge_response(success(10, None), 0),
        Err(AuthenticationError::NoAuthenticationInProgress)
    ));
    assert!(auth.session().is_none());
}

#[test]
fn respond_after_success_is_not_in_progress() {
    let mut auth = HiveAuth::new(&user(), None);
    assert!(auth.login_response(success(10, None), 0).is_ok());
    assert!(matches!(
        auth.respond_to_challenge(ChallengeResponse::SmsMfa("123456".to_string())),
        Err(AuthenticationError::NoAuthenticationInProgress)
    ));
}

#[test]
fn device_challenges_need_a_trusted_device() {
    let mut auth = HiveAuth::new(&user(), None);
    respond(auth.login_response(challenge("PASSWORD_VERIFIER", Some(password_parameters()), Some("s1")), 0));
    assert!(matches!(
        auth.respond_to_challenge(ChallengeResponse::DeviceSrpAuth),
        Err(AuthenticationError::NoAuthenticationInProgress)
    ));
    assert!(matches!(
        auth.respond_to_challenge(ChallengeResponse::DevicePasswordVerifier(device_parameters())),
        Err(AuthenticationError::NoAuthenticationInProgress)
    ));
    assert!(auth.session().is_some());
}

#[test]
fn sms_challenge_is_handed_to_the_caller() {
    let mut auth = HiveAuth::new(&user(), None);
    respond(auth.login_response(challenge("PASSWORD_VERIFIER", Some(password_parameters()), Some("s1")), 0));
    match auth.handle_challenge_response(challenge("SMS_MFA", None, Some("s2")), 0) {
        Err(AuthenticationError::NextChallenge(ChallengeRequest::SmsMfa)) => {}
        other => panic!("unexpected step: {:?}", other),
    }
    let session = auth.session().expect("the login waits for the code");
    assert_eq!(session.0, "user-id-1234");
    assert_eq!(session.1.as_deref(), Some("s2"));

    let answer = auth
        .respond_to_challenge(ChallengeResponse::SmsMfa("123456".to_string()))
        .expect("the code is an answer");
    assert_eq!(answer.challenge_name, ChallengeKind::SmsMfa);
    assert_eq!(answer.session.as_deref(), Some("s2"));
    assert_eq!(names_of(&answer.challenge_responses), vec!["SMS_MFA_CODE", "USERNAME"]);
    assert_eq!(value_of(&answer.challenge_responses, "SMS_MFA_CODE"), Some("123456"));
    assert_eq!(value_of(&answer.challenge_responses, "USERNAME"), Some("user-id-1234"));

    match auth.handle_challenge_response(success(60, None), 5_000) {
        Ok(AuthStep::Complete(tokens, None)) => assert_eq!(tokens.expires_at(), 65_000),
        other => panic!("unexpected step: {:?}", other),
    }
    assert!(auth.session().is_none());
}

#[test]
fn device_challenges_are_answered_at_once() {
    let mut auth = HiveAuth::new(&user(), Some(&device()));
    respond(auth.login_response(challenge("PASSWORD_VERIFIER", Some(password_parameters()), Some("s1")), 0));

    let answer = respond(auth.handle_challenge_response(challenge("DEVICE_SRP_AUTH", None, Some("s2")), 0));
    assert_eq!(answer.challenge_name, ChallengeKind::DeviceSrpAuth);
    assert_eq!(answer.session.as_deref(), Some("s2"));
    assert_eq!(names_of(&answer.challenge_responses), vec!["SRP_A", "USERNAME", "DEVICE_KEY"]);
    assert_eq!(value_of(&answer.challenge_responses, "USERNAME"), Some("user-id-1234"));
    assert_eq!(value_of(&answer.challenge_responses, "DEVICE_KEY"), Some("device_key"));
    assert!(!value_of(&answer.challenge_responses, "SRP_A").unwrap().is_empty());
    assert_eq!(auth.rounds(), 2);

    let answer = respond(auth.handle_challenge_response(
        challenge("DEVICE_PASSWORD_VERIFIER", Some(device_parameters()), Some("s3")),
        0,
    ));
    assert_eq!(answer.challenge_name, ChallengeKind::DevicePasswordVerifier);
    assert_eq!(answer.session.as_deref(), Some("s3"));
    assert_eq!(
        names_of(&answer.challenge_responses),
        vec![
            "USERNAME",
            "PASSWORD_CLAIM_SECRET_BLOCK",
            "PASSWORD_CLAIM_SIGNATURE",
            "TIMESTAMP",
            "DEVICE_KEY"
        ]
    );
    assert_eq!(value_of(&answer.challenge_responses, "USERNAME"), Some("user-id-1234"));
    assert_eq!(
        value_of(&answer.challenge_responses, "PASSWORD_CLAIM_SECRET_BLOCK"),
        Some(SECRET_BLOCK)
    );
    assert_eq!(auth.rounds(), 3);

    match auth.handle_challenge_response(success(3600, None), 1_000) {
        Ok(AuthStep::Complete(tokens, None)) => assert!(tokens.expires_at() > 1_000),
        other => panic!("unexpected step: {:?}", other),
    }
}

#[test]
fn device_password_verifier_reports_missing_parameters_in_order() {
    let names = ["SRP_B", "SALT", "SECRET_BLOCK"];
    for (i, expected) in names.iter().enumerate() {
        let mut parameters = ChallengeParameters::new();
        for present in &names[..i] {
            parameters.insert(present, "00");
        }
        let mut auth = HiveAuth::new(&user(), Some(&device()));
        respond(auth.login_response(challenge("PASSWORD_VERIFIER", Some(password_parameters()), Some("s1")), 0));
        match auth.handle_challenge_response(challenge("DEVICE_PASSWORD_VERIFIER", Some(parameters), Some("s2")), 0) {
            Err(AuthenticationError::MissingChallengeParameter(name)) => assert_eq!(&name, expected),
            other => panic!("unexpected step: {:?}", other),
        }
        let session = auth.session().expect("the login is still in progress");
        assert_eq!(session.1.as_deref(), Some("s2"));
    }
}

#[test]
fn password_verifier_in_a_later_response_is_answered() {
    let mut auth = HiveAuth::new(&user(), None);
    match auth.login_response(challenge("SMS_MFA", None, Some("s1")), 0) {
        Err(AuthenticationError::NextChallenge(ChallengeRequest::SmsMfa)) => {}
        other => panic!("unexpected step: {:?}", other),
    }
    let answer = respond(auth.handle_challenge_response(
        challenge("PASSWORD_VERIFIER", Some(password_parameters()), Some("s2")),
        0,
    ));
    assert_eq!(answer.challenge_name, ChallengeKind::PasswordVerifier);
    assert_eq!(answer.session.as_deref(), Some("s2"));
    assert_eq!(value_of(&answer.challenge_responses, "USERNAME"), Some("user-id-1234"));
    assert_eq!(
        value_of(&answer.challenge_responses, "PASSWORD_CLAIM_SECRET_BLOCK"),
        Some(SECRET_BLOCK)
    );
    let session = auth.session().expect("the login is in progress");
    assert_eq!(session.0, "user-id-1234");
    assert_eq!(session.1.as_deref(), Some("s2"));
    assert_eq!(auth.rounds(), 1);

    let answer = respond(auth.handle_challenge_response(
        challenge("PASSWORD_VERIFIER", Some(password_parameters()), Some("s3")),
        0,
    ));
    assert_eq!(answer.session.as_deref(), Some("s3"));
    assert_eq!(auth.rounds(), 2);
}

#[test]
fn password_verifier_is_cut_off_like_any_other() {
    let mut auth = HiveAuth::new(&user(), None);
    let mut answered = 0;
    let mut step = auth.login_response(challenge("PASSWORD_VERIFIER", Some(password_parameters()), Some("s")), 0);
    loop {
        match step {
            Ok(AuthStep::Respond(_)) => answered += 1,
            Err(AuthenticationError::UnsupportedChallenge(name)) => {
                assert_eq!(name, "PASSWORD_VERIFIER");
                break;
            }
            other => panic!("unexpected step: {:?}", other),
        }
        assert!(answered <= MAX_CHALLENGE_ROUNDS);
        step = auth.handle_challenge_response(
            challenge("PASSWORD_VERIFIER", Some(password_parameters()), Some("s")),
            0,
        );
    }
    assert_eq!(answered, MAX_CHALLENGE_ROUNDS);
    assert!(auth.session().is_none());
}

#[test]
fn a_provider_that_keeps_asking_is_cut_off() {
    let mut auth = HiveAuth::new(&user(), Some(&device()));
    respond(auth.login_response(challenge("PASSWORD_VERIFIER", Some(password_parameters()), Some("s")), 0));
    let mut answered = 1;
    loop {
        match auth.handle_challenge_response(challenge("DEVICE_SRP_AUTH", None, Some("s")), 0) {
            Ok(AuthStep::Respond(_)) => answered += 1,
            Err(AuthenticationError::UnsupportedChallenge(name)) => {
                assert_eq!(name, "DEVICE_SRP_AUTH");
                break;
            }
            other => panic!("unexpected step: {:?}", other),
        }
        assert!(answered <= MAX_CHALLENGE_ROUNDS);
    }
    assert_eq!(answered, MAX_CHALLENGE_ROUNDS);
    assert_eq!(MAX_CHALLENGE_ROUNDS, 10);
    assert!(auth.session().is_none());
}

#[test]
fn a_new_login_replaces_the_one_in_progress() {
    let mut auth = HiveAuth::new(&user(), None);
    respond(auth.login_response(challenge("PASSWORD_VERIFIER", Some(password_parameters()), Some("old")), 0));
    respond(auth.login_response(challenge("PASSWORD_VERIFIER", Some(password_parameters()), Some("new")), 0));
    let session = auth.session().expect("the second login is in progress");
    assert_eq!(session.1.as_deref(), Some("new"));
    assert_eq!(auth.rounds(), 1);
}

#[test]
fn success_with_new_device_issues_an_untrusted_device() {
    let mut auth = HiveAuth::new(&user(), None);
    let metadata = NewDeviceMetadata {
        device_key: Some("eu-west-1_new-device".to_string()),
        device_group_key: Some("group".to_string()),
    };
    match auth.login_response(success(3600, Some(metadata)), 0) {
        Ok(AuthStep::Complete(_, Some(issued))) => {
            assert_eq!(issued.device_key, "eu-west-1_new-device");
            assert_eq!(issued.device_group_key, "group");
        }
        other => panic!("unexpected step: {:?}", other),
    }
    let partial = NewDeviceMetadata { device_key: Some("k".to_string()), device_group_key: None };
    assert!(matches!(
        auth.login_response(success(3600, Some(partial)), 0),
        Ok(AuthStep::Complete(_, None))
    ));
}

#[test]
fn logout_request_carries_the_access_token() {
    let mut auth = HiveAuth::new(&user(), None);
    respond(auth.login_response(challenge("PASSWORD_VERIFIER", Some(password_parameters()), Some("s")), 0));
    let tokens = hive_client::authentication::Tokens::issued_at(
        "i".to_string(),
        "access".to_string(),
        "r".to_string(),
        10,
        0,
    );
    let request = auth.logout(&tokens);
    assert_eq!(request.access_token, "access");
    assert!(auth.session().is_none());
    match auth.logout_failed("not authorized".to_string()) {
        AuthenticationError::LogoutFailed(message) => assert_eq!(message, "not authorized"),
        other => panic!("unexpected error: {:?}", other),
    }
}

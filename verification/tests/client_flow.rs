use hive_client::authentication::provider::{
    AuthFlow, AuthResponse, AuthenticationResult, ChallengeKind, InitiateAuthRequest, NewDeviceMetadata,
};
use hive_client::authentication::{
    AccountDevice, AuthenticationError, ChallengeParameters, ChallengeRequest, ChallengeResponse, DeviceConfirmationError,
    TrustedDevice, User,
};
use hive_client::client::{Flow, TokenCheck};
use hive_client::{ApiError, Client};
use std::sync::Arc;

const SRP_B: &str = "36ef01c6dde9fe503da333b1acc758ba";
const SALT: &str = "36ef01c6dde9fe503da333b1acc758ba";
const SECRET_BLOCK: &str =
    "9ae77ec7154c14dcc487b47707fee4b4920cb96d8a8c045e4c8df879a7b375524aa736acdec6c9ad4ea606774d00621b";

fn user() -> User {
    User::new("example@example.com", "example")
}

fn password_challenge(session: &str) -> AuthResponse {
    let mut parameters = ChallengeParameters::new();
    parameters.insert("SRP_B", SRP_B);
    parameters.insert("SALT", SALT);
    parameters.insert("SECRET_BLOCK", SECRET_BLOCK);
    parameters.insert("USER_ID_FOR_SRP", "user-id-1234");
    AuthResponse {
        challenge_name: Some("PASSWORD_VERIFIER".to_string()),
        challenge_parameters: Some(parameters),
        session: Some(session.to_string()),
        authentication_result: None,
    }
}

fn result(access_token: &str, expires_in: i32, new_device: bool) -> AuthenticationResult {
    AuthenticationResult {
        id_token: Some(format!("id-of-{}", access_token)),
        access_token: Some(access_token.to_string()),
        refresh_token: Some("refresh-token".to_string()),
        expires_in,
        new_device_metadata: if new_device {
            Some(NewDeviceMetadata {
                device_key: Some("eu-west-1_new-device".to_string()),
                device_group_key: Some("new-group".to_string()),
            })
        } else {
            None
        },
    }
}

fn success(access_token: &str, expires_in: i32, new_device: bool) -> AuthResponse {
    AuthResponse {
        challenge_name: None,
        challenge_parameters: None,
        session: None,
        authentication_result: Some(result(access_token, expires_in, new_device)),
    }
}

fn value_of<'a>(pairs: &'a [(String, String)], name: &str) -> Option<&'a str> {
    pairs.iter().find(|(n, _)| n == name).map(|(_, v)| v.as_str())
}

/// A client that logged in at the moment 0 with tokens of the given lifetime.
fn logged_in(expires_in: i32, device: Option<TrustedDevice>) -> Client {
    let mut client = Client::new("Home Automation");
    client.login(user(), device);
    match client.login_response_at(success("access-1", expires_in, false), 0) {
        Ok(Flow::LoggedIn(_)) => client,
        other => panic!("unexpected flow: {:?}", other),
    }
}

/// A provider that counts the refreshes it is asked for.
struct Provider {
    refreshes: u32,
}

impl Provider {
    fn refresh(&mut self, request: &InitiateAuthRequest) -> Option<AuthenticationResult> {
        assert_eq!(request.auth_flow, AuthFlow::RefreshTokenAuth);
        self.refreshes += 1;
        let mut fresh = result(&format!("access-{}", self.refreshes + 1), 3600, false);
        fresh.refresh_token = None;
        Some(fresh)
    }
}

/// What a caller that needs tokens does at the moment `now`.
fn valid_tokens(client: &mut Client, provider: &mut Provider, now: i64) -> Result<Arc<hive_client::authentication::Tokens>, ApiError> {
    match client.refresh_tokens_if_needed_at(now)? {
        TokenCheck::Valid(tokens) => Ok(tokens),
        TokenCheck::Refresh(request) => {
            let result = provider.refresh(&request);
            client.tokens_refreshed_at(result, now)
        }
    }
}

#[test]
fn new_client_is_logged_out() {
    let client = Client::new("Home Automation");
    assert!(client.tokens().is_none());
    assert!(client.trusted_device().is_none());
    assert!(client.auth().is_none());
}

#[test]
fn login_with_new_device_confirms_it() {
    let mut client = Client::new("Home Automation");
    let request = client.login(user(), None);
    assert_eq!(request.auth_flow, AuthFlow::UserSrpAuth);
    assert_eq!(value_of(&request.auth_parameters, "USERNAME"), Some("example@example.com"));
    assert!(value_of(&request.auth_parameters, "DEVICE_KEY").is_none());

    let answer = match client.login_response_at(password_challenge("session-1"), 1_000) {
        Ok(Flow::Respond(answer)) => answer,
        other => panic!("unexpected flow: {:?}", other),
    };
    assert_eq!(answer.challenge_name, ChallengeKind::PasswordVerifier);
    assert_eq!(answer.session.as_deref(), Some("session-1"));
    assert_eq!(value_of(&answer.challenge_responses, "USERNAME"), Some("user-id-1234"));

    let request = match client.challenge_response_at(success("access-1", 3600, true), 2_000) {
        Ok(Flow::ConfirmDevice(request)) => request,
        other => panic!("unexpected flow: {:?}", other),
    };
    assert_eq!(request.device_key, "eu-west-1_new-device");
    assert_eq!(request.device_name, "Home Automation");
    assert_eq!(request.access_token, "access-1");
    assert!(!request.password_verifier.is_empty());
    assert!(!request.salt.is_empty());
    assert!(client.tokens().is_none());
    assert!(client.trusted_device().is_none());

    let device = match client.device_confirmed(false) {
        Ok(Flow::LoggedIn(Some(device))) => device,
        other => panic!("unexpected flow: {:?}", other),
    };
    assert!(!device.device_password.is_empty());
    assert_eq!(device.device_password.chars().count(), 56);
    assert!(!device.device_group_key.is_empty());
    assert!(!device.device_key.is_empty());
    assert_eq!(device.device_key, "eu-west-1_new-device");
    assert_eq!(device.device_group_key, "new-group");
    assert!(device.device_key.starts_with("eu-west-1"));

    let tokens = client.tokens().expect("the tokens are stored");
    assert_eq!(tokens.access_token(), "access-1");
    assert_eq!(tokens.expires_at(), 3_602_000);
    assert_eq!(client.trusted_device().unwrap().device_password, device.device_password);
}

#[test]
fn login_with_new_device_updates_the_status_when_asked() {
    let mut client = Client::new("Home Automation");
    client.login(user(), None);
    assert!(matches!(
        client.login_response_at(success("access-1", 3600, true), 0),
        Ok(Flow::ConfirmDevice(_))
    ));
    let request = match client.device_confirmed(true) {
        Ok(Flow::UpdateDeviceStatus(request)) => request,
        other => panic!("unexpected flow: {:?}", other),
    };
    assert_eq!(request.device_key, "eu-west-1_new-device");
    assert_eq!(request.access_token, "access-1");
    assert!(client.tokens().is_none());
    assert!(client.trusted_device().is_none());
    match client.device_status_updated() {
        Ok(Flow::LoggedIn(Some(device))) => assert_eq!(device.device_key, "eu-west-1_new-device"),
        other => panic!("unexpected flow: {:?}", other),
    }
    assert!(client.tokens().is_some());
    assert!(client.trusted_device().is_some());
}

#[test]
fn failed_confirmation_fails_the_login() {
    let mut client = Client::new("Home Automation");
    client.login(user(), None);
    assert!(matches!(
        client.login_response_at(success("access-1", 3600, true), 0),
        Ok(Flow::ConfirmDevice(_))
    ));
    match client.device_confirmation_failed(DeviceConfirmationError::ConfirmationFailed("denied".to_string())) {
        AuthenticationError::DeviceConfirmationError(DeviceConfirmationError::ConfirmationFailed(message)) => {
            assert_eq!(message, "denied")
        }
        other => panic!("unexpected error: {:?}", other),
    }
    assert!(client.tokens().is_none());
    assert!(client.trusted_device().is_none());
    assert!(matches!(
        client.device_confirmed(false),
        Err(AuthenticationError::NoAuthenticationInProgress)
    ));
}

#[test]
fn confirmation_without_pending_login_is_not_in_progress() {
    let mut client = Client::new("Home Automation");
    assert!(matches!(
        client.device_confirmed(false),
        Err(AuthenticationError::NoAuthenticationInProgress)
    ));
    let mut client = logged_in(3600, None);
    assert!(matches!(
        client.device_status_updated(),
        Err(AuthenticationError::NoAuthenticationInProgress)
    ));
    assert!(client.tokens().is_some());
}

#[test]
fn login_with_trusted_device_returns_it() {
    let device = TrustedDevice::new("device_password", "device_group_key", "device_key");
    let mut client = Client::new("Home Automation");
    let request = client.login(user(), Some(device));
    assert_eq!(value_of(&request.auth_parameters, "DEVICE_KEY"), Some("device_key"));
    match client.login_response_at(success("access-1", 3600, false), 0) {
        Ok(Flow::LoggedIn(Some(device))) => assert_eq!(device.device_password, "device_password"),
        other => panic!("unexpected flow: {:?}", other),
    }
}

#[test]
fn responses_before_login_are_refused() {
    let mut client = Client::new("Home Automation");
    assert!(matches!(
        client.login_response_at(success("a", 10, false), 0),
        Err(AuthenticationError::NoAuthenticationInProgress)
    ));
    assert!(matches!(
        client.challenge_response_at(success("a", 10, false), 0),
        Err(AuthenticationError::NoAuthenticationInProgress)
    ));
    assert!(matches!(
        client.respond_to_challenge(ChallengeResponse::SmsMfa("123456".to_string())),
        Err(AuthenticationError::NoAuthenticationInProgress)
    ));
    assert!(client.tokens().is_none());
}

#[test]
fn respond_with_no_session_in_progress_fails() {
    let mut client = Client::new("Home Automation");
    client.login(user(), None);
    assert!(matches!(
        client.respond_to_challenge(ChallengeResponse::SmsMfa("123456".to_string())),
        Err(AuthenticationError::NoAuthenticationInProgress)
    ));
    assert!(client.auth().unwrap().session().is_none());
}

#[test]
fn sms_code_completes_the_login() {
    let mut client = Client::new("Home Automation");
    client.login(user(), None);
    assert!(matches!(client.login_response_at(password_challenge("s1"), 0), Ok(Flow::Respond(_))));
    let sms = AuthResponse {
        challenge_name: Some("SMS_MFA".to_string()),
        challenge_parameters: None,
        session: Some("s2".to_string()),
        authentication_result: None,
    };
    match client.challenge_response_at(sms, 0) {
        Err(AuthenticationError::NextChallenge(ChallengeRequest::SmsMfa)) => {}
        other => panic!("unexpected flow: {:?}", other),
    }
    let answer = client
        .respond_to_challenge(ChallengeResponse::SmsMfa("654321".to_string()))
        .expect("the code is an answer");
    assert_eq!(answer.session.as_deref(), Some("s2"));
    assert_eq!(value_of(&answer.challenge_responses, "SMS_MFA_CODE"), Some("654321"));
    assert!(matches!(
        client.challenge_response_at(success("access-1", 60, false), 0),
        Ok(Flow::LoggedIn(None))
    ));
    assert_eq!(client.tokens().unwrap().access_token(), "access-1");
}

#[test]
fn provider_failures_become_errors() {
    let mut client = Client::new("Home Automation");
    client.login(user(), None);
    match client.login_failed("connection reset".to_string()) {
        AuthenticationError::LoginFailed(message) => assert_eq!(message, "connection reset"),
        other => panic!("unexpected error: {:?}", other),
    }
    assert!(client.auth().is_none());

    client.login(user(), None);
    assert!(matches!(client.login_response_at(password_challenge("s1"), 0), Ok(Flow::Respond(_))));
    match client.challenge_failed("timeout".to_string()) {
        AuthenticationError::ChallengeFailed(message) => assert_eq!(message, "timeout"),
        other => panic!("unexpected error: {:?}", other),
    }
    assert_eq!(client.auth().unwrap().session().unwrap().1.as_deref(), Some("s1"));
}

#[test]
fn logout_drops_everything() {
    let device = TrustedDevice::new("device_password", "device_group_key", "device_key");
    let mut client = logged_in(3600, Some(device));
    assert!(client.tokens().is_some());
    client.logout();
    assert!(client.tokens().is_none());
    assert!(client.trusted_device().is_none());
    assert!(client.auth().is_none());
    assert!(matches!(
        client.refresh_tokens_if_needed_at(0),
        Err(ApiError::AuthenticationRefreshFailed(AuthenticationError::NotLoggedIn))
    ));
}

#[test]
fn tokens_without_login_are_not_logged_in() {
    let mut client = Client::new("Home Automation");
    assert!(matches!(
        client.refresh_tokens_if_needed_at(0),
        Err(ApiError::AuthenticationRefreshFailed(AuthenticationError::NotLoggedIn))
    ));
    assert!(matches!(
        client.refresh_tokens_if_needed(),
        Err(ApiError::AuthenticationRefreshFailed(AuthenticationError::NotLoggedIn))
    ));
    assert!(matches!(
        client.tokens_refreshed_at(Some(result("a", 10, false)), 0),
        Err(ApiError::AuthenticationRefreshFailed(AuthenticationError::NotLoggedIn))
    ));
    assert!(client.tokens().is_none());
}

#[test]
fn valid_tokens_are_handed_out_as_they_are() {
    let client = logged_in(3600, None);
    match client.refresh_tokens_if_needed_at(3_599_999) {
        Ok(TokenCheck::Valid(tokens)) => {
            assert_eq!(tokens.access_token(), "access-1");
            assert_eq!(tokens.expires_at(), 3_600_000);
        }
        other => panic!("unexpected check: {:?}", other),
    }
}

#[test]
fn expired_tokens_call_for_a_refresh() {
    let device = TrustedDevice::new("device_password", "device_group_key", "device_key");
    let client = logged_in(3600, Some(device));
    match client.refresh_tokens_if_needed_at(3_600_000) {
        Ok(TokenCheck::Refresh(request)) => {
            assert_eq!(request.auth_flow, AuthFlow::RefreshTokenAuth);
            assert_eq!(request.client_id, "3rl4i0ajrmtdm8sbre54p9dvd9");
            assert_eq!(request.auth_parameters.len(), 2);
            assert_eq!(request.auth_parameters[0], ("REFRESH_TOKEN".to_string(), "refresh-token".to_string()));
            assert_eq!(request.auth_parameters[1], ("DEVICE_KEY".to_string(), "device_key".to_string()));
        }
        other => panic!("unexpected check: {:?}", other),
    }
    let client = logged_in(3600, None);
    match client.refresh_tokens_if_needed_at(3_600_000) {
        Ok(TokenCheck::Refresh(request)) => assert_eq!(request.auth_parameters.len(), 1),
        other => panic!("unexpected check: {:?}", other),
    }
}

#[test]
fn expired_tokens_are_refreshed_exactly_once() {
    let mut client = logged_in(-1000, None);
    let mut provider = Provider { refreshes: 0 };
    let before = client.tokens().expect("the tokens are stored");
    assert_eq!(before.expires_at(), -1_000_000);

    let fresh = valid_tokens(&mut client, &mut provider, 10).expect("the refresh succeeds");
    assert_eq!(provider.refreshes, 1);
    assert_ne!(before.access_token(), fresh.access_token());
    assert_eq!(before.refresh_token(), fresh.refresh_token());
    assert_eq!(fresh.refresh_token(), "refresh-token");
    assert!(before.expires_at() < fresh.expires_at());
    assert_eq!(fresh.expires_at(), 3_600_010);
    assert_eq!(fresh.id_token(), "id-of-access-2");

    // The snapshot that was handed out earlier is as it was.
    assert_eq!(before.access_token(), "access-1");
    assert_eq!(client.tokens().unwrap().access_token(), "access-2");
}

#[test]
fn second_caller_finds_the_refreshed_tokens() {
    let mut client = logged_in(-1000, None);
    let mut provider = Provider { refreshes: 0 };
    let first = valid_tokens(&mut client, &mut provider, 10).unwrap();
    let second = valid_tokens(&mut client, &mut provider, 10).unwrap();
    let third = valid_tokens(&mut client, &mut provider, 3_600_009).unwrap();
    assert_eq!(provider.refreshes, 1);
    assert_eq!(first.access_token(), second.access_token());
    assert_eq!(first.access_token(), third.access_token());
    assert!(Arc::ptr_eq(&second, &third));

    let fourth = valid_tokens(&mut client, &mut provider, 3_600_010).unwrap();
    assert_eq!(provider.refreshes, 2);
    assert_eq!(fourth.access_token(), "access-3");
    assert_eq!(fourth.refresh_token(), "refresh-token");
}

#[test]
fn failed_refresh_is_told_apart_and_keeps_the_tokens() {
    let mut client = logged_in(-1000, None);
    let mut incomplete = result("access-2", 3600, false);
    incomplete.id_token = None;
    assert!(matches!(
        client.tokens_refreshed_at(Some(incomplete), 10),
        Err(ApiError::AuthenticationRefreshFailed(AuthenticationError::AuthenticationRefreshFailed))
    ));
    assert!(matches!(
        client.tokens_refreshed_at(None, 10),
        Err(ApiError::AuthenticationRefreshFailed(AuthenticationError::AuthenticationRefreshFailed))
    ));
    assert!(matches!(
        client.refresh_failed(),
        ApiError::AuthenticationRefreshFailed(AuthenticationError::AuthenticationRefreshFailed)
    ));
    assert_eq!(client.tokens().unwrap().access_token(), "access-1");
    assert!(matches!(client.refresh_tokens_if_needed_at(10), Ok(TokenCheck::Refresh(_))));
}

#[test]
fn refresh_by_the_clock_finds_fresh_tokens_valid() {
    let mut client = Client::new("Home Automation");
    client.login(user(), None);
    assert!(matches!(client.login_response(success("access-1", 3600, false)), Ok(Flow::LoggedIn(None))));
    match client.refresh_tokens_if_needed() {
        Ok(TokenCheck::Valid(tokens)) => assert_eq!(tokens.access_token(), "access-1"),
        other => panic!("unexpected check: {:?}", other),
    }
    let mut client = Client::new("Home Automation");
    client.login(user(), None);
    assert!(matches!(client.login_response(success("access-1", -1000, false)), Ok(Flow::LoggedIn(None))));
    assert!(matches!(client.refresh_tokens_if_needed(), Ok(TokenCheck::Refresh(_))));
    let fresh = client.tokens_refreshed(Some(result("access-2", 3600, false))).unwrap();
    assert_eq!(fresh.access_token(), "access-2");
    assert!(matches!(client.refresh_tokens_if_needed(), Ok(TokenCheck::Valid(_))));
}

#[test]
fn failed_login_keeps_the_tokens_of_the_last_session() {
    let mut client = logged_in(3600, None);
    client.login(User::new("other@example.com", "other"), None);
    let unsupported = AuthResponse {
        challenge_name: Some("CUSTOM_CHALLENGE".to_string()),
        challenge_parameters: None,
        session: None,
        authentication_result: None,
    };
    match client.login_response_at(unsupported, 0) {
        Err(AuthenticationError::UnsupportedChallenge(name)) => assert_eq!(name, "CUSTOM_CHALLENGE"),
        other => panic!("unexpected flow: {:?}", other),
    }
    assert_eq!(client.tokens().unwrap().access_token(), "access-1");
}

#[test]
fn device_is_untrusted_until_it_is_confirmed() {
    let mut client = Client::new("Home Automation");
    assert!(client.account_device().is_none());
    client.login(user(), None);
    assert!(client.account_device().is_none());
    assert!(matches!(
        client.login_response_at(success("access-1", 3600, true), 0),
        Ok(Flow::ConfirmDevice(_))
    ));
    match client.account_device() {
        Some(AccountDevice::Untrusted(device)) => {
            assert_eq!(device.device_key, "eu-west-1_new-device");
            assert_eq!(device.device_group_key, "new-group");
        }
        other => panic!("unexpected device: {:?}", other),
    }
    assert!(matches!(client.device_confirmed(false), Ok(Flow::LoggedIn(Some(_)))));
    match client.account_device() {
        Some(AccountDevice::Trusted(device)) => assert_eq!(device.device_key, "eu-west-1_new-device"),
        other => panic!("unexpected device: {:?}", other),
    }
    client.logout();
    assert!(client.account_device().is_none());
}

#[test]
fn sms_challenge_in_the_first_response_goes_on_with_the_code() {
    let mut client = Client::new("Home Automation");
    client.login(user(), None);
    let sms = AuthResponse {
        challenge_name: Some("SMS_MFA".to_string()),
        challenge_parameters: None,
        session: Some("s1".to_string()),
        authentication_result: None,
    };
    match client.login_response_at(sms, 0) {
        Err(AuthenticationError::NextChallenge(ChallengeRequest::SmsMfa)) => {}
        other => panic!("unexpected flow: {:?}", other),
    }
    assert_eq!(client.auth().unwrap().session().unwrap().1.as_deref(), Some("s1"));
    let answer = client
        .respond_to_challenge(ChallengeResponse::SmsMfa("654321".to_string()))
        .expect("the code is an answer");
    assert_eq!(answer.session.as_deref(), Some("s1"));
    assert_eq!(value_of(&answer.challenge_responses, "SMS_MFA_CODE"), Some("654321"));
    assert_eq!(value_of(&answer.challenge_responses, "USERNAME"), Some("example@example.com"));
    assert!(matches!(
        client.challenge_response_at(success("access-1", 60, false), 0),
        Ok(Flow::LoggedIn(None))
    ));
    assert_eq!(client.tokens().unwrap().access_token(), "access-1");
}

//! The vocabulary of the identity provider: the requests that this library
//! asks its caller to send, and the responses that the caller hands back.
//! Names of challenges and of parameters are fixed strings dictated by the
//! provider.

use crate::authentication::error::AuthenticationError;
use crate::authentication::error::AuthenticationErrorView;
use crate::authentication::parameters::ChallengeParameters;
use crate::authentication::text::same_text;
use crate::authentication::user::Tokens;
use crate::authentication::user::TokensView;
use crate::authentication::user::UntrustedDevice;
use crate::authentication::user::UntrustedDeviceView;
use vstd::prelude::*;

verus! {

/// A list of named values, in the order in which they are sent.
pub type Pairs = Seq<(Seq<char>, Seq<char>)>;

/// The authentication flows that this library starts.
#[derive(Debug, Clone, Copy, PartialEq, Eq, Structural)]
pub enum AuthFlow {
    /// `USER_SRP_AUTH`: a login with the user's password, by SRP.
    UserSrpAuth,
    /// `REFRESH_TOKEN_AUTH`: new tokens for a refresh token.
    RefreshTokenAuth,
}

/// The challenges that this library can answer.
#[derive(Debug, Clone, Copy, PartialEq, Eq, Structural)]
pub enum ChallengeKind {
    /// `PASSWORD_VERIFIER`: prove knowledge of the user's password.
    PasswordVerifier,
    /// `DEVICE_SRP_AUTH`: begin the proof of a trusted device.
    DeviceSrpAuth,
    /// `DEVICE_PASSWORD_VERIFIER`: prove knowledge of the device's secret.
    DevicePasswordVerifier,
    /// `SMS_MFA`: a code that was sent to the user's phone.
    SmsMfa,
}

impl ChallengeKind {
    /// The name by which the provider calls this challenge.
    pub open spec fn spec_name(self) -> Seq<char> {
        match self {
            ChallengeKind::PasswordVerifier => "PASSWORD_VERIFIER"@,
            ChallengeKind::DeviceSrpAuth => "DEVICE_SRP_AUTH"@,
            ChallengeKind::DevicePasswordVerifier => "DEVICE_PASSWORD_VERIFIER"@,
            ChallengeKind::SmsMfa => "SMS_MFA"@,
        }
    }

    /// The challenge that the provider calls `name`, if this library can
    /// answer it. The name is matched exactly.
    pub open spec fn spec_named(name: Seq<char>) -> Option<ChallengeKind> {
        if name == "PASSWORD_VERIFIER"@ {
            Some(ChallengeKind::PasswordVerifier)
        } else if name == "DEVICE_SRP_AUTH"@ {
            Some(ChallengeKind::DeviceSrpAuth)
        } else if name == "DEVICE_PASSWORD_VERIFIER"@ {
            Some(ChallengeKind::DevicePasswordVerifier)
        } else if name == "SMS_MFA"@ {
            Some(ChallengeKind::SmsMfa)
        } else {
            None
        }
    }

    /// The name by which the provider calls this challenge.
    pub fn name(&self) -> (name: &'static str)
        ensures
            name@ == self.spec_name(),
    {
        match self {
            ChallengeKind::PasswordVerifier => "PASSWORD_VERIFIER",
            ChallengeKind::DeviceSrpAuth => "DEVICE_SRP_AUTH",
            ChallengeKind::DevicePasswordVerifier => "DEVICE_PASSWORD_VERIFIER",
            ChallengeKind::SmsMfa => "SMS_MFA",
        }
    }

    /// The challenge that the provider calls `name`, if this library can
    /// answer it.
    pub fn named(name: &str) -> (kind: Option<ChallengeKind>)
        ensures
            kind == Self::spec_named(name@),
    {
        if same_text(name, "PASSWORD_VERIFIER") {
            Some(ChallengeKind::PasswordVerifier)
        } else if same_text(name, "DEVICE_SRP_AUTH") {
            Some(ChallengeKind::DeviceSrpAuth)
        } else if same_text(name, "DEVICE_PASSWORD_VERIFIER") {
            Some(ChallengeKind::DevicePasswordVerifier)
        } else if same_text(name, "SMS_MFA") {
            Some(ChallengeKind::SmsMfa)
        } else {
            None
        }
    }
}

/// Every challenge is found again under its own name.
pub proof fn lemma_challenge_names_round_trip(kind: ChallengeKind)
    ensures
        ChallengeKind::spec_named(kind.spec_name()) == Some(kind),
{
    reveal_strlit("PASSWORD_VERIFIER");
    reveal_strlit("DEVICE_SRP_AUTH");
    reveal_strlit("DEVICE_PASSWORD_VERIFIER");
    reveal_strlit("SMS_MFA");
    assert("PASSWORD_VERIFIER"@.len() == 17);
    assert("DEVICE_SRP_AUTH"@.len() == 15);
    assert("DEVICE_PASSWORD_VERIFIER"@.len() == 24);
    assert("SMS_MFA"@.len() == 7);
}

/// A request to begin an authentication flow.
#[derive(Debug)]
pub struct InitiateAuthRequest {
    pub auth_flow: AuthFlow,
    pub client_id: String,
    pub auth_parameters: Vec<(String, String)>,
}

/// What an [`InitiateAuthRequest`] is to the contracts.
pub struct InitiateAuthRequestView {
    pub auth_flow: AuthFlow,
    pub client_id: Seq<char>,
    pub auth_parameters: Pairs,
}

impl View for InitiateAuthRequest {
    type V = InitiateAuthRequestView;

    open spec fn view(&self) -> InitiateAuthRequestView {
        InitiateAuthRequestView {
            auth_flow: self.auth_flow,
            client_id: self.client_id@,
            auth_parameters: self.auth_parameters.deep_view(),
        }
    }
}

/// The answer to one challenge: a request to respond to it.
#[derive(Debug)]
pub struct ChallengeAnswer {
    pub challenge_name: ChallengeKind,
    /// The continuation token of the exchange that this answer belongs to.
    pub session: Option<String>,
    pub client_id: String,
    pub challenge_responses: Vec<(String, String)>,
}

/// What a [`ChallengeAnswer`] is to the contracts.
pub struct ChallengeAnswerView {
    pub challenge_name: ChallengeKind,
    pub session: Option<Seq<char>>,
    pub client_id: Seq<char>,
    pub challenge_responses: Pairs,
}

impl View for ChallengeAnswer {
    type V = ChallengeAnswerView;

    open spec fn view(&self) -> ChallengeAnswerView {
        ChallengeAnswerView {
            challenge_name: self.challenge_name,
            session: self.session.deep_view(),
            client_id: self.client_id@,
            challenge_responses: self.challenge_responses.deep_view(),
        }
    }
}

/// A request to confirm a device: to record the verifier and salt of the
/// secret that was generated for it.
#[derive(Debug)]
pub struct ConfirmDeviceRequest {
    pub device_key: String,
    /// The name under which the device is shown to the user.
    pub device_name: String,
    pub access_token: String,
    pub password_verifier: String,
    pub salt: String,
}

/// What a [`ConfirmDeviceRequest`] is to the contracts.
pub struct ConfirmDeviceRequestView {
    pub device_key: Seq<char>,
    pub device_name: Seq<char>,
    pub access_token: Seq<char>,
    pub password_verifier: Seq<char>,
    pub salt: Seq<char>,
}

impl View for ConfirmDeviceRequest {
    type V = ConfirmDeviceRequestView;

    open spec fn view(&self) -> ConfirmDeviceRequestView {
        ConfirmDeviceRequestView {
            device_key: self.device_key@,
            device_name: self.device_name@,
            access_token: self.access_token@,
            password_verifier: self.password_verifier@,
            salt: self.salt@,
        }
    }
}

impl Clone for ConfirmDeviceRequest {
    fn clone(&self) -> (copy: Self)
        ensures
            copy == *self,
    {
        Self {
            device_key: self.device_key.clone(),
            device_name: self.device_name.clone(),
            access_token: self.access_token.clone(),
            password_verifier: self.password_verifier.clone(),
            salt: self.salt.clone(),
        }
    }
}

/// A request to mark a device as remembered.
#[derive(Debug)]
pub struct UpdateDeviceStatusRequest {
    pub device_key: String,
    pub access_token: String,
}

/// What an [`UpdateDeviceStatusRequest`] is to the contracts.
pub struct UpdateDeviceStatusRequestView {
    pub device_key: Seq<char>,
    pub access_token: Seq<char>,
}

impl View for UpdateDeviceStatusRequest {
    type V = UpdateDeviceStatusRequestView;

    open spec fn view(&self) -> UpdateDeviceStatusRequestView {
        UpdateDeviceStatusRequestView {
            device_key: self.device_key@,
            access_token: self.access_token@,
        }
    }
}

/// A request to sign the user out of every device.
#[derive(Debug)]
pub struct GlobalSignOutRequest {
    pub access_token: String,
}

/// The identifiers of a device that the provider has newly issued.
#[derive(Debug)]
pub struct NewDeviceMetadata {
    pub device_key: Option<String>,
    pub device_group_key: Option<String>,
}

/// What a [`NewDeviceMetadata`] is to the contracts.
pub struct NewDeviceMetadataView {
    pub device_key: Option<Seq<char>>,
    pub device_group_key: Option<Seq<char>>,
}

impl View for NewDeviceMetadata {
    type V = NewDeviceMetadataView;

    open spec fn view(&self) -> NewDeviceMetadataView {
        NewDeviceMetadataView {
            device_key: self.device_key.deep_view(),
            device_group_key: self.device_group_key.deep_view(),
        }
    }
}

impl DeepView for NewDeviceMetadata {
    type V = NewDeviceMetadataView;

    open spec fn deep_view(&self) -> NewDeviceMetadataView {
        self@
    }
}

/// The payload of a response that ends an authentication flow.
#[derive(Debug)]
pub struct AuthenticationResult {
    pub id_token: Option<String>,
    pub access_token: Option<String>,
    pub refresh_token: Option<String>,
    /// The lifetime of the identity and access tokens, in seconds.
    pub expires_in: i32,
    pub new_device_metadata: Option<NewDeviceMetadata>,
}

/// What an [`AuthenticationResult`] is to the contracts.
pub struct AuthenticationResultView {
    pub id_token: Option<Seq<char>>,
    pub access_token: Option<Seq<char>>,
    pub refresh_token: Option<Seq<char>>,
    pub expires_in: i32,
    pub new_device_metadata: Option<NewDeviceMetadataView>,
}

impl View for AuthenticationResult {
    type V = AuthenticationResultView;

    open spec fn view(&self) -> AuthenticationResultView {
        AuthenticationResultView {
            id_token: self.id_token.deep_view(),
            access_token: self.access_token.deep_view(),
            refresh_token: self.refresh_token.deep_view(),
            expires_in: self.expires_in,
            new_device_metadata: self.new_device_metadata.deep_view(),
        }
    }
}

impl DeepView for AuthenticationResult {
    type V = AuthenticationResultView;

    open spec fn deep_view(&self) -> AuthenticationResultView {
        self@
    }
}

/// What the provider answers to a request to begin a flow or to respond to
/// a challenge: either a further challenge, by name and with parameters, or
/// the result that ends the flow.
#[derive(Debug)]
pub struct AuthResponse {
    pub challenge_name: Option<String>,
    pub challenge_parameters: Option<ChallengeParameters>,
    /// The continuation token for the next round.
    pub session: Option<String>,
    pub authentication_result: Option<AuthenticationResult>,
}

/// What an [`AuthResponse`] is to the contracts.
pub struct AuthResponseView {
    pub challenge_name: Option<Seq<char>>,
    pub challenge_parameters: Option<Map<Seq<char>, Seq<char>>>,
    pub session: Option<Seq<char>>,
    pub authentication_result: Option<AuthenticationResultView>,
}

impl View for AuthResponse {
    type V = AuthResponseView;

    open spec fn view(&self) -> AuthResponseView {
        AuthResponseView {
            challenge_name: self.challenge_name.deep_view(),
            challenge_parameters: self.challenge_parameters.deep_view(),
            session: self.session.deep_view(),
            authentication_result: self.authentication_result.deep_view(),
        }
    }
}

/// The parameters of a challenge; none where the provider sent none.
pub open spec fn parameters_or_empty(
    parameters: Option<Map<Seq<char>, Seq<char>>>,
) -> Map<Seq<char>, Seq<char>> {
    match parameters {
        Some(p) => p,
        None => Map::empty(),
    }
}

/// The device that a result newly issues: there is one where the metadata
/// names both of its keys.
pub open spec fn spec_issued_device(
    metadata: Option<NewDeviceMetadataView>,
) -> Option<UntrustedDeviceView> {
    match metadata {
        Some(
            NewDeviceMetadataView { device_key: Some(device_key), device_group_key: Some(device_group_key) },
        ) => Some(UntrustedDeviceView { device_group_key, device_key }),
        _ => None,
    }
}

/// What a response without a further challenge yields at the moment `now`:
/// the tokens and the newly issued device, if the result is there and
/// carries all three tokens.
pub open spec fn spec_completed(
    result: Option<AuthenticationResultView>,
    now: i64,
) -> Result<(TokensView, Option<UntrustedDeviceView>), AuthenticationErrorView> {
    match result {
        Some(
            AuthenticationResultView {
                id_token: Some(id_token),
                access_token: Some(access_token),
                refresh_token: Some(refresh_token),
                expires_in,
                new_device_metadata,
            },
        ) => Ok(
            (
                Tokens::spec_issued_at(id_token, access_token, refresh_token, expires_in, now),
                spec_issued_device(new_device_metadata),
            ),
        ),
        _ => Err(AuthenticationErrorView::AccessTokenNotValid),
    }
}

/// What a `Result` of tokens and device is to the contracts.
pub open spec fn completed_view(
    outcome: Result<(Tokens, Option<UntrustedDevice>), AuthenticationError>,
) -> Result<(TokensView, Option<UntrustedDeviceView>), AuthenticationErrorView> {
    match outcome {
        Ok((tokens, device)) => Ok((tokens@, device.deep_view())),
        Err(e) => Err(e@),
    }
}

/// The device that a result newly issues.
pub fn issued_device(metadata: Option<NewDeviceMetadata>) -> (device: Option<UntrustedDevice>)
    ensures
        device.deep_view() == spec_issued_device(metadata.deep_view()),
{
    match metadata {
        Some(NewDeviceMetadata { device_key: Some(device_key), device_group_key: Some(device_group_key) }) => {
            Some(UntrustedDevice { device_group_key, device_key })
        },
        _ => None,
    }
}

/// Reads the result of a response that carries no further challenge, at the
/// moment `now`: tokens that expire `expires_in` seconds after `now`, and
/// the device that was newly issued, if any. A result that is missing, or
/// that lacks one of the three tokens, is an error.
pub fn completed(result: Option<AuthenticationResult>, now: i64) -> (outcome: Result<
    (Tokens, Option<UntrustedDevice>),
    AuthenticationError,
>)
    ensures
        completed_view(outcome) == spec_completed(result.deep_view(), now),
{
    match result {
        Some(
            AuthenticationResult {
                id_token: Some(id_token),
                access_token: Some(access_token),
                refresh_token: Some(refresh_token),
                expires_in,
                new_device_metadata,
            },
        ) => {
            let device = issued_device(new_device_metadata);
            Ok((Tokens::issued_at(id_token, access_token, refresh_token, expires_in, now), device))
        },
        _ => Err(AuthenticationError::AccessTokenNotValid),
    }
}

} // verus!

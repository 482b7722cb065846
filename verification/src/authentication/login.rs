//! The first request of a login, and the state that ties its rounds
//! together.

use crate::authentication::challenge::AuthStep;
use crate::authentication::challenge::AuthStepView;
use crate::authentication::error::result_view;
use crate::authentication::error::AuthenticationError;
use crate::authentication::error::AuthenticationErrorView;
use crate::authentication::provider::parameters_or_empty;
use crate::authentication::provider::AuthResponse;
use crate::authentication::provider::AuthResponseView;
use crate::authentication::srp::user_public_value;
use crate::authentication::HiveAuth;
use crate::authentication::HiveAuthView;
use crate::authentication::SrpOutcome;
use crate::authentication::provider::AuthFlow;
use crate::authentication::provider::InitiateAuthRequest;
use crate::authentication::provider::InitiateAuthRequestView;
use crate::authentication::provider::Pairs;
use crate::authentication::text::no_pairs;
use crate::authentication::text::push_pair;
use crate::constants::CLIENT_ID;
use vstd::prelude::*;

verus! {

/// The state of a login in progress: the username that the exchange runs
/// under, and the continuation token that the provider sent last.
#[derive(Debug, Default)]
pub struct LoginSession(pub String, pub Option<String>);

/// What a [`LoginSession`] is to the contracts.
pub struct LoginSessionView {
    pub username: Seq<char>,
    pub session: Option<Seq<char>>,
}

impl View for LoginSession {
    type V = LoginSessionView;

    open spec fn view(&self) -> LoginSessionView {
        LoginSessionView { username: self.0@, session: self.1.deep_view() }
    }
}

impl DeepView for LoginSession {
    type V = LoginSessionView;

    open spec fn deep_view(&self) -> LoginSessionView {
        self@
    }
}

/// A list of named values, followed by the key of the trusted device where
/// there is one.
pub open spec fn with_device_key(pairs: Pairs, device_key: Option<Seq<char>>) -> Pairs {
    match device_key {
        Some(key) => pairs.push(("DEVICE_KEY"@, key)),
        None => pairs,
    }
}

/// Adds the key of the trusted device to a list of named values, where
/// there is one.
pub(crate) fn push_device_key(list: &mut Vec<(String, String)>, device_key: Option<&String>)
    ensures
        final(list).deep_view() == with_device_key(old(list).deep_view(), device_key.deep_view()),
{
    match device_key {
        Some(key) => {
            push_pair(list, "DEVICE_KEY", key.as_str());
        },
        None => {},
    }
}

/// The request that begins a login by SRP: the public value `a`, the
/// username, and the key of the trusted device where one is on file.
pub open spec fn spec_login_request(
    a: Seq<char>,
    username: Seq<char>,
    device_key: Option<Seq<char>>,
) -> InitiateAuthRequestView {
    InitiateAuthRequestView {
        auth_flow: AuthFlow::UserSrpAuth,
        client_id: CLIENT_ID@,
        auth_parameters: with_device_key(seq![("SRP_A"@, a), ("USERNAME"@, username)], device_key),
    }
}

/// The request that begins a login by SRP with the public value `a`.
pub fn login_request(a: &str, username: &str, device_key: Option<&String>) -> (request:
    InitiateAuthRequest)
    ensures
        request@ == spec_login_request(a@, username@, device_key.deep_view()),
{
    let mut auth_parameters = no_pairs();
    push_pair(&mut auth_parameters, "SRP_A", a);
    push_pair(&mut auth_parameters, "USERNAME", username);
    push_device_key(&mut auth_parameters, device_key);
    assert(auth_parameters.deep_view() =~= with_device_key(
        seq![("SRP_A"@, a@), ("USERNAME"@, username@)],
        device_key.deep_view(),
    ));
    InitiateAuthRequest {
        auth_flow: AuthFlow::UserSrpAuth,
        client_id: CLIENT_ID.to_owned(),
        auth_parameters,
    }
}

impl HiveAuth {
    /// The engine as a login begins: the session runs under the user's
    /// username and holds the continuation token that the provider sent,
    /// and no challenge has been answered. A login that was in progress is
    /// replaced.
    pub open spec fn spec_started(auth: HiveAuthView, session: Option<Seq<char>>) -> HiveAuthView {
        HiveAuthView {
            session: Some(LoginSessionView { username: auth.username, session }),
            rounds: 0,
            ..auth
        }
    }

    /// What the engine makes of the provider's response to the request
    /// that began a login, at the moment `now`, where the SRP capability
    /// handed back `srp`: the login begins as [`HiveAuth::spec_started`]
    /// says, and the response is treated as [`HiveAuth::spec_dispatch`]
    /// says, like the response to any answer.
    pub open spec fn spec_login_response(
        auth: HiveAuthView,
        response: AuthResponseView,
        now: i64,
        srp: SrpOutcome,
    ) -> (Result<AuthStepView, AuthenticationErrorView>, HiveAuthView) {
        Self::spec_dispatch(
            Self::spec_started(auth, response.session),
            response.challenge_name,
            response.challenge_parameters,
            response.authentication_result,
            now,
            srp,
        )
    }

    /// Takes the provider's response to the request that began a login, at
    /// the moment `now`, and decides how the login goes on. Where a
    /// challenge is answered, the answer depends on what the SRP
    /// capability drew; whatever that was, the step is
    /// [`HiveAuth::spec_login_response`] of it.
    pub fn login_response(&mut self, response: AuthResponse, now: i64) -> (step: Result<
        AuthStep,
        AuthenticationError,
    >)
        ensures
            exists|srp: SrpOutcome|
                srp.is_possible_for(parameters_or_empty(response@.challenge_parameters)) && (
                    result_view(step),
                    final(self)@,
                ) == #[trigger] Self::spec_login_response(old(self)@, response@, now, srp),
    {
        let AuthResponse { challenge_name, challenge_parameters, session, authentication_result } =
            response;
        self.session = Some(LoginSession(self.username.clone(), session));
        self.rounds = 0;
        let ghost started = self@;
        assert(started == Self::spec_started(old(self)@, response@.session));
        let step = self.dispatch(challenge_name, challenge_parameters, authentication_result, now);
        proof {
            let srp = choose|srp: SrpOutcome|
                srp.is_possible_for(parameters_or_empty(response@.challenge_parameters)) && (
                    result_view(step),
                    self@,
                ) == #[trigger] Self::spec_dispatch(
                    started,
                    response@.challenge_name,
                    response@.challenge_parameters,
                    response@.authentication_result,
                    now,
                    srp,
                );
            assert((result_view(step), self@) == Self::spec_login_response(
                old(self)@,
                response@,
                now,
                srp,
            ));
        }
        step
    }

    /// The request that begins a login: the public value of the user's SRP
    /// client, the username, and the key of the trusted device where one is
    /// on file. The public value derives from what the SRP capability drew;
    /// whatever it is, the request is [`spec_login_request`] of it.
    pub fn login(&self) -> (request: InitiateAuthRequest)
        ensures
            exists|a: Seq<char>|
                a.len() > 0 && request@ == #[trigger] spec_login_request(
                    a,
                    self@.username,
                    self@.device_key(),
                ),
    {
        let a = user_public_value(&self.user_srp);
        let device_key = match &self.device {
            Some(held) => Some(&held.device.device_key),
            None => None,
        };
        let request = login_request(a.as_str(), self.username.as_str(), device_key);
        assert(request@ == spec_login_request(a@, self@.username, self@.device_key()));
        request
    }
}

} // verus!

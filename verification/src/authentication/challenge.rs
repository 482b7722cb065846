//! The challenges of a login and the answers to them.

pub mod device_password_verifier;
pub mod device_srp_auth;
pub mod password_verifier;
pub mod sms_mfa;

use crate::authentication::error::result_view;
use crate::authentication::error::AuthenticationError;
use crate::authentication::error::AuthenticationErrorView;
use crate::authentication::login::LoginSession;
use crate::authentication::login::LoginSessionView;
use crate::authentication::parameters::ChallengeParameters;
use crate::authentication::provider::completed;
use crate::authentication::provider::parameters_or_empty;
use crate::authentication::provider::spec_completed;
use crate::authentication::provider::AuthResponse;
use crate::authentication::provider::AuthResponseView;
use crate::authentication::provider::AuthenticationResult;
use crate::authentication::provider::AuthenticationResultView;
use crate::authentication::provider::ChallengeAnswer;
use crate::authentication::provider::ChallengeAnswerView;
use crate::authentication::provider::ChallengeKind;
use crate::authentication::srp::is_claim_for;
use crate::authentication::srp::PasswordClaimView;
use crate::authentication::user::Tokens;
use crate::authentication::user::TokensView;
use crate::authentication::user::UntrustedDevice;
use crate::authentication::user::UntrustedDeviceView;
use crate::authentication::HiveAuth;
use crate::authentication::HiveAuthView;
use crate::authentication::SrpOutcome;
use crate::authentication::MAX_CHALLENGE_ROUNDS;
use aws_cognito_srp::SrpError;
use vstd::prelude::*;

verus! {

/// The Hive authentication servers have requested a challenge be responded
/// to before the authentication can be completed.
#[derive(Debug)]
#[non_exhaustive]
pub enum ChallengeRequest {
    /// A SMS MFA code has been sent to the user's phone number, and the
    /// user must enter it to continue the authentication flow. The code is
    /// six digits long.
    SmsMfa,
    /// The authentication flow has requested a password verifier
    /// challenge. This is answered without the caller.
    PasswordVerifier,
    /// The authentication flow has requested a challenge which cannot be
    /// handled; the challenge's name.
    Unsupported(String),
}

/// What a [`ChallengeRequest`] is to the contracts.
pub enum ChallengeRequestView {
    SmsMfa,
    PasswordVerifier,
    Unsupported(Seq<char>),
}

impl View for ChallengeRequest {
    type V = ChallengeRequestView;

    open spec fn view(&self) -> ChallengeRequestView {
        match self {
            ChallengeRequest::SmsMfa => ChallengeRequestView::SmsMfa,
            ChallengeRequest::PasswordVerifier => ChallengeRequestView::PasswordVerifier,
            ChallengeRequest::Unsupported(n) => ChallengeRequestView::Unsupported(n@),
        }
    }
}

/// A response to a challenge issued by the Hive authentication servers.
#[derive(Debug)]
#[non_exhaustive]
pub enum ChallengeResponse {
    /// The code that was delivered to the user's phone.
    SmsMfa(String),
    /// The parameters of a password verifier challenge.
    PasswordVerifier(ChallengeParameters),
    /// A device SRP challenge, which carries nothing.
    DeviceSrpAuth,
    /// The parameters of a device password verifier challenge.
    DevicePasswordVerifier(ChallengeParameters),
}

/// What a [`ChallengeResponse`] is to the contracts.
pub enum ChallengeResponseView {
    SmsMfa(Seq<char>),
    PasswordVerifier(Map<Seq<char>, Seq<char>>),
    DeviceSrpAuth,
    DevicePasswordVerifier(Map<Seq<char>, Seq<char>>),
}

impl View for ChallengeResponse {
    type V = ChallengeResponseView;

    open spec fn view(&self) -> ChallengeResponseView {
        match self {
            ChallengeResponse::SmsMfa(code) => ChallengeResponseView::SmsMfa(code@),
            ChallengeResponse::PasswordVerifier(p) => ChallengeResponseView::PasswordVerifier(p@),
            ChallengeResponse::DeviceSrpAuth => ChallengeResponseView::DeviceSrpAuth,
            ChallengeResponse::DevicePasswordVerifier(p) => {
                ChallengeResponseView::DevicePasswordVerifier(p@)
            },
        }
    }
}

/// What the engine asks of its caller after a response of the provider.
#[derive(Debug)]
pub enum AuthStep {
    /// Send this answer, and hand the provider's response to
    /// [`HiveAuth::handle_challenge_response`].
    Respond(ChallengeAnswer),
    /// The login has succeeded: the tokens, and the device that the
    /// provider newly issued, if any.
    Complete(Tokens, Option<UntrustedDevice>),
}

/// What an [`AuthStep`] is to the contracts.
pub enum AuthStepView {
    Respond(ChallengeAnswerView),
    Complete(TokensView, Option<UntrustedDeviceView>),
}

impl View for AuthStep {
    type V = AuthStepView;

    open spec fn view(&self) -> AuthStepView {
        match self {
            AuthStep::Respond(answer) => AuthStepView::Respond(answer@),
            AuthStep::Complete(tokens, device) => AuthStepView::Complete(tokens@, device.deep_view()),
        }
    }
}

/// The parameters of a challenge; none where the provider sent none.
pub fn parameters_of(parameters: Option<ChallengeParameters>) -> (present: ChallengeParameters)
    ensures
        present@ == parameters_or_empty(parameters.deep_view()),
{
    match parameters {
        Some(p) => p,
        None => ChallengeParameters::new(),
    }
}

impl HiveAuth {
    /// The parameters that came with the challenge that `response`
    /// answers; none for an answer that carries no proof.
    pub open spec fn spec_parameters(response: ChallengeResponseView) -> Map<Seq<char>, Seq<char>> {
        match response {
            ChallengeResponseView::PasswordVerifier(parameters) => parameters,
            ChallengeResponseView::DevicePasswordVerifier(parameters) => parameters,
            _ => Map::empty(),
        }
    }

    /// Whether the SRP capability can hand back `srp` for `response`.
    pub open spec fn possible(response: ChallengeResponseView, srp: SrpOutcome) -> bool {
        srp.is_possible_for(Self::spec_parameters(response))
    }

    /// The answer to a challenge, and the engine after it, where the SRP
    /// capability handed back `srp`.
    ///
    /// Without a login in progress there is nothing to answer. The two
    /// device challenges need a trusted device on file. Only the password
    /// verifier touches the session: it puts the provider's user id in
    /// place of the username.
    pub open spec fn spec_respond(
        auth: HiveAuthView,
        response: ChallengeResponseView,
        srp: SrpOutcome,
    ) -> (Result<ChallengeAnswerView, AuthenticationErrorView>, HiveAuthView) {
        match auth.session {
            None => (Err(AuthenticationErrorView::NoAuthenticationInProgress), auth),
            Some(session) => match response {
                ChallengeResponseView::PasswordVerifier(parameters) => {
                    let (answer, next) = password_verifier::spec_respond(
                        session,
                        auth.device_key(),
                        parameters,
                        srp.claim,
                    );
                    (answer, HiveAuthView { session: Some(next), ..auth })
                },
                ChallengeResponseView::DeviceSrpAuth => match auth.device {
                    Some(device) => (
                        Ok(device_srp_auth::spec_answer(session, device.device_key, srp.public_value)),
                        auth,
                    ),
                    None => (Err(AuthenticationErrorView::NoAuthenticationInProgress), auth),
                },
                ChallengeResponseView::DevicePasswordVerifier(parameters) => match auth.device {
                    Some(device) => (
                        device_password_verifier::spec_respond(
                            session,
                            device.device_key,
                            parameters,
                            srp.claim,
                        ),
                        auth,
                    ),
                    None => (Err(AuthenticationErrorView::NoAuthenticationInProgress), auth),
                },
                ChallengeResponseView::SmsMfa(code) => (
                    Ok(sms_mfa::spec_answer(session, auth.device_key(), code)),
                    auth,
                ),
            },
        }
    }

    /// An answer as the step that sends it; a failure as it is.
    pub open spec fn spec_step(
        outcome: (Result<ChallengeAnswerView, AuthenticationErrorView>, HiveAuthView),
    ) -> (Result<AuthStepView, AuthenticationErrorView>, HiveAuthView) {
        match outcome.0 {
            Ok(answer) => (Ok(AuthStepView::Respond(answer)), outcome.1),
            Err(e) => (Err(e), outcome.1),
        }
    }

    /// The end of a login at the moment `now`, by a response that names no
    /// further challenge: the tokens where the result is complete, an error
    /// where it is not. Either way the session is discarded.
    pub open spec fn spec_finish(
        auth: HiveAuthView,
        result: Option<AuthenticationResultView>,
        now: i64,
    ) -> (Result<AuthStepView, AuthenticationErrorView>, HiveAuthView) {
        let ended = HiveAuthView { session: None, ..auth };
        match spec_completed(result, now) {
            Ok((tokens, device)) => (Ok(AuthStepView::Complete(tokens, device)), ended),
            Err(e) => (Err(e), ended),
        }
    }

    /// One more challenge answered by the engine itself: the challenge
    /// that the provider calls `name` is answered with `asked`, unless the
    /// login has answered [`MAX_CHALLENGE_ROUNDS`] challenges already. Then
    /// the login ends, and the challenge is reported as unsupported.
    pub open spec fn spec_round(
        auth: HiveAuthView,
        name: Seq<char>,
        asked: ChallengeResponseView,
        srp: SrpOutcome,
    ) -> (Result<AuthStepView, AuthenticationErrorView>, HiveAuthView) {
        if auth.rounds >= MAX_CHALLENGE_ROUNDS {
            (
                Err(AuthenticationErrorView::UnsupportedChallenge(name)),
                HiveAuthView { session: None, ..auth },
            )
        } else {
            Self::spec_step(Self::spec_respond(auth.counting(), asked, srp))
        }
    }

    /// What the engine makes of a response of the provider, at the moment
    /// `now`, where the SRP capability handed back `srp`. It is the same
    /// for the response to the request that began the login and for the
    /// response to any answer.
    ///
    /// A response without a challenge ends the login. The password
    /// verifier and the two device challenges are answered at once, as
    /// [`HiveAuth::spec_round`] says. An SMS challenge is handed to the
    /// caller and leaves the login in progress. A challenge of any other
    /// name ends the login as unsupported.
    pub open spec fn spec_dispatch(
        auth: HiveAuthView,
        challenge_name: Option<Seq<char>>,
        challenge_parameters: Option<Map<Seq<char>, Seq<char>>>,
        authentication_result: Option<AuthenticationResultView>,
        now: i64,
        srp: SrpOutcome,
    ) -> (Result<AuthStepView, AuthenticationErrorView>, HiveAuthView) {
        let parameters = parameters_or_empty(challenge_parameters);
        match challenge_name {
            None => Self::spec_finish(auth, authentication_result, now),
            Some(name) => match ChallengeKind::spec_named(name) {
                Some(ChallengeKind::SmsMfa) => (
                    Err(AuthenticationErrorView::NextChallenge(ChallengeRequestView::SmsMfa)),
                    auth,
                ),
                Some(ChallengeKind::PasswordVerifier) => Self::spec_round(
                    auth,
                    name,
                    ChallengeResponseView::PasswordVerifier(parameters),
                    srp,
                ),
                Some(ChallengeKind::DeviceSrpAuth) => Self::spec_round(
                    auth,
                    name,
                    ChallengeResponseView::DeviceSrpAuth,
                    srp,
                ),
                Some(ChallengeKind::DevicePasswordVerifier) => Self::spec_round(
                    auth,
                    name,
                    ChallengeResponseView::DevicePasswordVerifier(parameters),
                    srp,
                ),
                None => (
                    Err(AuthenticationErrorView::UnsupportedChallenge(name)),
                    HiveAuthView { session: None, ..auth },
                ),
            },
        }
    }

    /// The engine with the continuation token of a response in its
    /// session: the provider ties the rounds of one exchange together by
    /// this token, so the next answer has to carry it.
    pub open spec fn spec_continued(auth: HiveAuthView, session: Option<Seq<char>>) -> HiveAuthView {
        match auth.session {
            Some(before) => HiveAuthView {
                session: Some(LoginSessionView { username: before.username, session }),
                ..auth
            },
            None => auth,
        }
    }

    /// What the engine makes of the provider's response to an answer, at
    /// the moment `now`, where the SRP capability handed back `srp`.
    /// Without a login in progress there is nothing to go on with;
    /// otherwise the session takes the continuation token of the response,
    /// and the response is treated as [`HiveAuth::spec_dispatch`] says.
    pub open spec fn spec_handle_challenge_response(
        auth: HiveAuthView,
        response: AuthResponseView,
        now: i64,
        srp: SrpOutcome,
    ) -> (Result<AuthStepView, AuthenticationErrorView>, HiveAuthView) {
        match auth.session {
            None => (Err(AuthenticationErrorView::NoAuthenticationInProgress), auth),
            Some(_) => Self::spec_dispatch(
                Self::spec_continued(auth, response.session),
                response.challenge_name,
                response.challenge_parameters,
                response.authentication_result,
                now,
                srp,
            ),
        }
    }

    /// Ends the login with what a response without a challenge carries.
    pub(crate) fn finish(&mut self, result: Option<AuthenticationResult>, now: i64) -> (step: Result<
        AuthStep,
        AuthenticationError,
    >)
        ensures
            (result_view(step), final(self)@) == Self::spec_finish(
                old(self)@,
                result.deep_view(),
                now,
            ),
    {
        self.session = None;
        match completed(result, now) {
            Ok((tokens, device)) => Ok(AuthStep::Complete(tokens, device)),
            Err(e) => Err(e),
        }
    }

    /// Answers the challenge that the provider calls `name`, as one more
    /// round of the login, or ends the login where it has answered enough.
    pub(crate) fn round(&mut self, name: String, challenge_response: ChallengeResponse) -> (step:
        Result<AuthStep, AuthenticationError>)
        ensures
            exists|srp: SrpOutcome|
                Self::possible(challenge_response@, srp) && (result_view(step), final(self)@)
                    == #[trigger] Self::spec_round(old(self)@, name@, challenge_response@, srp),
    {
        if self.rounds >= MAX_CHALLENGE_ROUNDS {
            self.session = None;
            let step = Err(AuthenticationError::UnsupportedChallenge(name));
            assert((result_view::<AuthStep>(step), self@) == Self::spec_round(
                old(self)@,
                name@,
                challenge_response@,
                SrpOutcome::unused(),
            ));
            step
        } else {
            self.rounds = self.rounds + 1;
            let ghost counted = self@;
            let answer = self.respond_to_challenge(challenge_response);
            proof {
                let srp = choose|srp: SrpOutcome|
                    Self::possible(challenge_response@, srp) && (result_view(answer), self@)
                        == #[trigger] Self::spec_respond(counted, challenge_response@, srp);
                assert(Self::spec_round(old(self)@, name@, challenge_response@, srp)
                    == Self::spec_step((result_view(answer), self@)));
            }
            match answer {
                Ok(answer) => Ok(AuthStep::Respond(answer)),
                Err(e) => Err(e),
            }
        }
    }

    /// Decides what a response of the provider means for the login.
    pub(crate) fn dispatch(
        &mut self,
        challenge_name: Option<String>,
        challenge_parameters: Option<ChallengeParameters>,
        authentication_result: Option<AuthenticationResult>,
        now: i64,
    ) -> (step: Result<AuthStep, AuthenticationError>)
        ensures
            exists|srp: SrpOutcome|
                srp.is_possible_for(parameters_or_empty(challenge_parameters.deep_view())) && (
                    result_view(step),
                    final(self)@,
                ) == #[trigger] Self::spec_dispatch(
                    old(self)@,
                    challenge_name.deep_view(),
                    challenge_parameters.deep_view(),
                    authentication_result.deep_view(),
                    now,
                    srp,
                ),
    {
        let ghost wanted = |srp: SrpOutcome|
            Self::spec_dispatch(
                old(self)@,
                challenge_name.deep_view(),
                challenge_parameters.deep_view(),
                authentication_result.deep_view(),
                now,
                srp,
            );
        match challenge_name {
            None => {
                let step = self.finish(authentication_result, now);
                assert((result_view(step), self@) == wanted(SrpOutcome::unused()));
                step
            },
            Some(name) => {
                let ghost named = name@;
                match ChallengeKind::named(name.as_str()) {
                    Some(ChallengeKind::SmsMfa) => {
                        let step = Err(AuthenticationError::NextChallenge(ChallengeRequest::SmsMfa));
                        assert((result_view::<AuthStep>(step), self@) == wanted(
                            SrpOutcome::unused(),
                        ));
                        step
                    },
                    Some(ChallengeKind::PasswordVerifier) => {
                        let parameters = parameters_of(challenge_parameters);
                        let ghost asked = ChallengeResponseView::PasswordVerifier(parameters@);
                        let step = self.round(name, ChallengeResponse::PasswordVerifier(parameters));
                        proof {
                            let srp = choose|srp: SrpOutcome|
                                Self::possible(asked, srp) && (result_view(step), self@)
                                    == #[trigger] Self::spec_round(old(self)@, named, asked, srp);
                            assert((result_view(step), self@) == wanted(srp));
                        }
                        step
                    },
                    Some(ChallengeKind::DeviceSrpAuth) => {
                        let ghost asked = ChallengeResponseView::DeviceSrpAuth;
                        let step = self.round(name, ChallengeResponse::DeviceSrpAuth);
                        proof {
                            let srp = choose|srp: SrpOutcome|
                                Self::possible(asked, srp) && (result_view(step), self@)
                                    == #[trigger] Self::spec_round(old(self)@, named, asked, srp);
                            // This challenge asks for no proof, so none was computed.
                            assert(srp.claim is Err);
                            assert((result_view(step), self@) == wanted(srp));
                        }
                        step
                    },
                    Some(ChallengeKind::DevicePasswordVerifier) => {
                        let parameters = parameters_of(challenge_parameters);
                        let ghost asked = ChallengeResponseView::DevicePasswordVerifier(parameters@);
                        let step = self.round(
                            name,
                            ChallengeResponse::DevicePasswordVerifier(parameters),
                        );
                        proof {
                            let srp = choose|srp: SrpOutcome|
                                Self::possible(asked, srp) && (result_view(step), self@)
                                    == #[trigger] Self::spec_round(old(self)@, named, asked, srp);
                            assert((result_view(step), self@) == wanted(srp));
                        }
                        step
                    },
                    None => {
                        self.session = None;
                        let step = Err(AuthenticationError::UnsupportedChallenge(name));
                        assert((result_view::<AuthStep>(step), self@) == wanted(
                            SrpOutcome::unused(),
                        ));
                        step
                    },
                }
            },
        }
    }

    /// Takes the provider's response to an answer, at the moment `now`, and
    /// decides how the login goes on. Where a challenge is answered, the
    /// answer depends on what the SRP capability drew; whatever that was,
    /// the step is [`HiveAuth::spec_handle_challenge_response`] of it.
    pub fn handle_challenge_response(&mut self, response: AuthResponse, now: i64) -> (step: Result<
        AuthStep,
        AuthenticationError,
    >)
        ensures
            exists|srp: SrpOutcome|
                srp.is_possible_for(parameters_or_empty(response@.challenge_parameters)) && (
                    result_view(step),
                    final(self)@,
                ) == #[trigger] Self::spec_handle_challenge_response(old(self)@, response@, now, srp),
    {
        let AuthResponse { challenge_name, challenge_parameters, session, authentication_result } =
            response;
        let taken = self.session.take();
        match taken {
            None => {
                assert((
                    Err::<AuthStepView, AuthenticationErrorView>(
                        AuthenticationErrorView::NoAuthenticationInProgress,
                    ),
                    self@,
                ) == Self::spec_handle_challenge_response(
                    old(self)@,
                    response@,
                    now,
                    SrpOutcome::unused(),
                ));
                Err(AuthenticationError::NoAuthenticationInProgress)
            },
            Some(before) => {
                self.session = Some(LoginSession(before.0, session));
                let ghost continued = self@;
                assert(continued == Self::spec_continued(old(self)@, response@.session));
                let step = self.dispatch(
                    challenge_name,
                    challenge_parameters,
                    authentication_result,
                    now,
                );
                proof {
                    let srp = choose|srp: SrpOutcome|
                        srp.is_possible_for(parameters_or_empty(response@.challenge_parameters)) && (
                            result_view(step),
                            self@,
                        ) == #[trigger] Self::spec_dispatch(
                            continued,
                            response@.challenge_name,
                            response@.challenge_parameters,
                            response@.authentication_result,
                            now,
                            srp,
                        );
                    assert((result_view(step), self@) == Self::spec_handle_challenge_response(
                        old(self)@,
                        response@,
                        now,
                        srp,
                    ));
                }
                step
            },
        }
    }

    /// Builds the answer to a challenge of the login in progress. Where the
    /// answer needs the SRP capability, it depends on what the capability
    /// drew; whatever that was, the round went as [`HiveAuth::spec_respond`]
    /// says for it.
    pub fn respond_to_challenge(&mut self, challenge_response: ChallengeResponse) -> (answer: Result<
        ChallengeAnswer,
        AuthenticationError,
    >)
        ensures
            exists|srp: SrpOutcome|
                Self::possible(challenge_response@, srp) && (result_view(answer), final(self)@)
                    == #[trigger] Self::spec_respond(old(self)@, challenge_response@, srp),
    {
        let ghost none = SrpOutcome::unused();
        let ghost refused = (
            Err::<ChallengeAnswerView, AuthenticationErrorView>(
                AuthenticationErrorView::NoAuthenticationInProgress,
            ),
            old(self)@,
        );
        let taken = self.session.take();
        match taken {
            None => {
                assert(refused == Self::spec_respond(old(self)@, challenge_response@, none));
                Err(AuthenticationError::NoAuthenticationInProgress)
            },
            Some(mut session) => {
                let ghost before = session@;
                let answer = match challenge_response {
                    ChallengeResponse::PasswordVerifier(parameters) => {
                        let device_key = match &self.device {
                            Some(held) => Some(&held.device.device_key),
                            None => None,
                        };
                        let answer = password_verifier::respond_to_challenge(
                            &self.user_srp,
                            device_key,
                            &mut session,
                            &parameters,
                        );
                        proof {
                            let claim = choose|claim: Result<PasswordClaimView, SrpError>|
                                is_claim_for(claim, parameters@) && (result_view(answer), session@)
                                    == #[trigger] password_verifier::spec_respond(
                                    before,
                                    device_key.deep_view(),
                                    parameters@,
                                    claim,
                                );
                            let srp = SrpOutcome { public_value: none.public_value, claim };
                            assert(Self::possible(challenge_response@, srp));
                            assert((
                                result_view(answer),
                                (HiveAuthView { session: Some(session@), ..old(self)@ }),
                            ) == Self::spec_respond(old(self)@, challenge_response@, srp));
                        }
                        answer
                    },
                    ChallengeResponse::DeviceSrpAuth => match &self.device {
                        Some(held) => {
                            let answer = device_srp_auth::handle_challenge(
                                &held.srp,
                                &held.device.device_key,
                                &session,
                            );
                            proof {
                                let a = choose|a: Seq<char>|
                                    a.len() > 0 && answer@ == #[trigger] device_srp_auth::spec_answer(
                                        session@,
                                        held.device.device_key@,
                                        a,
                                    );
                                let srp = SrpOutcome { public_value: a, claim: none.claim };
                                assert(Self::possible(challenge_response@, srp));
                                assert((
                                    Ok::<ChallengeAnswerView, AuthenticationErrorView>(answer@),
                                    old(self)@,
                                ) == Self::spec_respond(old(self)@, challenge_response@, srp));
                            }
                            Ok(answer)
                        },
                        None => {
                            assert(refused == Self::spec_respond(
                                old(self)@,
                                challenge_response@,
                                none,
                            ));
                            Err(AuthenticationError::NoAuthenticationInProgress)
                        },
                    },
                    ChallengeResponse::DevicePasswordVerifier(parameters) => match &self.device {
                        Some(held) => {
                            let answer = device_password_verifier::handle_challenge(
                                &held.srp,
                                &held.device.device_key,
                                &session,
                                &parameters,
                            );
                            proof {
                                let claim = choose|claim: Result<PasswordClaimView, SrpError>|
                                    is_claim_for(claim, parameters@) && result_view(answer)
                                        == #[trigger] device_password_verifier::spec_respond(
                                        session@,
                                        held.device.device_key@,
                                        parameters@,
                                        claim,
                                    );
                                let srp = SrpOutcome { public_value: none.public_value, claim };
                                assert(Self::possible(challenge_response@, srp));
                                assert((result_view(answer), old(self)@) == Self::spec_respond(
                                    old(self)@,
                                    challenge_response@,
                                    srp,
                                ));
                            }
                            answer
                        },
                        None => {
                            assert(refused == Self::spec_respond(
                                old(self)@,
                                challenge_response@,
                                none,
                            ));
                            Err(AuthenticationError::NoAuthenticationInProgress)
                        },
                    },
                    ChallengeResponse::SmsMfa(code) => {
                        let device_key = match &self.device {
                            Some(held) => Some(&held.device.device_key),
                            None => None,
                        };
                        let answer = sms_mfa::handle_challenge(device_key, &session, code.as_str());
                        assert((
                            Ok::<ChallengeAnswerView, AuthenticationErrorView>(answer@),
                            old(self)@,
                        ) == Self::spec_respond(old(self)@, challenge_response@, none));
                        Ok(answer)
                    },
                };
                self.session = Some(session);
                answer
            },
        }
    }
}

} // verus!

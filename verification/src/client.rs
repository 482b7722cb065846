//! The client: one user's engine, the tokens of the session, and the steps
//! that lead from a login to both.
//!
//! Every method takes the client by exclusive reference or leaves it
//! unchanged, so a caller that shares a client behind a lock serialises its
//! users: one round of a login, and one refresh, at a time.

use crate::api::ApiError;
use crate::api::ApiErrorView;
use crate::authentication::challenge::AuthStep;
use crate::authentication::challenge::AuthStepView;
use crate::authentication::challenge::ChallengeResponse;
use crate::authentication::challenge::ChallengeResponseView;
use crate::authentication::clock::now_millis;
use crate::authentication::confirm_device::already_trusted;
use crate::authentication::confirm_device::confirmation_view;
use crate::authentication::confirm_device::spec_confirm_device;
use crate::authentication::confirm_device::spec_device_confirmed;
use crate::authentication::confirm_device::ConfirmationStep;
use crate::authentication::confirm_device::ConfirmationStepView;
use crate::authentication::confirm_device::DeviceConfirmation;
use crate::authentication::confirm_device::DeviceConfirmationView;
use crate::authentication::device::AccountDevice;
use crate::authentication::device::AccountDeviceView;
use crate::authentication::error::result_view;
use crate::authentication::error::AuthenticationError;
use crate::authentication::error::AuthenticationErrorView;
use crate::authentication::error::DeviceConfirmationError;
use crate::authentication::login::spec_login_request;
use crate::authentication::provider::parameters_or_empty;
use crate::authentication::provider::AuthResponse;
use crate::authentication::provider::AuthResponseView;
use crate::authentication::provider::AuthenticationResult;
use crate::authentication::provider::AuthenticationResultView;
use crate::authentication::provider::ChallengeAnswer;
use crate::authentication::provider::ChallengeAnswerView;
use crate::authentication::provider::ConfirmDeviceRequest;
use crate::authentication::provider::ConfirmDeviceRequestView;
use crate::authentication::provider::InitiateAuthRequest;
use crate::authentication::provider::InitiateAuthRequestView;
use crate::authentication::provider::UpdateDeviceStatusRequest;
use crate::authentication::provider::UpdateDeviceStatusRequestView;
use crate::authentication::refresh::refreshed;
use crate::authentication::refresh::spec_refresh_request;
use crate::authentication::refresh::spec_refreshed;
use crate::authentication::srp::DeviceVerifierView;
use crate::authentication::user::Tokens;
use crate::authentication::user::TokensView;
use crate::authentication::user::TrustedDevice;
use crate::authentication::user::TrustedDeviceView;
use crate::authentication::user::UntrustedDeviceView;
use crate::authentication::user::User;
use crate::authentication::HiveAuth;
use crate::authentication::HiveAuthView;
use crate::authentication::SrpOutcome;
use std::sync::Arc;
use vstd::prelude::*;

verus! {

/// Calls `Arc::clone`: one more handle to the same value.
#[verifier::external_body]
fn share(tokens: &Arc<Tokens>) -> (shared: Arc<Tokens>)
    ensures
        shared == *tokens,
{
    Arc::clone(tokens)
}

/// A login that has its tokens and waits for its device to be confirmed.
pub struct PendingLogin {
    tokens: Tokens,
    confirmation: DeviceConfirmation,
}

/// What a [`PendingLogin`] is to the contracts.
pub struct PendingLoginView {
    pub tokens: TokensView,
    pub confirmation: DeviceConfirmationView,
}

impl View for PendingLogin {
    type V = PendingLoginView;

    closed spec fn view(&self) -> PendingLoginView {
        PendingLoginView { tokens: self.tokens@, confirmation: self.confirmation@ }
    }
}

impl DeepView for PendingLogin {
    type V = PendingLoginView;

    open spec fn deep_view(&self) -> PendingLoginView {
        self@
    }
}

/// Everything that the outside hands back in one step of a login: what
/// the SRP capability computed for an answer, and what it generated for a
/// device.
pub struct Outside {
    pub srp: SrpOutcome,
    pub generated: DeviceVerifierView,
}

impl Outside {
    /// Whether the outside can hand this back in a step whose challenge
    /// came with `parameters`: see [`SrpOutcome::is_possible_for`] and
    /// [`DeviceVerifierView::is_generated`].
    pub open spec fn is_possible_for(self, parameters: Map<Seq<char>, Seq<char>>) -> bool {
        self.srp.is_possible_for(parameters) && self.generated.is_generated()
    }
}

/// What the client asks of its caller in the course of a login.
#[derive(Debug)]
pub enum Flow {
    /// Send this answer, and hand the provider's response to
    /// [`Client::challenge_response`].
    Respond(ChallengeAnswer),
    /// Send this request, and tell the client of the outcome with
    /// [`Client::device_confirmed`] or
    /// [`Client::device_confirmation_failed`].
    ConfirmDevice(ConfirmDeviceRequest),
    /// Send this request, and tell the client of the outcome with
    /// [`Client::device_status_updated`] or
    /// [`Client::device_confirmation_failed`].
    UpdateDeviceStatus(UpdateDeviceStatusRequest),
    /// The user is logged in; the trusted device on file, if any.
    LoggedIn(Option<TrustedDevice>),
}

/// What a [`Flow`] is to the contracts.
pub enum FlowView {
    Respond(ChallengeAnswerView),
    ConfirmDevice(ConfirmDeviceRequestView),
    UpdateDeviceStatus(UpdateDeviceStatusRequestView),
    LoggedIn(Option<TrustedDeviceView>),
}

impl View for Flow {
    type V = FlowView;

    open spec fn view(&self) -> FlowView {
        match self {
            Flow::Respond(answer) => FlowView::Respond(answer@),
            Flow::ConfirmDevice(request) => FlowView::ConfirmDevice(request@),
            Flow::UpdateDeviceStatus(request) => FlowView::UpdateDeviceStatus(request@),
            Flow::LoggedIn(device) => FlowView::LoggedIn(device.deep_view()),
        }
    }
}

/// What a call that needs tokens finds in the client.
#[derive(Debug)]
pub enum TokenCheck {
    /// Tokens that have not expired: a snapshot that stays as it is
    /// whatever happens to the client.
    Valid(Arc<Tokens>),
    /// The tokens have expired. Send this request while no one else can
    /// reach the client, and hand the result to
    /// [`Client::tokens_refreshed`].
    Refresh(InitiateAuthRequest),
}

/// What a [`TokenCheck`] is to the contracts.
pub enum TokenCheckView {
    Valid(TokensView),
    Refresh(InitiateAuthRequestView),
}

impl View for TokenCheck {
    type V = TokenCheckView;

    open spec fn view(&self) -> TokenCheckView {
        match self {
            TokenCheck::Valid(tokens) => TokenCheckView::Valid(tokens@),
            TokenCheck::Refresh(request) => TokenCheckView::Refresh(request@),
        }
    }
}

/// Client used to authenticate and interact with Hive.
pub struct Client {
    auth: Option<HiveAuth>,
    tokens: Option<Arc<Tokens>>,
    pending: Option<PendingLogin>,
    friendly_name: String,
}

/// What a [`Client`] is to the contracts.
pub struct ClientView {
    /// The engine of the user who logged in last.
    pub auth: Option<HiveAuthView>,
    /// The tokens of the session.
    pub tokens: Option<TokensView>,
    /// The login that waits for its device to be confirmed.
    pub pending: Option<PendingLoginView>,
    /// The name under which a newly confirmed device is shown to the user.
    pub friendly_name: Seq<char>,
}

impl View for Client {
    type V = ClientView;

    closed spec fn view(&self) -> ClientView {
        ClientView {
            auth: match self.auth {
                Some(auth) => Some(auth@),
                None => None,
            },
            tokens: match self.tokens {
                Some(tokens) => Some(tokens@),
                None => None,
            },
            pending: self.pending.deep_view(),
            friendly_name: self.friendly_name@,
        }
    }
}

/// What the outcome of a step of a login is to the contracts.
pub open spec fn flow_view(outcome: Result<Flow, AuthenticationError>) -> Result<
    FlowView,
    AuthenticationErrorView,
> {
    match outcome {
        Ok(flow) => Ok(flow@),
        Err(e) => Err(e@),
    }
}

/// What the outcome of a look at the tokens is to the contracts.
pub open spec fn check_view(outcome: Result<TokenCheck, ApiError>) -> Result<
    TokenCheckView,
    ApiErrorView,
> {
    match outcome {
        Ok(check) => Ok(check@),
        Err(e) => Err(e@),
    }
}

/// What the outcome of a refresh is to the contracts.
pub open spec fn refresh_view(outcome: Result<Arc<Tokens>, ApiError>) -> Result<
    TokensView,
    ApiErrorView,
> {
    match outcome {
        Ok(tokens) => Ok(tokens@),
        Err(e) => Err(e@),
    }
}

impl Client {
    /// Create a new client. The friendly name is the name under which the
    /// client is shown to the user once it has been confirmed as a trusted
    /// device.
    #[must_use]
    pub fn new(friendly_name: &str) -> (client: Self)
        ensures
            client@ == (ClientView {
                auth: None,
                tokens: None,
                pending: None,
                friendly_name: friendly_name@,
            }),
    {
        Self { auth: None, tokens: None, pending: None, friendly_name: friendly_name.to_owned() }
    }

    /// The client after a step of the engine, and what it asks of its
    /// caller next, where the SRP capability generated `generated` for a new
    /// device.
    ///
    /// A success without a new device stores the tokens. A success with a
    /// new device begins its confirmation and holds the tokens back until
    /// the device is confirmed; where the confirmation is refused the
    /// login fails and the tokens are dropped.
    pub open spec fn spec_after_step(
        client: ClientView,
        auth: HiveAuthView,
        step: Result<AuthStepView, AuthenticationErrorView>,
        generated: DeviceVerifierView,
    ) -> (Result<FlowView, AuthenticationErrorView>, ClientView) {
        let moved = ClientView { auth: Some(auth), ..client };
        match step {
            Err(e) => (Err(e), moved),
            Ok(AuthStepView::Respond(answer)) => (Ok(FlowView::Respond(answer)), moved),
            Ok(AuthStepView::Complete(tokens, None)) => (
                Ok(FlowView::LoggedIn(auth.device)),
                ClientView { tokens: Some(tokens), pending: None, ..moved },
            ),
            Ok(AuthStepView::Complete(tokens, Some(device))) => match spec_confirm_device(
                auth,
                client.friendly_name,
                device,
                tokens.access_token,
                generated,
            ) {
                Ok(confirmation) => (
                    Ok(FlowView::ConfirmDevice(confirmation.request)),
                    ClientView {
                        pending: Some(PendingLoginView { tokens, confirmation }),
                        ..moved
                    },
                ),
                Err(e) => (Err(e), moved),
            },
        }
    }

    /// What the client makes of a response of the provider at the moment
    /// `now`: of the response to the request that began a login where
    /// `first` holds, of the response to an answer otherwise. Without an
    /// engine no login is in progress; with one, the engine decides, and
    /// the client follows as [`Client::spec_after_step`] says.
    pub open spec fn spec_response(
        client: ClientView,
        response: AuthResponseView,
        now: i64,
        outside: Outside,
        first: bool,
    ) -> (Result<FlowView, AuthenticationErrorView>, ClientView) {
        match client.auth {
            None => (Err(AuthenticationErrorView::NoAuthenticationInProgress), client),
            Some(auth) => {
                let (step, after) = if first {
                    HiveAuth::spec_login_response(auth, response, now, outside.srp)
                } else {
                    HiveAuth::spec_handle_challenge_response(auth, response, now, outside.srp)
                };
                Self::spec_after_step(client, after, step, outside.generated)
            },
        }
    }

    /// What the client makes of the provider's response to the request
    /// that began a login, at the moment `now`.
    pub open spec fn spec_login_response(
        client: ClientView,
        response: AuthResponseView,
        now: i64,
        outside: Outside,
    ) -> (Result<FlowView, AuthenticationErrorView>, ClientView) {
        Self::spec_response(client, response, now, outside, true)
    }

    /// What the client makes of the provider's response to an answer, at
    /// the moment `now`.
    pub open spec fn spec_challenge_response(
        client: ClientView,
        response: AuthResponseView,
        now: i64,
        outside: Outside,
    ) -> (Result<FlowView, AuthenticationErrorView>, ClientView) {
        Self::spec_response(client, response, now, outside, false)
    }

    /// The answer to a challenge that the caller responds to, and the
    /// client after it. Without an engine, as without a session, no login
    /// is in progress.
    pub open spec fn spec_respond(
        client: ClientView,
        response: ChallengeResponseView,
        srp: SrpOutcome,
    ) -> (Result<ChallengeAnswerView, AuthenticationErrorView>, ClientView) {
        match client.auth {
            None => (Err(AuthenticationErrorView::NoAuthenticationInProgress), client),
            Some(auth) => {
                let (answer, after) = HiveAuth::spec_respond(auth, response, srp);
                (answer, ClientView { auth: Some(after), ..client })
            },
        }
    }

    /// What follows the provider's agreement to the confirmation that the
    /// pending login waits for, and the client after it: either the status
    /// update that the provider asks for, or the end of the login, with
    /// the device on file as trusted and the tokens stored.
    pub open spec fn spec_device_confirmed(
        client: ClientView,
        user_confirmation_necessary: bool,
    ) -> (Result<FlowView, AuthenticationErrorView>, ClientView) {
        match (client.pending, client.auth) {
            (Some(pending), Some(auth)) => {
                let (step, after) = spec_device_confirmed(
                    auth,
                    pending.confirmation,
                    user_confirmation_necessary,
                );
                match step {
                    ConfirmationStepView::UpdateStatus(request, _) => (
                        Ok(FlowView::UpdateDeviceStatus(request)),
                        client,
                    ),
                    ConfirmationStepView::Trusted(device) => (
                        Ok(FlowView::LoggedIn(Some(device))),
                        ClientView {
                            auth: Some(after),
                            tokens: Some(pending.tokens),
                            pending: None,
                            ..client
                        },
                    ),
                }
            },
            _ => (Err(AuthenticationErrorView::NoAuthenticationInProgress), client),
        }
    }

    /// Starts a login of `user`, with `trusted_device` on file, and builds
    /// the request that begins it. The login that was under way, if any,
    /// is replaced; the tokens of the last session stay until this login
    /// succeeds.
    pub fn login(&mut self, user: User, trusted_device: Option<TrustedDevice>) -> (request:
        InitiateAuthRequest)
        ensures
            final(self)@ == (ClientView {
                auth: Some(HiveAuth::spec_new(user@, trusted_device.deep_view())),
                pending: None,
                ..old(self)@
            }),
            exists|a: Seq<char>|
                a.len() > 0 && request@ == #[trigger] spec_login_request(
                    a,
                    user@.username,
                    final(self)@.auth->0.device_key(),
                ),
    {
        let auth = HiveAuth::new(&user, trusted_device.as_ref());
        let request = auth.login();
        self.auth = Some(auth);
        self.pending = None;
        request
    }

    /// Takes a step of the engine into the client.
    fn after_step(&mut self, auth: HiveAuth, step: Result<AuthStep, AuthenticationError>) -> (flow:
        Result<Flow, AuthenticationError>)
        ensures
            exists|generated: DeviceVerifierView|
                generated.is_generated() && (flow_view(flow), final(self)@)
                    == #[trigger] Self::spec_after_step(
                    old(self)@,
                    auth@,
                    result_view(step),
                    generated,
                ),
    {
        let ghost none = DeviceVerifierView::unused();
        let ghost client = self@;
        match step {
            Err(e) => {
                self.auth = Some(auth);
                assert((flow_view(Err(e)), self@) == Self::spec_after_step(
                    client,
                    auth@,
                    result_view(step),
                    none,
                ));
                Err(e)
            },
            Ok(AuthStep::Respond(answer)) => {
                self.auth = Some(auth);
                assert((flow_view(Ok(Flow::Respond(answer))), self@) == Self::spec_after_step(
                    client,
                    auth@,
                    result_view(step),
                    none,
                ));
                Ok(Flow::Respond(answer))
            },
            Ok(AuthStep::Complete(tokens, None)) => {
                let device = match auth.trusted_device() {
                    Some(device) => Some(device.clone()),
                    None => None,
                };
                self.tokens = Some(Arc::new(tokens));
                self.pending = None;
                self.auth = Some(auth);
                assert((flow_view(Ok(Flow::LoggedIn(device))), self@) == Self::spec_after_step(
                    client,
                    auth@,
                    result_view(step),
                    none,
                ));
                Ok(Flow::LoggedIn(device))
            },
            Ok(AuthStep::Complete(tokens, Some(device))) => {
                let outcome = auth.confirm_device(self.friendly_name.as_str(), device, &tokens);
                let ghost generated = choose|generated: DeviceVerifierView|
                    generated.is_generated() && confirmation_view(outcome)
                        == #[trigger] spec_confirm_device(
                        auth@,
                        client.friendly_name,
                        device@,
                        tokens@.access_token,
                        generated,
                    );
                let ghost wanted = Self::spec_after_step(client, auth@, result_view(step), generated);
                match outcome {
                    Ok(confirmation) => {
                        let request = confirmation.request.clone();
                        self.pending = Some(PendingLogin { tokens, confirmation });
                        self.auth = Some(auth);
                        assert((flow_view(Ok(Flow::ConfirmDevice(request))), self@) == wanted);
                        Ok(Flow::ConfirmDevice(request))
                    },
                    Err(e) => {
                        self.auth = Some(auth);
                        assert((flow_view(Err(e)), self@) == wanted);
                        Err(e)
                    },
                }
            },
        }
    }

    /// Takes a response of the provider at the moment `now`: the response
    /// to the request that began a login where `first` holds, the response
    /// to an answer otherwise.
    fn response_at(&mut self, response: AuthResponse, now: i64, first: bool) -> (flow: Result<
        Flow,
        AuthenticationError,
    >)
        ensures
            exists|outside: Outside|
                outside.is_possible_for(parameters_or_empty(response@.challenge_parameters)) && (
                    flow_view(flow),
                    final(self)@,
                ) == #[trigger] Self::spec_response(old(self)@, response@, now, outside, first),
    {
        let ghost client = self@;
        match self.auth.take() {
            None => {
                let ghost none = Outside {
                    srp: SrpOutcome::unused(),
                    generated: DeviceVerifierView::unused(),
                };
                assert((flow_view(Err(AuthenticationError::NoAuthenticationInProgress)), self@)
                    == Self::spec_response(client, response@, now, none, first));
                Err(AuthenticationError::NoAuthenticationInProgress)
            },
            Some(mut auth) => {
                let ghost before = auth@;
                let step = if first {
                    auth.login_response(response, now)
                } else {
                    auth.handle_challenge_response(response, now)
                };
                let ghost srp = choose|srp: SrpOutcome|
                    srp.is_possible_for(parameters_or_empty(response@.challenge_parameters)) && (
                        result_view(step),
                        auth@,
                    ) == (if first {
                        HiveAuth::spec_login_response(before, response@, now, srp)
                    } else {
                        HiveAuth::spec_handle_challenge_response(before, response@, now, srp)
                    });
                let ghost emptied = self@;
                let flow = self.after_step(auth, step);
                proof {
                    let generated = choose|generated: DeviceVerifierView|
                        generated.is_generated() && (flow_view(flow), self@)
                            == #[trigger] Self::spec_after_step(
                            emptied,
                            auth@,
                            result_view(step),
                            generated,
                        );
                    // The engine is out of the client while it takes its step.
                    assert(Self::spec_after_step(emptied, auth@, result_view(step), generated)
                        == Self::spec_after_step(client, auth@, result_view(step), generated));
                    assert((flow_view(flow), self@) == Self::spec_response(
                        client,
                        response@,
                        now,
                        (Outside { srp, generated }),
                        first,
                    ));
                }
                flow
            },
        }
    }

    /// Takes the provider's response to the request that began a login, at
    /// the moment `now`, and says what is to be done next. What the SRP
    /// capability hands back on the way is not known beforehand; whatever
    /// it is, the step is [`Client::spec_login_response`] of it.
    pub fn login_response_at(&mut self, response: AuthResponse, now: i64) -> (flow: Result<
        Flow,
        AuthenticationError,
    >)
        ensures
            exists|outside: Outside|
                outside.is_possible_for(parameters_or_empty(response@.challenge_parameters)) && (
                    flow_view(flow),
                    final(self)@,
                ) == #[trigger] Self::spec_login_response(old(self)@, response@, now, outside),
    {
        let flow = self.response_at(response, now, true);
        proof {
            let outside = choose|outside: Outside|
                outside.is_possible_for(parameters_or_empty(response@.challenge_parameters)) && (
                    flow_view(flow),
                    self@,
                ) == #[trigger] Self::spec_response(old(self)@, response@, now, outside, true);
            assert((flow_view(flow), self@) == Self::spec_login_response(
                old(self)@,
                response@,
                now,
                outside,
            ));
        }
        flow
    }

    /// Takes the provider's response to the request that began a login,
    /// at the moment that the clock shows. Whatever that moment is, the
    /// step is the one of [`Client::login_response_at`] for it.
    pub fn login_response(&mut self, response: AuthResponse) -> (flow: Result<
        Flow,
        AuthenticationError,
    >)
        ensures
            exists|now: i64, outside: Outside|
                outside.is_possible_for(parameters_or_empty(response@.challenge_parameters)) && (
                    flow_view(flow),
                    final(self)@,
                ) == #[trigger] Self::spec_login_response(old(self)@, response@, now, outside),
    {
        let now = now_millis();
        self.login_response_at(response, now)
    }

    /// Takes the provider's response to an answer, at the moment `now`,
    /// and says what is to be done next. What the SRP capability hands
    /// back on the way is not known beforehand; whatever it is, the step is
    /// [`Client::spec_challenge_response`] of it.
    pub fn challenge_response_at(&mut self, response: AuthResponse, now: i64) -> (flow: Result<
        Flow,
        AuthenticationError,
    >)
        ensures
            exists|outside: Outside|
                outside.is_possible_for(parameters_or_empty(response@.challenge_parameters)) && (
                    flow_view(flow),
                    final(self)@,
                ) == #[trigger] Self::spec_challenge_response(old(self)@, response@, now, outside),
    {
        let flow = self.response_at(response, now, false);
        proof {
            let outside = choose|outside: Outside|
                outside.is_possible_for(parameters_or_empty(response@.challenge_parameters)) && (
                    flow_view(flow),
                    self@,
                ) == #[trigger] Self::spec_response(old(self)@, response@, now, outside, false);
            assert((flow_view(flow), self@) == Self::spec_challenge_response(
                old(self)@,
                response@,
                now,
                outside,
            ));
        }
        flow
    }

    /// Takes the provider's response to an answer, at the moment that the
    /// clock shows. Whatever that moment is, the step is the one of
    /// [`Client::challenge_response_at`] for it.
    pub fn challenge_response(&mut self, response: AuthResponse) -> (flow: Result<
        Flow,
        AuthenticationError,
    >)
        ensures
            exists|now: i64, outside: Outside|
                outside.is_possible_for(parameters_or_empty(response@.challenge_parameters)) && (
                    flow_view(flow),
                    final(self)@,
                ) == #[trigger] Self::spec_challenge_response(old(self)@, response@, now, outside),
    {
        let now = now_millis();
        self.challenge_response_at(response, now)
    }

    /// Builds the answer to a challenge that the caller responds to: the
    /// code of an SMS challenge, as a rule. The answer is sent by the
    /// caller, and the provider's response goes to
    /// [`Client::challenge_response`].
    pub fn respond_to_challenge(&mut self, challenge_response: ChallengeResponse) -> (answer: Result<
        ChallengeAnswer,
        AuthenticationError,
    >)
        ensures
            exists|srp: SrpOutcome|
                HiveAuth::possible(challenge_response@, srp) && (result_view(answer), final(self)@)
                    == #[trigger] Self::spec_respond(old(self)@, challenge_response@, srp),
    {
        let ghost client = self@;
        match self.auth.take() {
            None => {
                assert((
                    result_view::<ChallengeAnswer>(
                        Err(AuthenticationError::NoAuthenticationInProgress),
                    ),
                    self@,
                ) == Self::spec_respond(client, challenge_response@, SrpOutcome::unused()));
                Err(AuthenticationError::NoAuthenticationInProgress)
            },
            Some(mut auth) => {
                let ghost before = auth@;
                let answer = auth.respond_to_challenge(challenge_response);
                self.auth = Some(auth);
                proof {
                    let srp = choose|srp: SrpOutcome|
                        HiveAuth::possible(challenge_response@, srp) && (result_view(answer), auth@)
                            == #[trigger] HiveAuth::spec_respond(before, challenge_response@, srp);
                    assert((result_view(answer), self@) == Self::spec_respond(
                        client,
                        challenge_response@,
                        srp,
                    ));
                }
                answer
            },
        }
    }

    /// Takes the provider's agreement to the confirmation that the pending
    /// login waits for. Where the provider says that the confirmation
    /// needs an explicit status update, that request is next; otherwise the
    /// login is complete: the device is on file as trusted and the tokens
    /// are stored. Without a pending login nothing is in progress.
    pub fn device_confirmed(&mut self, user_confirmation_necessary: bool) -> (flow: Result<
        Flow,
        AuthenticationError,
    >)
        ensures
            (flow_view(flow), final(self)@) == Self::spec_device_confirmed(
                old(self)@,
                user_confirmation_necessary,
            ),
    {
        let pending = self.pending.take();
        let auth = self.auth.take();
        match (pending, auth) {
            (Some(pending), Some(mut auth)) => {
                let PendingLogin { tokens, confirmation } = pending;
                match auth.device_confirmed(confirmation, user_confirmation_necessary) {
                    ConfirmationStep::UpdateStatus(request, confirmation) => {
                        self.pending = Some(PendingLogin { tokens, confirmation });
                        self.auth = Some(auth);
                        Ok(Flow::UpdateDeviceStatus(request))
                    },
                    ConfirmationStep::Trusted(device) => {
                        self.tokens = Some(Arc::new(tokens));
                        self.auth = Some(auth);
                        Ok(Flow::LoggedIn(Some(device)))
                    },
                }
            },
            (pending, auth) => {
                self.pending = pending;
                self.auth = auth;
                Err(AuthenticationError::NoAuthenticationInProgress)
            },
        }
    }

    /// Takes the provider's word that the device of the pending login is
    /// recorded as remembered: the login is complete, as after a
    /// confirmation that needs no status update.
    pub fn device_status_updated(&mut self) -> (flow: Result<Flow, AuthenticationError>)
        ensures
            (flow_view(flow), final(self)@) == Self::spec_device_confirmed(old(self)@, false),
    {
        self.device_confirmed(false)
    }

    /// Takes the failure of a confirmation or of its status update: the
    /// pending login is dropped with its tokens, and the error is the one
    /// to hand to the caller.
    pub fn device_confirmation_failed(&mut self, error: DeviceConfirmationError) -> (failure:
        AuthenticationError)
        ensures
            failure@ == AuthenticationErrorView::DeviceConfirmationError(error@),
            final(self)@ == (ClientView { pending: None, ..old(self)@ }),
    {
        self.pending = None;
        AuthenticationError::DeviceConfirmationError(error)
    }

    /// Logs out: drops the engine with its login in progress and its
    /// trusted device, the pending login and the tokens. Nothing is sent to
    /// the provider: the only request that would invalidate the refresh
    /// token signs the user out of every device.
    pub fn logout(&mut self)
        ensures
            final(self)@ == (ClientView {
                auth: None,
                tokens: None,
                pending: None,
                friendly_name: old(self)@.friendly_name,
            }),
    {
        self.auth = None;
        self.tokens = None;
        self.pending = None;
    }

    /// What a call that needs tokens finds at the moment `now`: without
    /// tokens the user is not logged in; tokens that expire after `now`
    /// are handed out; expired tokens call for a refresh, which needs the
    /// engine of the user.
    pub open spec fn spec_refresh_tokens_if_needed(client: ClientView, now: i64) -> Result<
        TokenCheckView,
        ApiErrorView,
    > {
        match client.tokens {
            None => Err(
                ApiErrorView::AuthenticationRefreshFailed(AuthenticationErrorView::NotLoggedIn),
            ),
            Some(tokens) => if tokens.expires_at > now {
                Ok(TokenCheckView::Valid(tokens))
            } else {
                match client.auth {
                    Some(auth) => Ok(
                        TokenCheckView::Refresh(
                            spec_refresh_request(tokens.refresh_token, auth.device_key()),
                        ),
                    ),
                    None => Err(
                        ApiErrorView::AuthenticationRefreshFailed(
                            AuthenticationErrorView::AuthenticationRefreshFailed,
                        ),
                    ),
                }
            },
        }
    }

    /// The tokens that a refresh at the moment `now` hands out, and the
    /// client after it: new tokens take the place of the old ones as a
    /// whole; a failed refresh leaves the old ones where they are.
    pub open spec fn spec_tokens_refreshed(
        client: ClientView,
        result: Option<AuthenticationResultView>,
        now: i64,
    ) -> (Result<TokensView, ApiErrorView>, ClientView) {
        match client.tokens {
            None => (
                Err(ApiErrorView::AuthenticationRefreshFailed(AuthenticationErrorView::NotLoggedIn)),
                client,
            ),
            Some(tokens) => match spec_refreshed(tokens, result, now) {
                Ok(fresh) => (Ok(fresh), ClientView { tokens: Some(fresh), ..client }),
                Err(e) => (Err(ApiErrorView::AuthenticationRefreshFailed(e)), client),
            },
        }
    }

    /// Looks at the tokens at the moment `now`: hands out a snapshot of
    /// tokens that have not expired, or the request that refreshes expired
    /// ones. It never hands out tokens that have expired.
    pub fn refresh_tokens_if_needed_at(&self, now: i64) -> (check: Result<TokenCheck, ApiError>)
        ensures
            check_view(check) == Self::spec_refresh_tokens_if_needed(self@, now),
    {
        match &self.tokens {
            None => Err(ApiError::AuthenticationRefreshFailed(AuthenticationError::NotLoggedIn)),
            Some(tokens) => {
                if !tokens.is_expired(now) {
                    Ok(TokenCheck::Valid(share(tokens)))
                } else {
                    match &self.auth {
                        Some(auth) => Ok(TokenCheck::Refresh(auth.refresh_tokens(tokens))),
                        None => Err(
                            ApiError::AuthenticationRefreshFailed(
                                AuthenticationError::AuthenticationRefreshFailed,
                            ),
                        ),
                    }
                }
            },
        }
    }

    /// Looks at the tokens at the moment that the clock shows. Whatever
    /// that moment is, the outcome is the one of
    /// [`Client::refresh_tokens_if_needed_at`] for it.
    pub fn refresh_tokens_if_needed(&self) -> (check: Result<TokenCheck, ApiError>)
        ensures
            exists|now: i64|
                check_view(check) == #[trigger] Self::spec_refresh_tokens_if_needed(self@, now),
    {
        let now = now_millis();
        self.refresh_tokens_if_needed_at(now)
    }

    /// Takes the result of a refresh at the moment `now`: stores the new
    /// tokens in place of the old ones and hands out a snapshot of them.
    /// The refresh token is carried over as it is.
    pub fn tokens_refreshed_at(&mut self, result: Option<AuthenticationResult>, now: i64) -> (fresh:
        Result<Arc<Tokens>, ApiError>)
        ensures
            (refresh_view(fresh), final(self)@) == Self::spec_tokens_refreshed(
                old(self)@,
                result.deep_view(),
                now,
            ),
    {
        match &self.tokens {
            None => Err(ApiError::AuthenticationRefreshFailed(AuthenticationError::NotLoggedIn)),
            Some(tokens) => match refreshed(tokens, result, now) {
                Ok(fresh) => {
                    let fresh = Arc::new(fresh);
                    let handed = share(&fresh);
                    self.tokens = Some(fresh);
                    Ok(handed)
                },
                Err(e) => Err(ApiError::AuthenticationRefreshFailed(e)),
            },
        }
    }

    /// Takes the result of a refresh at the moment that the clock shows.
    /// Whatever that moment is, the outcome is the one of
    /// [`Client::tokens_refreshed_at`] for it.
    pub fn tokens_refreshed(&mut self, result: Option<AuthenticationResult>) -> (fresh: Result<
        Arc<Tokens>,
        ApiError,
    >)
        ensures
            exists|now: i64|
                (refresh_view(fresh), final(self)@) == #[trigger] Self::spec_tokens_refreshed(
                    old(self)@,
                    result.deep_view(),
                    now,
                ),
    {
        let now = now_millis();
        self.tokens_refreshed_at(result, now)
    }

    /// Takes the failure of the request that began a login: no login is in
    /// progress any more, and the error is the one to hand to the caller.
    /// The request is not sent again from here.
    pub fn login_failed(&mut self, message: String) -> (failure: AuthenticationError)
        ensures
            failure@ == AuthenticationErrorView::LoginFailed(message@),
            final(self)@ == (ClientView { auth: None, pending: None, ..old(self)@ }),
    {
        self.auth = None;
        self.pending = None;
        AuthenticationError::LoginFailed(message)
    }

    /// Takes the failure of a request that carried an answer. The login
    /// stays in progress as it was, so that the caller can answer again;
    /// the error is the one to hand to the caller.
    pub fn challenge_failed(&self, message: String) -> (failure: AuthenticationError)
        ensures
            failure@ == AuthenticationErrorView::ChallengeFailed(message@),
    {
        AuthenticationError::ChallengeFailed(message)
    }

    /// Takes the failure of a request for new tokens. The expired tokens
    /// stay where they are, and the error says that a refresh failed: it
    /// is not the error of a user who never logged in.
    pub fn refresh_failed(&self) -> (failure: ApiError)
        ensures
            failure@ == ApiErrorView::AuthenticationRefreshFailed(
                AuthenticationErrorView::AuthenticationRefreshFailed,
            ),
    {
        ApiError::AuthenticationRefreshFailed(AuthenticationError::AuthenticationRefreshFailed)
    }

    /// The engine of the user who logged in last.
    pub fn auth(&self) -> (auth: Option<&HiveAuth>)
        ensures
            match auth {
                Some(a) => self@.auth == Some(a@),
                None => self@.auth is None,
            },
    {
        self.auth.as_ref()
    }

    /// The tokens of the session, as they are now.
    pub fn tokens(&self) -> (tokens: Option<Arc<Tokens>>)
        ensures
            tokens.deep_view() == self@.tokens,
    {
        match &self.tokens {
            Some(tokens) => Some(share(tokens)),
            None => None,
        }
    }

    /// The device of the account as the client knows it: untrusted while
    /// its confirmation is under way, trusted once it is on file.
    pub open spec fn spec_account_device(client: ClientView) -> Option<AccountDeviceView> {
        match client.pending {
            Some(pending) => Some(
                AccountDeviceView::Untrusted(pending.confirmation.device.spec_identifiers()),
            ),
            None => match client.auth {
                Some(HiveAuthView { device: Some(device), .. }) => Some(
                    AccountDeviceView::Trusted(device),
                ),
                _ => None,
            },
        }
    }

    /// The device of the account as the client knows it.
    pub fn account_device(&self) -> (device: Option<AccountDevice>)
        ensures
            device.deep_view() == Self::spec_account_device(self@),
    {
        match &self.pending {
            Some(pending) => Some(
                AccountDevice::Trusted(pending.confirmation.device.clone()).downgrade(),
            ),
            None => match self.trusted_device() {
                Some(device) => Some(AccountDevice::Trusted(device)),
                None => None,
            },
        }
    }

    /// The trusted device on file.
    pub fn trusted_device(&self) -> (device: Option<TrustedDevice>)
        ensures
            device.deep_view() == (match self@.auth {
                Some(auth) => auth.device,
                None => None,
            }),
    {
        match &self.auth {
            Some(auth) => match auth.trusted_device() {
                Some(device) => Some(device.clone()),
                None => None,
            },
            None => None,
        }
    }
}

/// A refresh is asked for once: after a refresh at the moment `now` has
/// brought tokens of a positive lifetime, a second look at the tokens at
/// that moment, or at any moment before they expire, hands out those very
/// tokens and asks for no further refresh. The refresh token is the one
/// that the client held before.
pub proof fn lemma_refresh_is_asked_for_once(
    client: ClientView,
    result: Option<AuthenticationResultView>,
    now: i64,
    later: i64,
)
    requires
        client.tokens is Some,
        Client::spec_tokens_refreshed(client, result, now).0 is Ok,
        result->0.expires_in > 0,
        later < now + result->0.expires_in * 1000,
    ensures
        ({
            let (fresh, after) = Client::spec_tokens_refreshed(client, result, now);
            &&& Client::spec_refresh_tokens_if_needed(after, now) == Ok::<
                TokenCheckView,
                ApiErrorView,
            >(TokenCheckView::Valid(fresh->Ok_0))
            &&& Client::spec_refresh_tokens_if_needed(after, later) == Ok::<
                TokenCheckView,
                ApiErrorView,
            >(TokenCheckView::Valid(fresh->Ok_0))
            &&& fresh->Ok_0.refresh_token == client.tokens->0.refresh_token
            &&& fresh->Ok_0.expires_at > now
        }),
{
}

/// A login that ends with a newly issued device confirms it: the client
/// asks for the confirmation under its friendly name, with the verifier and
/// salt of the generated secret, and holds the tokens back. Once the
/// provider has agreed, the caller is handed the device as trusted, with
/// the identifiers that the provider issued and the generated secret,
/// which is not empty; the device is on file and the tokens are stored.
pub proof fn lemma_new_device_is_confirmed_with_its_secret(
    client: ClientView,
    auth: HiveAuthView,
    tokens: TokensView,
    device: UntrustedDeviceView,
    generated: DeviceVerifierView,
)
    requires
        generated.is_generated(),
        !already_trusted(auth, device),
    ensures
        ({
            let (flow, waiting) = Client::spec_after_step(
                client,
                auth,
                Ok(AuthStepView::Complete(tokens, Some(device))),
                generated,
            );
            let (confirmed, after) = Client::spec_device_confirmed(waiting, false);
            &&& flow matches Ok(FlowView::ConfirmDevice(request)) && request.device_key
                == device.device_key && request.device_name == client.friendly_name
                && request.access_token == tokens.access_token && request.password_verifier
                == generated.verifier && request.salt == generated.salt
            &&& waiting.tokens == client.tokens
            &&& confirmed matches Ok(FlowView::LoggedIn(Some(trusted))) && trusted.device_key
                == device.device_key && trusted.device_group_key == device.device_group_key
                && trusted.device_password == generated.password && trusted.device_password.len()
                > 0
            &&& after.auth matches Some(engine) && engine.device == Some(
                device.spec_trust(generated.password),
            )
            &&& after.tokens == Some(tokens)
            &&& after.pending is None
        }),
{
}

/// Tokens that a look at the moment `now` hands out have not expired at
/// that moment.
pub proof fn lemma_valid_tokens_have_not_expired(client: ClientView, now: i64)
    ensures
        Client::spec_refresh_tokens_if_needed(client, now) matches Ok(TokenCheckView::Valid(tokens))
            ==> tokens.expires_at > now,
{
}

} // verus!

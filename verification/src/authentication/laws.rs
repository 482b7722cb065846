//! What holds of the engine whatever the provider and the SRP capability
//! do.

use crate::authentication::challenge::AuthStepView;
use crate::authentication::challenge::ChallengeResponseView;
use crate::authentication::confirm_device::spec_confirm_device;
use crate::authentication::confirm_device::spec_device_confirmed;
use crate::authentication::error::AuthenticationErrorView;
use crate::authentication::login::LoginSessionView;
use crate::authentication::provider::AuthResponseView;
use crate::authentication::challenge::sms_mfa;
use crate::authentication::challenge::ChallengeRequestView;
use crate::authentication::provider::lemma_challenge_names_round_trip;
use crate::authentication::provider::ChallengeAnswerView;
use crate::authentication::provider::ChallengeKind;
use crate::authentication::user::TrustedDeviceView;
use crate::authentication::user::UserView;
use crate::authentication::srp::DeviceVerifierView;
use crate::authentication::user::UntrustedDeviceView;
use crate::authentication::HiveAuth;
use crate::authentication::HiveAuthView;
use crate::authentication::SrpOutcome;
use crate::authentication::MAX_CHALLENGE_ROUNDS;
use vstd::prelude::*;

verus! {

/// A login that ends in success at the moment `now`, with tokens of a
/// positive lifetime, hands out tokens that expire strictly after `now`.
/// This holds of the response to the first request and of the response to
/// any answer.
pub proof fn lemma_tokens_outlive_the_round(
    auth: HiveAuthView,
    response: AuthResponseView,
    now: i64,
    srp: SrpOutcome,
)
    requires
        response.authentication_result matches Some(result) && result.expires_in > 0,
    ensures
        HiveAuth::spec_login_response(auth, response, now, srp).0 matches Ok(
            AuthStepView::Complete(tokens, _),
        ) ==> tokens.expires_at > now,
        HiveAuth::spec_handle_challenge_response(auth, response, now, srp).0 matches Ok(
            AuthStepView::Complete(tokens, _),
        ) ==> tokens.expires_at > now,
{
}

/// A login whose password verifier challenge carries a secret block and a
/// user id and lacks the salt fails with the error that names `SALT`. The
/// session is the one that the login began with: the user's username and
/// the continuation token of the response, and nothing of the challenge.
pub proof fn lemma_missing_salt_is_reported(
    auth: HiveAuthView,
    response: AuthResponseView,
    now: i64,
    srp: SrpOutcome,
)
    requires
        response.challenge_name == Some(ChallengeKind::PasswordVerifier.spec_name()),
        response.challenge_parameters matches Some(parameters) && parameters.contains_key(
            "SECRET_BLOCK"@,
        ) && parameters.contains_key("USER_ID_FOR_SRP"@) && !parameters.contains_key("SALT"@),
    ensures
        HiveAuth::spec_login_response(auth, response, now, srp).0 == Err::<
            AuthStepView,
            AuthenticationErrorView,
        >(AuthenticationErrorView::MissingChallengeParameter("SALT"@)),
        HiveAuth::spec_login_response(auth, response, now, srp).1.session == Some(
            LoginSessionView { username: auth.username, session: response.session },
        ),
{
}

/// A challenge that lacks a parameter leaves the engine as it was, whatever
/// the challenge and the parameter are; so does an answer that is asked for
/// without a login in progress.
pub proof fn lemma_failed_round_leaves_the_session(
    auth: HiveAuthView,
    response: ChallengeResponseView,
    srp: SrpOutcome,
)
    ensures
        HiveAuth::spec_respond(auth, response, srp).0 matches Err(
            AuthenticationErrorView::MissingChallengeParameter(_),
        ) ==> HiveAuth::spec_respond(auth, response, srp).1 == auth,
        auth.session is None ==> HiveAuth::spec_respond(auth, response, srp) == (
            Err::<ChallengeAnswerView, AuthenticationErrorView>(
                AuthenticationErrorView::NoAuthenticationInProgress,
            ),
            auth,
        ),
        HiveAuth::spec_respond(auth, response, srp).1.session matches Some(after) ==> auth.session
            matches Some(before) && after.session == before.session,
{
}

/// Every answer that the engine gives by itself counts: after the response
/// to the first request one challenge has been answered, and each later
/// answer adds one and is given only below the limit. No login has the
/// engine answer more than [`MAX_CHALLENGE_ROUNDS`] challenges in a row.
pub proof fn lemma_rounds_are_bounded(
    auth: HiveAuthView,
    response: AuthResponseView,
    now: i64,
    srp: SrpOutcome,
)
    ensures
        HiveAuth::spec_login_response(auth, response, now, srp).0 matches Ok(AuthStepView::Respond(_))
            ==> HiveAuth::spec_login_response(auth, response, now, srp).1.rounds == 1,
        HiveAuth::spec_handle_challenge_response(auth, response, now, srp).0 matches Ok(
            AuthStepView::Respond(_),
        ) ==> auth.rounds < MAX_CHALLENGE_ROUNDS && HiveAuth::spec_handle_challenge_response(
            auth,
            response,
            now,
            srp,
        ).1.rounds == auth.rounds + 1,
{
}

/// An SMS challenge waits for the caller, in whichever response it comes:
/// the engine hands it out as the next challenge and keeps the login in
/// progress, with the continuation token of the response. The code that
/// the caller then responds with is answered under that token.
pub proof fn lemma_sms_challenge_waits_for_the_caller(
    auth: HiveAuthView,
    response: AuthResponseView,
    now: i64,
    srp: SrpOutcome,
    code: Seq<char>,
)
    requires
        response.challenge_name == Some(ChallengeKind::SmsMfa.spec_name()),
    ensures
        ({
            let (step, waiting) = HiveAuth::spec_login_response(auth, response, now, srp);
            &&& step == Err::<AuthStepView, AuthenticationErrorView>(
                AuthenticationErrorView::NextChallenge(ChallengeRequestView::SmsMfa),
            )
            &&& waiting.session == Some(
                LoginSessionView { username: auth.username, session: response.session },
            )
            &&& HiveAuth::spec_respond(waiting, ChallengeResponseView::SmsMfa(code), srp) == (
                Ok::<ChallengeAnswerView, AuthenticationErrorView>(
                    sms_mfa::spec_answer(waiting.session->0, waiting.device_key(), code),
                ),
                waiting,
            )
        }),
        auth.session matches Some(before) ==> {
            let (step, waiting) = HiveAuth::spec_handle_challenge_response(auth, response, now, srp);
            &&& step == Err::<AuthStepView, AuthenticationErrorView>(
                AuthenticationErrorView::NextChallenge(ChallengeRequestView::SmsMfa),
            )
            &&& waiting.session == Some(
                LoginSessionView { username: before.username, session: response.session },
            )
        },
{
    lemma_challenge_names_round_trip(ChallengeKind::SmsMfa);
}

/// The challenges that the engine answers by itself are answered in
/// whichever response they come, the first or a later one: what the engine
/// makes of a response depends on the login in progress and on the
/// response, not on which request the response answers.
pub proof fn lemma_one_dispatch_for_every_response(
    auth: HiveAuthView,
    response: AuthResponseView,
    now: i64,
    srp: SrpOutcome,
)
    requires
        auth.session is Some,
    ensures
        HiveAuth::spec_handle_challenge_response(auth, response, now, srp)
            == HiveAuth::spec_dispatch(
            HiveAuth::spec_continued(auth, response.session),
            response.challenge_name,
            response.challenge_parameters,
            response.authentication_result,
            now,
            srp,
        ),
        HiveAuth::spec_login_response(auth, response, now, srp) == HiveAuth::spec_dispatch(
            HiveAuth::spec_started(auth, response.session),
            response.challenge_name,
            response.challenge_parameters,
            response.authentication_result,
            now,
            srp,
        ),
{
}

/// The SRP clients stay with what they were made for. A new engine
/// computes from the user's own credentials and from the secret of the
/// device on file; no round of a login changes the device on file or what
/// either client computes from; and a device that is put on file comes
/// with a client made for it.
pub proof fn lemma_clients_keep_their_credentials(
    user: UserView,
    device: Option<TrustedDeviceView>,
    auth: HiveAuthView,
    response: AuthResponseView,
    answered: ChallengeResponseView,
    now: i64,
    srp: SrpOutcome,
)
    ensures
        HiveAuth::spec_new(user, device).user_client.username == user.username,
        HiveAuth::spec_new(user, device).user_client.password == user.password,
        HiveAuth::spec_new(user, device).device_client == HiveAuth::spec_client_for(device),
        auth.with_device(device).device_client == HiveAuth::spec_client_for(device),
        auth.with_device(device).user_client == auth.user_client,
        ({
            let after = HiveAuth::spec_login_response(auth, response, now, srp).1;
            after.user_client == auth.user_client && after.device_client == auth.device_client
                && after.device == auth.device
        }),
        ({
            let after = HiveAuth::spec_handle_challenge_response(auth, response, now, srp).1;
            after.user_client == auth.user_client && after.device_client == auth.device_client
                && after.device == auth.device
        }),
        ({
            let after = HiveAuth::spec_respond(auth, answered, srp).1;
            after.user_client == auth.user_client && after.device_client == auth.device_client
                && after.device == auth.device
        }),
{
}

/// A confirmation keeps what was generated for it: the request carries the
/// verifier and the salt of the generated secret, and the device that the
/// confirmation makes trusted holds that secret, which is not empty, under
/// the identifiers that the provider issued.
pub proof fn lemma_confirmation_keeps_the_generated_secret(
    auth: HiveAuthView,
    device_name: Seq<char>,
    device: UntrustedDeviceView,
    access_token: Seq<char>,
    generated: DeviceVerifierView,
)
    requires
        generated.is_generated(),
    ensures
        spec_confirm_device(auth, device_name, device, access_token, generated) matches Ok(
            confirmation,
        ) ==> {
            &&& confirmation.request.password_verifier == generated.verifier
            &&& confirmation.request.salt == generated.salt
            &&& confirmation.request.device_key == device.device_key
            &&& confirmation.device.device_password == generated.password
            &&& confirmation.device.device_password.len() > 0
            &&& confirmation.device.device_key == device.device_key
            &&& confirmation.device.device_group_key == device.device_group_key
        },
{
}

/// A login begins afresh: what the engine makes of the response to the
/// request that began it does not depend on a login that was in progress
/// before, nor on how many challenges that one had answered.
pub proof fn lemma_new_login_replaces_the_old(
    auth: HiveAuthView,
    abandoned: Option<LoginSessionView>,
    rounds: nat,
    response: AuthResponseView,
    now: i64,
    srp: SrpOutcome,
)
    ensures
        HiveAuth::spec_login_response(
            HiveAuthView { session: abandoned, rounds, ..auth },
            response,
            now,
            srp,
        ) == HiveAuth::spec_login_response(auth, response, now, srp),
{
}

/// A device that has been confirmed is not confirmed again: once the first
/// confirmation has put the device on file, a second request to confirm a
/// device of the same key is refused, whatever secret would have been
/// generated for it, and the secret of the first confirmation is the one
/// on file.
pub proof fn lemma_second_confirmation_is_refused(
    auth: HiveAuthView,
    device_name: Seq<char>,
    device: UntrustedDeviceView,
    access_token: Seq<char>,
    first: DeviceVerifierView,
    second: DeviceVerifierView,
)
    requires
        spec_confirm_device(auth, device_name, device, access_token, first) is Ok,
    ensures
        ({
            let confirmation = spec_confirm_device(auth, device_name, device, access_token, first)->Ok_0;
            let after = spec_device_confirmed(auth, confirmation, false).1;
            &&& spec_confirm_device(after, device_name, device, access_token, second) == Err::<
                crate::authentication::confirm_device::DeviceConfirmationView,
                AuthenticationErrorView,
            >(AuthenticationErrorView::DeviceAlreadyTrusted)
            &&& after.device matches Some(on_file) && on_file.device_password == first.password
                && on_file.device_key == device.device_key
        }),
{
}

} // verus!

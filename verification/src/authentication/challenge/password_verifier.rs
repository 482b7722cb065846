//! The password verifier challenge: prove knowledge of the user's password.

use crate::authentication::error::result_view;
use crate::authentication::error::AuthenticationError;
use crate::authentication::error::AuthenticationErrorView;
use crate::authentication::login::push_device_key;
use crate::authentication::login::with_device_key;
use crate::authentication::login::LoginSession;
use crate::authentication::login::LoginSessionView;
use crate::authentication::parameters::ChallengeParameters;
use crate::authentication::provider::ChallengeAnswer;
use crate::authentication::provider::ChallengeAnswerView;
use crate::authentication::provider::ChallengeKind;
use crate::authentication::srp::claim_view;
use crate::authentication::srp::is_claim_for;
use crate::authentication::srp::user_verify;
use crate::authentication::srp::PasswordClaim;
use crate::authentication::srp::PasswordClaimView;
use crate::authentication::srp::UserSrp;
use crate::authentication::text::copy_of;
use crate::authentication::text::no_pairs;
use crate::authentication::text::push_pair;
use crate::constants::CLIENT_ID;
use aws_cognito_srp::SrpError;
use vstd::prelude::*;

verus! {

/// The parameters that a password verifier challenge must carry.
#[derive(Debug)]
pub struct PasswordChallenge {
    pub secret_block: String,
    /// The id that the provider wants the rest of the exchange to run
    /// under.
    pub user_id: String,
    pub salt: String,
    pub srp_b: String,
}

/// What a [`PasswordChallenge`] is to the contracts.
pub struct PasswordChallengeView {
    pub secret_block: Seq<char>,
    pub user_id: Seq<char>,
    pub salt: Seq<char>,
    pub srp_b: Seq<char>,
}

impl View for PasswordChallenge {
    type V = PasswordChallengeView;

    open spec fn view(&self) -> PasswordChallengeView {
        PasswordChallengeView {
            secret_block: self.secret_block@,
            user_id: self.user_id@,
            salt: self.salt@,
            srp_b: self.srp_b@,
        }
    }
}

/// The challenge that the parameters hold, or the first parameter that is
/// missing, looked for in the order `SECRET_BLOCK`, `USER_ID_FOR_SRP`,
/// `SALT`, `SRP_B`.
pub open spec fn spec_read_challenge(parameters: Map<Seq<char>, Seq<char>>) -> Result<
    PasswordChallengeView,
    AuthenticationErrorView,
> {
    if !parameters.contains_key("SECRET_BLOCK"@) {
        Err(AuthenticationErrorView::MissingChallengeParameter("SECRET_BLOCK"@))
    } else if !parameters.contains_key("USER_ID_FOR_SRP"@) {
        Err(AuthenticationErrorView::MissingChallengeParameter("USER_ID_FOR_SRP"@))
    } else if !parameters.contains_key("SALT"@) {
        Err(AuthenticationErrorView::MissingChallengeParameter("SALT"@))
    } else if !parameters.contains_key("SRP_B"@) {
        Err(AuthenticationErrorView::MissingChallengeParameter("SRP_B"@))
    } else {
        Ok(
            PasswordChallengeView {
                secret_block: parameters["SECRET_BLOCK"@],
                user_id: parameters["USER_ID_FOR_SRP"@],
                salt: parameters["SALT"@],
                srp_b: parameters["SRP_B"@],
            },
        )
    }
}

/// The answer to a password verifier challenge: the user id, the three
/// proof values, and the key of the trusted device where one is on file.
pub open spec fn spec_answer(
    session: LoginSessionView,
    device_key: Option<Seq<char>>,
    claim: PasswordClaimView,
) -> ChallengeAnswerView {
    ChallengeAnswerView {
        challenge_name: ChallengeKind::PasswordVerifier,
        session: session.session,
        client_id: CLIENT_ID@,
        challenge_responses: with_device_key(
            seq![
                ("USERNAME"@, session.username),
                ("PASSWORD_CLAIM_SECRET_BLOCK"@, claim.secret_block),
                ("PASSWORD_CLAIM_SIGNATURE"@, claim.signature),
                ("TIMESTAMP"@, claim.timestamp),
            ],
            device_key,
        ),
    }
}

/// What becomes of a challenge once the proof computation has ended in
/// `outcome`. The session runs under the provider's user id from here on,
/// whether or not the computation succeeded; its continuation token stays.
pub open spec fn spec_answer_with(
    session: LoginSessionView,
    device_key: Option<Seq<char>>,
    challenge: PasswordChallengeView,
    outcome: Result<PasswordClaimView, SrpError>,
) -> (Result<ChallengeAnswerView, AuthenticationErrorView>, LoginSessionView) {
    let next = LoginSessionView { username: challenge.user_id, session: session.session };
    match outcome {
        Ok(claim) => (Ok(spec_answer(next, device_key, claim)), next),
        Err(e) => (Err(AuthenticationErrorView::SrpFailed(e)), next),
    }
}

/// The whole round: a challenge that lacks a parameter fails and leaves the
/// session as it was; any other is answered as [`spec_answer_with`] says.
pub open spec fn spec_respond(
    session: LoginSessionView,
    device_key: Option<Seq<char>>,
    parameters: Map<Seq<char>, Seq<char>>,
    outcome: Result<PasswordClaimView, SrpError>,
) -> (Result<ChallengeAnswerView, AuthenticationErrorView>, LoginSessionView) {
    match spec_read_challenge(parameters) {
        Ok(challenge) => spec_answer_with(session, device_key, challenge, outcome),
        Err(e) => (Err(e), session),
    }
}

/// Reads the four parameters of a password verifier challenge.
pub fn read_challenge(parameters: &ChallengeParameters) -> (challenge: Result<
    PasswordChallenge,
    AuthenticationError,
>)
    ensures
        result_view(challenge) == spec_read_challenge(parameters@),
{
    let secret_block = parameters.require("SECRET_BLOCK")?;
    let user_id = parameters.require("USER_ID_FOR_SRP")?;
    let salt = parameters.require("SALT")?;
    let srp_b = parameters.require("SRP_B")?;
    Ok(PasswordChallenge { secret_block, user_id, salt, srp_b })
}

/// Builds the answer to a challenge from the outcome of the proof
/// computation, and records the provider's user id in the session.
pub fn answer(
    session: &mut LoginSession,
    device_key: Option<&String>,
    challenge: &PasswordChallenge,
    outcome: Result<PasswordClaim, SrpError>,
) -> (answer: Result<ChallengeAnswer, AuthenticationError>)
    ensures
        (result_view(answer), final(session)@) == spec_answer_with(
            old(session)@,
            device_key.deep_view(),
            challenge@,
            claim_view(outcome),
        ),
{
    // The provider ties a later device confirmation to this id, not to the
    // username that the login began with.
    session.0 = challenge.user_id.clone();
    match outcome {
        Ok(claim) => {
            let mut challenge_responses = no_pairs();
            push_pair(&mut challenge_responses, "USERNAME", challenge.user_id.as_str());
            push_pair(
                &mut challenge_responses,
                "PASSWORD_CLAIM_SECRET_BLOCK",
                claim.secret_block.as_str(),
            );
            push_pair(&mut challenge_responses, "PASSWORD_CLAIM_SIGNATURE", claim.signature.as_str());
            push_pair(&mut challenge_responses, "TIMESTAMP", claim.timestamp.as_str());
            push_device_key(&mut challenge_responses, device_key);
            assert(challenge_responses.deep_view() =~= spec_answer(
                session@,
                device_key.deep_view(),
                claim@,
            ).challenge_responses);
            Ok(
                ChallengeAnswer {
                    challenge_name: ChallengeKind::PasswordVerifier,
                    session: copy_of(&session.1),
                    client_id: CLIENT_ID.to_owned(),
                    challenge_responses,
                },
            )
        },
        Err(e) => Err(AuthenticationError::SrpFailed(e)),
    }
}

/// Answers a password verifier challenge: reads its parameters, has the
/// SRP capability compute the proof, and builds the request that carries
/// it. The proof depends on what the SRP capability drew; whatever it was,
/// the round went as [`spec_respond`] says for it.
pub fn respond_to_challenge(
    srp: &UserSrp,
    device_key: Option<&String>,
    session: &mut LoginSession,
    parameters: &ChallengeParameters,
) -> (answer: Result<ChallengeAnswer, AuthenticationError>)
    ensures
        exists|outcome: Result<PasswordClaimView, SrpError>|
            is_claim_for(outcome, parameters@) && (result_view(answer), final(session)@)
                == #[trigger] spec_respond(
                old(session)@,
                device_key.deep_view(),
                parameters@,
                outcome,
            ),
{
    match read_challenge(parameters) {
        Ok(challenge) => {
            let outcome = user_verify(
                srp,
                challenge.secret_block.as_str(),
                challenge.user_id.as_str(),
                challenge.salt.as_str(),
                challenge.srp_b.as_str(),
            );
            let ghost seen = claim_view(outcome);
            let answer = answer(session, device_key, &challenge, outcome);
            assert((result_view(answer), session@) == spec_respond(
                old(session)@,
                device_key.deep_view(),
                parameters@,
                seen,
            ));
            answer
        },
        Err(e) => {
            let ghost none: Result<PasswordClaimView, SrpError> = Err(arbitrary());
            assert((result_view::<ChallengeAnswer>(Err(e)), session@) == spec_respond(
                old(session)@,
                device_key.deep_view(),
                parameters@,
                none,
            ));
            Err(e)
        },
    }
}

} // verus!

//! The device password verifier challenge: prove knowledge of the secret
//! that a trusted device holds.

use crate::authentication::error::result_view;
use crate::authentication::error::AuthenticationError;
use crate::authentication::error::AuthenticationErrorView;
use crate::authentication::login::push_device_key;
use crate::authentication::login::with_device_key;
use crate::authentication::login::LoginSession;
use crate::authentication::login::LoginSessionView;
use crate::authentication::parameters::ChallengeParameters;
use crate::authentication::provider::ChallengeAnswer;
use crate::authentication::provider::ChallengeAnswerView;
use crate::authentication::provider::ChallengeKind;
use crate::authentication::srp::claim_view;
use crate::authentication::srp::is_claim_for;
use crate::authentication::srp::device_verify;
use crate::authentication::srp::DeviceSrp;
use crate::authentication::srp::PasswordClaim;
use crate::authentication::srp::PasswordClaimView;
use crate::authentication::text::copy_of;
use crate::authentication::text::no_pairs;
use crate::authentication::text::push_pair;
use crate::constants::CLIENT_ID;
use aws_cognito_srp::SrpError;
use vstd::prelude::*;

verus! {

/// The parameters that a device password verifier challenge must carry.
#[derive(Debug)]
pub struct DeviceChallenge {
    pub srp_b: String,
    pub salt: String,
    pub secret_block: String,
}

/// What a [`DeviceChallenge`] is to the contracts.
pub struct DeviceChallengeView {
    pub srp_b: Seq<char>,
    pub salt: Seq<char>,
    pub secret_block: Seq<char>,
}

impl View for DeviceChallenge {
    type V = DeviceChallengeView;

    open spec fn view(&self) -> DeviceChallengeView {
        DeviceChallengeView {
            srp_b: self.srp_b@,
            salt: self.salt@,
            secret_block: self.secret_block@,
        }
    }
}

/// The challenge that the parameters hold, or the first parameter that is
/// missing, looked for in the order `SRP_B`, `SALT`, `SECRET_BLOCK`.
pub open spec fn spec_read_challenge(parameters: Map<Seq<char>, Seq<char>>) -> Result<
    DeviceChallengeView,
    AuthenticationErrorView,
> {
    if !parameters.contains_key("SRP_B"@) {
        Err(AuthenticationErrorView::MissingChallengeParameter("SRP_B"@))
    } else if !parameters.contains_key("SALT"@) {
        Err(AuthenticationErrorView::MissingChallengeParameter("SALT"@))
    } else if !parameters.contains_key("SECRET_BLOCK"@) {
        Err(AuthenticationErrorView::MissingChallengeParameter("SECRET_BLOCK"@))
    } else {
        Ok(
            DeviceChallengeView {
                srp_b: parameters["SRP_B"@],
                salt: parameters["SALT"@],
                secret_block: parameters["SECRET_BLOCK"@],
            },
        )
    }
}

/// The answer to a device password verifier challenge: the username of the
/// session, the three proof values and the device's key.
pub open spec fn spec_answer(
    session: LoginSessionView,
    device_key: Seq<char>,
    claim: PasswordClaimView,
) -> ChallengeAnswerView {
    ChallengeAnswerView {
        challenge_name: ChallengeKind::DevicePasswordVerifier,
        session: session.session,
        client_id: CLIENT_ID@,
        challenge_responses: with_device_key(
            seq![
                ("USERNAME"@, session.username),
                ("PASSWORD_CLAIM_SECRET_BLOCK"@, claim.secret_block),
                ("PASSWORD_CLAIM_SIGNATURE"@, claim.signature),
                ("TIMESTAMP"@, claim.timestamp),
            ],
            Some(device_key),
        ),
    }
}

/// What becomes of a challenge once the proof computation has ended in
/// `outcome`.
pub open spec fn spec_answer_with(
    session: LoginSessionView,
    device_key: Seq<char>,
    outcome: Result<PasswordClaimView, SrpError>,
) -> Result<ChallengeAnswerView, AuthenticationErrorView> {
    match outcome {
        Ok(claim) => Ok(spec_answer(session, device_key, claim)),
        Err(e) => Err(AuthenticationErrorView::SrpFailed(e)),
    }
}

/// The whole round: a challenge that lacks a parameter fails; any other is
/// answered as [`spec_answer_with`] says. The session is not touched.
pub open spec fn spec_respond(
    session: LoginSessionView,
    device_key: Seq<char>,
    parameters: Map<Seq<char>, Seq<char>>,
    outcome: Result<PasswordClaimView, SrpError>,
) -> Result<ChallengeAnswerView, AuthenticationErrorView> {
    match spec_read_challenge(parameters) {
        Ok(challenge) => spec_answer_with(session, device_key, outcome),
        Err(e) => Err(e),
    }
}

/// Reads the three parameters of a device password verifier challenge.
pub fn read_challenge(parameters: &ChallengeParameters) -> (challenge: Result<
    DeviceChallenge,
    AuthenticationError,
>)
    ensures
        result_view(challenge) == spec_read_challenge(parameters@),
{
    let srp_b = parameters.require("SRP_B")?;
    let salt = parameters.require("SALT")?;
    let secret_block = parameters.require("SECRET_BLOCK")?;
    Ok(DeviceChallenge { srp_b, salt, secret_block })
}

/// Builds the answer to a challenge from the outcome of the proof
/// computation.
pub fn answer(session: &LoginSession, device_key: &String, outcome: Result<PasswordClaim, SrpError>) -> (answer:
    Result<ChallengeAnswer, AuthenticationError>)
    ensures
        result_view(answer) == spec_answer_with(session@, device_key@, claim_view(outcome)),
{
    match outcome {
        Ok(claim) => {
            let mut challenge_responses = no_pairs();
            push_pair(&mut challenge_responses, "USERNAME", session.0.as_str());
            push_pair(
                &mut challenge_responses,
                "PASSWORD_CLAIM_SECRET_BLOCK",
                claim.secret_block.as_str(),
            );
            push_pair(&mut challenge_responses, "PASSWORD_CLAIM_SIGNATURE", claim.signature.as_str());
            push_pair(&mut challenge_responses, "TIMESTAMP", claim.timestamp.as_str());
            push_device_key(&mut challenge_responses, Some(device_key));
            assert(challenge_responses.deep_view() =~= spec_answer(
                session@,
                device_key@,
                claim@,
            ).challenge_responses);
            Ok(
                ChallengeAnswer {
                    challenge_name: ChallengeKind::DevicePasswordVerifier,
                    session: copy_of(&session.1),
                    client_id: CLIENT_ID.to_owned(),
                    challenge_responses,
                },
            )
        },
        Err(e) => Err(AuthenticationError::SrpFailed(e)),
    }
}

/// Answers a device password verifier challenge for the trusted device on
/// file: reads its parameters, has the SRP capability compute the proof
/// from the device's secret, and builds the request that carries it.
/// Whatever the SRP capability drew, the round went as [`spec_respond`]
/// says for it.
pub fn handle_challenge(
    srp: &DeviceSrp,
    device_key: &String,
    session: &LoginSession,
    parameters: &ChallengeParameters,
) -> (answer: Result<ChallengeAnswer, AuthenticationError>)
    ensures
        exists|outcome: Result<PasswordClaimView, SrpError>|
            is_claim_for(outcome, parameters@) && result_view(answer) == #[trigger] spec_respond(
                session@,
                device_key@,
                parameters@,
                outcome,
            ),
{
    match read_challenge(parameters) {
        Ok(challenge) => {
            let outcome = device_verify(
                srp,
                challenge.secret_block.as_str(),
                challenge.salt.as_str(),
                challenge.srp_b.as_str(),
            );
            let ghost seen = claim_view(outcome);
            let answer = answer(session, device_key, outcome);
            assert(result_view(answer) == spec_respond(session@, device_key@, parameters@, seen));
            answer
        },
        Err(e) => {
            let ghost none: Result<PasswordClaimView, SrpError> = Err(arbitrary());
            assert(result_view::<ChallengeAnswer>(Err(e)) == spec_respond(
                session@,
                device_key@,
                parameters@,
                none,
            ));
            Err(e)
        },
    }
}

} // verus!

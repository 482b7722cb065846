//! The device SRP challenge: begin the proof of a trusted device.

use crate::authentication::login::push_device_key;
use crate::authentication::login::with_device_key;
use crate::authentication::login::LoginSession;
use crate::authentication::login::LoginSessionView;
use crate::authentication::provider::ChallengeAnswer;
use crate::authentication::provider::ChallengeAnswerView;
use crate::authentication::provider::ChallengeKind;
use crate::authentication::srp::device_public_value;
use crate::authentication::srp::DeviceSrp;
use crate::authentication::text::copy_of;
use crate::authentication::text::no_pairs;
use crate::authentication::text::push_pair;
use crate::constants::CLIENT_ID;
use vstd::prelude::*;

verus! {

/// The answer to a device SRP challenge: the device's public value `a`,
/// the username of the session and the device's key. It carries no proof of
/// a password.
pub open spec fn spec_answer(
    session: LoginSessionView,
    device_key: Seq<char>,
    a: Seq<char>,
) -> ChallengeAnswerView {
    ChallengeAnswerView {
        challenge_name: ChallengeKind::DeviceSrpAuth,
        session: session.session,
        client_id: CLIENT_ID@,
        challenge_responses: with_device_key(
            seq![("SRP_A"@, a), ("USERNAME"@, session.username)],
            Some(device_key),
        ),
    }
}

/// Builds the answer to a device SRP challenge around the device's public
/// value `a`.
pub fn answer(session: &LoginSession, device_key: &String, a: &str) -> (answer: ChallengeAnswer)
    ensures
        answer@ == spec_answer(session@, device_key@, a@),
{
    let mut challenge_responses = no_pairs();
    push_pair(&mut challenge_responses, "SRP_A", a);
    push_pair(&mut challenge_responses, "USERNAME", session.0.as_str());
    push_device_key(&mut challenge_responses, Some(device_key));
    assert(challenge_responses.deep_view() =~= spec_answer(
        session@,
        device_key@,
        a@,
    ).challenge_responses);
    ChallengeAnswer {
        challenge_name: ChallengeKind::DeviceSrpAuth,
        session: copy_of(&session.1),
        client_id: CLIENT_ID.to_owned(),
        challenge_responses,
    }
}

/// Answers a device SRP challenge for the trusted device on file. The
/// public value is what the SRP capability derives from the private value
/// it drew; whatever it is, it is not empty, and the answer is
/// [`spec_answer`] of it.
pub fn handle_challenge(srp: &DeviceSrp, device_key: &String, session: &LoginSession) -> (answer:
    ChallengeAnswer)
    ensures
        exists|a: Seq<char>| a.len() > 0 && answer@ == #[trigger] spec_answer(session@, device_key@, a),
{
    let a = device_public_value(srp);
    let answer = answer(session, device_key, a.as_str());
    assert(answer@ == spec_answer(session@, device_key@, a@));
    answer
}

} // verus!

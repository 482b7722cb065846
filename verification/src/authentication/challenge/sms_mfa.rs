//! The SMS challenge: a code that was sent to the user's phone.

use crate::authentication::login::push_device_key;
use crate::authentication::login::with_device_key;
use crate::authentication::login::LoginSession;
use crate::authentication::login::LoginSessionView;
use crate::authentication::provider::ChallengeAnswer;
use crate::authentication::provider::ChallengeAnswerView;
use crate::authentication::provider::ChallengeKind;
use crate::authentication::text::copy_of;
use crate::authentication::text::no_pairs;
use crate::authentication::text::push_pair;
use crate::constants::CLIENT_ID;
use vstd::prelude::*;

verus! {

/// The answer to an SMS challenge: the code, the username of the session,
/// and the key of the trusted device where one is on file.
pub open spec fn spec_answer(
    session: LoginSessionView,
    device_key: Option<Seq<char>>,
    code: Seq<char>,
) -> ChallengeAnswerView {
    ChallengeAnswerView {
        challenge_name: ChallengeKind::SmsMfa,
        session: session.session,
        client_id: CLIENT_ID@,
        challenge_responses: with_device_key(
            seq![("SMS_MFA_CODE"@, code), ("USERNAME"@, session.username)],
            device_key,
        ),
    }
}

/// Answers an SMS challenge with the code that the user received.
pub fn handle_challenge(device_key: Option<&String>, session: &LoginSession, code: &str) -> (answer:
    ChallengeAnswer)
    ensures
        answer@ == spec_answer(session@, device_key.deep_view(), code@),
{
    let mut challenge_responses = no_pairs();
    push_pair(&mut challenge_responses, "SMS_MFA_CODE", code);
    push_pair(&mut challenge_responses, "USERNAME", session.0.as_str());
    push_device_key(&mut challenge_responses, device_key);
    assert(challenge_responses.deep_view() =~= spec_answer(
        session@,
        device_key.deep_view(),
        code@,
    ).challenge_responses);
    ChallengeAnswer {
        challenge_name: ChallengeKind::SmsMfa,
        session: copy_of(&session.1),
        client_id: CLIENT_ID.to_owned(),
        challenge_responses,
    }
}

} // verus!

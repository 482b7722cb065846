//! Support for the Hive authentication flow.
//!
//! The engine decides; the caller carries its requests to the identity
//! provider and hands the responses back. No request is retried here.

pub mod challenge;
pub(crate) mod clock;
pub mod confirm_device;
pub mod device;
pub mod error;
pub mod laws;
pub mod login;
pub mod logout;
pub mod parameters;
pub mod provider;
pub mod refresh;
pub mod srp;
mod text;
pub mod user;

pub use challenge::{ChallengeRequest, ChallengeResponse};
pub use device::AccountDevice;
pub use error::{AuthenticationError, DeviceConfirmationError};
pub use login::LoginSession;
pub use parameters::ChallengeParameters;
pub use user::{Tokens, TrustedDevice, UntrustedDevice, User};

use crate::authentication::login::LoginSessionView;
use crate::authentication::srp::device_client;
use crate::authentication::srp::is_claim_for;
use crate::authentication::srp::user_client;
use crate::authentication::srp::DeviceClientView;
use crate::authentication::srp::DeviceSrp;
use crate::authentication::srp::UserClientView;
use crate::authentication::srp::PasswordClaimView;
use crate::authentication::srp::UserSrp;
use crate::authentication::user::TrustedDeviceView;
use crate::authentication::user::UserView;
use crate::constants::CLIENT_ID;
use crate::constants::POOL_ID;
use aws_cognito_srp::SrpError;
use vstd::prelude::*;

verus! {

/// The number of challenges that one login answers by itself. A provider
/// that asks for more is taken to be misbehaving.
pub const MAX_CHALLENGE_ROUNDS: u32 = 10;

/// A trusted device with the SRP client that was made for it.
struct TrackedSrp {
    device: TrustedDevice,
    srp: DeviceSrp,
}

/// What the SRP capability hands back in one round: the public value of a
/// client, and the outcome of a proof computation. Both depend on what the
/// capability drew at random and on the clock.
pub struct SrpOutcome {
    pub public_value: Seq<char>,
    pub claim: Result<PasswordClaimView, SrpError>,
}

impl SrpOutcome {
    /// Whether the SRP capability can hand this back in a round whose
    /// challenge came with `parameters`: a public value is never empty, and
    /// a proof is one of the challenge's own secret block.
    pub open spec fn is_possible_for(self, parameters: Map<Seq<char>, Seq<char>>) -> bool {
        self.public_value.len() > 0 && is_claim_for(self.claim, parameters)
    }

    /// An outcome for a round that did not ask the SRP capability.
    pub open spec fn unused() -> SrpOutcome {
        SrpOutcome { public_value: seq!['0'], claim: Err(arbitrary()) }
    }
}

/// The authentication engine of one user: the login in progress, if any,
/// and the trusted device on file, if any.
pub struct HiveAuth {
    username: String,
    user_srp: UserSrp,
    device: Option<TrackedSrp>,
    session: Option<LoginSession>,
    rounds: u32,
}

/// What a [`HiveAuth`] is to the contracts.
pub struct HiveAuthView {
    pub username: Seq<char>,
    /// The trusted device on file.
    pub device: Option<TrustedDeviceView>,
    /// The login in progress.
    pub session: Option<LoginSessionView>,
    /// The challenges that the login in progress has answered by itself.
    pub rounds: nat,
    /// What the SRP client of the user computes from.
    pub user_client: UserClientView,
    /// What the SRP client of the trusted device computes from.
    pub device_client: Option<DeviceClientView>,
}

impl HiveAuthView {
    /// The engine with `device` on file, or with none, and with an SRP
    /// client made for it.
    pub open spec fn with_device(self, device: Option<TrustedDeviceView>) -> HiveAuthView {
        HiveAuthView { device, device_client: HiveAuth::spec_client_for(device), ..self }
    }

    /// The engine with one more challenge answered.
    pub open spec fn counting(self) -> HiveAuthView {
        HiveAuthView { rounds: self.rounds + 1, ..self }
    }

    /// The key of the trusted device on file.
    pub open spec fn device_key(self) -> Option<Seq<char>> {
        match self.device {
            Some(device) => Some(device.device_key),
            None => None,
        }
    }
}

impl View for HiveAuth {
    type V = HiveAuthView;

    closed spec fn view(&self) -> HiveAuthView {
        HiveAuthView {
            username: self.username@,
            device: match self.device {
                Some(held) => Some(held.device@),
                None => None,
            },
            session: self.session.deep_view(),
            rounds: self.rounds as nat,
            user_client: self.user_srp@,
            device_client: match self.device {
                Some(held) => Some(held.srp@),
                None => None,
            },
        }
    }
}

impl HiveAuth {
    /// What the SRP client of a trusted device on file computes from: the
    /// device's own identifiers and secret, in Hive's user pool.
    pub open spec fn spec_client_for(device: Option<TrustedDeviceView>) -> Option<DeviceClientView> {
        match device {
            Some(device) => Some(
                DeviceClientView { pool_id: POOL_ID@, device, client_id: CLIENT_ID@ },
            ),
            None => None,
        }
    }

    /// A new engine for `user`: no login is in progress, `device` is on
    /// file, and the SRP clients compute from the user's own username and
    /// password and from the device's own secret.
    pub open spec fn spec_new(user: UserView, device: Option<TrustedDeviceView>) -> HiveAuthView {
        HiveAuthView {
            username: user.username,
            device,
            session: None,
            rounds: 0,
            user_client: UserClientView {
                pool_id: POOL_ID@,
                username: user.username,
                password: user.password,
                client_id: CLIENT_ID@,
            },
            device_client: Self::spec_client_for(device),
        }
    }

    /// An engine for `user`, with no login in progress.
    #[must_use]
    pub fn new(user: &User, trusted_device: Option<&TrustedDevice>) -> (auth: Self)
        ensures
            auth@ == Self::spec_new(user@, trusted_device.deep_view()),
    {
        let mut auth = Self {
            username: user.username.clone(),
            user_srp: user_client(POOL_ID, user.username.as_str(), user.password.as_str(), CLIENT_ID),
            device: None,
            session: None,
            rounds: 0,
        };
        auth.replace_trusted_device(trusted_device);
        auth
    }

    /// Puts `trusted_device` on file in place of the device that was there,
    /// or takes the device off file.
    pub fn replace_trusted_device(&mut self, trusted_device: Option<&TrustedDevice>)
        ensures
            final(self)@ == old(self)@.with_device(trusted_device.deep_view()),
    {
        self.device =
        match trusted_device {
            Some(device) => Some(
                TrackedSrp {
                    device: device.clone(),
                    srp: device_client(
                        POOL_ID,
                        device.device_group_key.as_str(),
                        device.device_key.as_str(),
                        device.device_password.as_str(),
                        CLIENT_ID,
                    ),
                },
            ),
            None => None,
        };
    }

    /// The trusted device on file.
    pub fn trusted_device(&self) -> (device: Option<&TrustedDevice>)
        ensures
            device.deep_view() == self@.device,
    {
        match &self.device {
            Some(held) => Some(&held.device),
            None => None,
        }
    }

    /// The challenges that the login in progress has answered by itself.
    pub fn rounds(&self) -> (rounds: u32)
        ensures
            rounds == self@.rounds,
    {
        self.rounds
    }

    /// The login in progress.
    pub fn session(&self) -> (session: Option<&LoginSession>)
        ensures
            session.deep_view() == self@.session,
    {
        self.session.as_ref()
    }
}

} // verus!

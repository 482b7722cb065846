//! The Secure Remote Password capability, as provided by `aws_cognito_srp`.
//!
//! The opaque types and the functions marked `external_body` in this file
//! are trusted: their contracts are believed, not proved, and say only what
//! the crate's source shows. None of the calls fails on any text it is
//! given other than by returning an error.

use crate::authentication::parameters::lookup;
use crate::authentication::user::TrustedDeviceView;
use aws_cognito_srp::SrpClient;
use aws_cognito_srp::SrpError;
use aws_cognito_srp::TrackedDevice;
use aws_cognito_srp::UntrackedDevice;
use vstd::prelude::*;

verus! {

/// An `aws_cognito_srp::SrpClient` for a user's credentials. Its type has a
/// bound that cannot be declared to the verifier, so the client is held
/// behind this opaque struct: it carries the private ephemeral value of one
/// SRP exchange from the first request to the proof.
#[verifier::external_body]
pub struct UserSrp {
    client: SrpClient<aws_cognito_srp::User>,
}

/// An `aws_cognito_srp::SrpClient` for a confirmed device's credentials,
/// held opaquely like [`UserSrp`].
#[verifier::external_body]
pub struct DeviceSrp {
    client: SrpClient<TrackedDevice>,
}

/// `aws_cognito_srp::SrpError`, the failure of an SRP computation.
#[verifier::external_type_specification]
#[verifier::external_body]
pub struct ExSrpError(SrpError);

/// What a user's SRP client was made for: the pool id, the username, the
/// password and the client id, in this order. The client keeps them as
/// they were given.
pub uninterp spec fn user_credentials(srp: UserSrp) -> (Seq<char>, Seq<char>, Seq<char>, Seq<char>);

/// What a device's SRP client was made for: the pool id, the device group
/// key, the device key, the device password and the client id, in this
/// order. The client keeps them as they were given.
pub uninterp spec fn device_credentials(srp: DeviceSrp) -> (Seq<char>, Seq<char>, Seq<char>, Seq<char>, Seq<char>);

/// What a user's SRP client computes from.
pub struct UserClientView {
    pub pool_id: Seq<char>,
    pub username: Seq<char>,
    pub password: Seq<char>,
    pub client_id: Seq<char>,
}

/// What a device's SRP client computes from.
pub struct DeviceClientView {
    pub pool_id: Seq<char>,
    pub device: TrustedDeviceView,
    pub client_id: Seq<char>,
}

impl View for UserSrp {
    type V = UserClientView;

    open spec fn view(&self) -> UserClientView {
        let made_for = user_credentials(*self);
        UserClientView {
            pool_id: made_for.0,
            username: made_for.1,
            password: made_for.2,
            client_id: made_for.3,
        }
    }
}

impl View for DeviceSrp {
    type V = DeviceClientView;

    open spec fn view(&self) -> DeviceClientView {
        let made_for = device_credentials(*self);
        DeviceClientView {
            pool_id: made_for.0,
            device: TrustedDeviceView {
                device_group_key: made_for.1,
                device_key: made_for.2,
                device_password: made_for.3,
            },
            client_id: made_for.4,
        }
    }
}

/// The proof values that answer a password-verifier challenge.
#[derive(Debug)]
pub struct PasswordClaim {
    pub secret_block: String,
    pub signature: String,
    pub timestamp: String,
}

/// What a [`PasswordClaim`] is to the contracts.
pub struct PasswordClaimView {
    pub secret_block: Seq<char>,
    pub signature: Seq<char>,
    pub timestamp: Seq<char>,
}

impl View for PasswordClaim {
    type V = PasswordClaimView;

    open spec fn view(&self) -> PasswordClaimView {
        PasswordClaimView {
            secret_block: self.secret_block@,
            signature: self.signature@,
            timestamp: self.timestamp@,
        }
    }
}

/// What the outcome of a proof computation is to the contracts.
pub open spec fn claim_view(outcome: Result<PasswordClaim, SrpError>) -> Result<
    PasswordClaimView,
    SrpError,
> {
    match outcome {
        Ok(claim) => Ok(claim@),
        Err(e) => Err(e),
    }
}

impl PasswordClaimView {
    /// Whether this can be the proof for a challenge that came with
    /// `secret_block`: it carries that very block, and a signature and a
    /// timestamp that are not empty.
    pub open spec fn is_claim_of(self, secret_block: Seq<char>) -> bool {
        &&& self.secret_block == secret_block
        &&& self.signature.len() > 0
        &&& self.timestamp.len() > 0
    }
}

/// Whether `outcome` can be what a proof computation gives for a challenge
/// with these parameters: a proof is one of the challenge's own secret
/// block, so without that parameter there is none.
pub open spec fn is_claim_for(
    outcome: Result<PasswordClaimView, SrpError>,
    parameters: Map<Seq<char>, Seq<char>>,
) -> bool {
    outcome matches Ok(claim) ==> lookup(parameters, "SECRET_BLOCK"@) matches Some(secret_block)
        && claim.is_claim_of(secret_block)
}

/// The secret that was generated for a device, with the verifier and salt
/// by which the provider will recognise it.
#[derive(Debug)]
pub struct DeviceVerifier {
    pub verifier: String,
    pub salt: String,
    pub password: String,
}

/// What a [`DeviceVerifier`] is to the contracts.
pub struct DeviceVerifierView {
    pub verifier: Seq<char>,
    pub salt: Seq<char>,
    pub password: Seq<char>,
}

impl View for DeviceVerifier {
    type V = DeviceVerifierView;

    open spec fn view(&self) -> DeviceVerifierView {
        DeviceVerifierView { verifier: self.verifier@, salt: self.salt@, password: self.password@ }
    }
}

impl DeviceVerifierView {
    /// Whether the three values have the shape of generated ones: a secret
    /// of 56 characters, a salt of 44, and a verifier that is not empty.
    pub open spec fn is_generated(self) -> bool {
        &&& self.password.len() == 56
        &&& self.salt.len() == 44
        &&& self.verifier.len() > 0
    }

    /// Values of the generated shape, for where nothing was generated.
    pub open spec fn unused() -> DeviceVerifierView {
        DeviceVerifierView {
            verifier: seq!['0'],
            salt: Seq::new(44, |i: int| '0'),
            password: Seq::new(56, |i: int| '0'),
        }
    }
}

/// Calls `SrpClient::new` with `User::new(pool_id, username, password)` and
/// no client secret. The client keeps the four values it was given. It
/// also draws a fresh random private value, of which nothing is claimed.
#[verifier::external_body]
pub(crate) fn user_client(pool_id: &str, username: &str, password: &str, client_id: &str) -> (srp:
    UserSrp)
    ensures
        user_credentials(srp) == (pool_id@, username@, password@, client_id@),
{
    UserSrp { client: SrpClient::new(aws_cognito_srp::User::new(pool_id, username, password), client_id, None) }
}

/// Calls `SrpClient::<User>::get_auth_parameters` and hands out the public
/// value `A`. It derives from the client's random private value; it is the
/// hex encoding of a number's bytes, of which there is always one at least.
#[verifier::external_body]
pub(crate) fn user_public_value(srp: &UserSrp) -> (a: String)
    ensures
        a@.len() > 0,
{
    srp.client.get_auth_parameters().a
}

/// Calls `SrpClient::<User>::verify`. The signature and the timestamp depend
/// on the client's random private value and on the clock; the source shows
/// that on success the claim carries the secret block it was given, the
/// base64 encoding of a 32-byte signature, and a formatted date.
#[verifier::external_body]
pub(crate) fn user_verify(
    srp: &UserSrp,
    secret_block: &str,
    user_id: &str,
    salt: &str,
    srp_b: &str,
) -> (claim: Result<PasswordClaim, SrpError>)
    ensures
        claim matches Ok(c) ==> c@.is_claim_of(secret_block@),
{
    match srp.client.verify(secret_block, user_id, salt, srp_b) {
        Ok(p) => Ok(
            PasswordClaim {
                secret_block: p.password_claim_secret_block,
                signature: p.password_claim_signature,
                timestamp: p.timestamp,
            },
        ),
        Err(e) => Err(e),
    }
}

/// Calls `SrpClient::new` with `TrackedDevice::new(pool_id, device_group_key,
/// device_key, device_password)` and no client secret. The client keeps the
/// five values it was given. It also draws a fresh random private value,
/// of which nothing is claimed.
#[verifier::external_body]
pub(crate) fn device_client(
    pool_id: &str,
    device_group_key: &str,
    device_key: &str,
    device_password: &str,
    client_id: &str,
) -> (srp: DeviceSrp)
    ensures
        device_credentials(srp) == (
            pool_id@,
            device_group_key@,
            device_key@,
            device_password@,
            client_id@,
        ),
{
    let device = TrackedDevice::new(pool_id, device_group_key, device_key, device_password);
    DeviceSrp { client: SrpClient::new(device, client_id, None) }
}

/// Calls `SrpClient::<TrackedDevice>::get_auth_parameters` and hands out
/// the public value `A`. It derives from the client's random private
/// value; it is the hex encoding of a number's bytes, of which there is
/// always one at least.
#[verifier::external_body]
pub(crate) fn device_public_value(srp: &DeviceSrp) -> (a: String)
    ensures
        a@.len() > 0,
{
    srp.client.get_auth_parameters().a
}

/// Calls `SrpClient::<TrackedDevice>::verify`. The signature and the
/// timestamp depend on the client's random private value and on the clock;
/// the source shows that on success the claim carries the secret block it
/// was given, the base64 encoding of a 32-byte signature, and a formatted
/// date.
#[verifier::external_body]
pub(crate) fn device_verify(srp: &DeviceSrp, secret_block: &str, salt: &str, srp_b: &str) -> (claim:
    Result<PasswordClaim, SrpError>)
    ensures
        claim matches Ok(c) ==> c@.is_claim_of(secret_block@),
{
    match srp.client.verify(secret_block, salt, srp_b) {
        Ok(p) => Ok(
            PasswordClaim {
                secret_block: p.password_claim_secret_block,
                signature: p.password_claim_signature,
                timestamp: p.timestamp,
            },
        ),
        Err(e) => Err(e),
    }
}

/// Calls `SrpClient::<UntrackedDevice>::get_password_verifier` on a client
/// made for `UntrackedDevice::new(pool_id, device_group_key, device_key)`
/// with no client secret. The password and the salt are drawn at random.
/// The source shows their shape: the password is the base64 encoding of 40
/// bytes, the salt that of the 32 hex digits of 16 bytes, and the verifier
/// that of a number's bytes, of which there is always one at least.
#[verifier::external_body]
pub(crate) fn device_verifier(
    pool_id: &str,
    device_group_key: &str,
    device_key: &str,
    client_id: &str,
) -> (verifier: DeviceVerifier)
    ensures
        verifier@.is_generated(),
{
    let device = UntrackedDevice::new(pool_id, device_group_key, device_key);
    let p = SrpClient::new(device, client_id, None).get_password_verifier();
    DeviceVerifier { verifier: p.verifier, salt: p.salt, password: p.password }
}

} // verus!

//! The confirmation of a newly issued device, which makes it trusted.

use crate::authentication::error::AuthenticationError;
use crate::authentication::error::AuthenticationErrorView;
use crate::authentication::provider::ConfirmDeviceRequest;
use crate::authentication::provider::ConfirmDeviceRequestView;
use crate::authentication::provider::UpdateDeviceStatusRequest;
use crate::authentication::provider::UpdateDeviceStatusRequestView;
use crate::authentication::srp::device_verifier;
use crate::authentication::srp::DeviceVerifier;
use crate::authentication::srp::DeviceVerifierView;
use crate::authentication::user::Tokens;
use crate::authentication::user::TrustedDevice;
use crate::authentication::user::TrustedDeviceView;
use crate::authentication::user::UntrustedDevice;
use crate::authentication::user::UntrustedDeviceView;
use crate::authentication::HiveAuth;
use crate::authentication::HiveAuthView;
use crate::constants::CLIENT_ID;
use crate::constants::POOL_ID;
use vstd::prelude::*;

verus! {

/// A confirmation under way: the request that asks for it, and the
/// trusted device that the untrusted one becomes once the provider has
/// agreed.
#[derive(Debug)]
pub struct DeviceConfirmation {
    pub request: ConfirmDeviceRequest,
    pub device: TrustedDevice,
}

/// What a [`DeviceConfirmation`] is to the contracts.
pub struct DeviceConfirmationView {
    pub request: ConfirmDeviceRequestView,
    pub device: TrustedDeviceView,
}

impl View for DeviceConfirmation {
    type V = DeviceConfirmationView;

    open spec fn view(&self) -> DeviceConfirmationView {
        DeviceConfirmationView { request: self.request@, device: self.device@ }
    }
}

impl DeepView for DeviceConfirmation {
    type V = DeviceConfirmationView;

    open spec fn deep_view(&self) -> DeviceConfirmationView {
        self@
    }
}

/// What follows the provider's agreement to a confirmation.
#[derive(Debug)]
pub enum ConfirmationStep {
    /// The provider wants to be told that the device is to be remembered:
    /// send this, and on success call [`HiveAuth::device_remembered`] with
    /// the confirmation.
    UpdateStatus(UpdateDeviceStatusRequest, DeviceConfirmation),
    /// The device is trusted and on file.
    Trusted(TrustedDevice),
}

/// What a [`ConfirmationStep`] is to the contracts.
pub enum ConfirmationStepView {
    UpdateStatus(UpdateDeviceStatusRequestView, DeviceConfirmationView),
    Trusted(TrustedDeviceView),
}

impl View for ConfirmationStep {
    type V = ConfirmationStepView;

    open spec fn view(&self) -> ConfirmationStepView {
        match self {
            ConfirmationStep::UpdateStatus(request, confirmation) => {
                ConfirmationStepView::UpdateStatus(request@, confirmation@)
            },
            ConfirmationStep::Trusted(device) => ConfirmationStepView::Trusted(device@),
        }
    }
}

/// Whether `device` is the trusted device that the engine has on file:
/// trust goes by the device's key.
pub open spec fn already_trusted(auth: HiveAuthView, device: UntrustedDeviceView) -> bool {
    auth.device_key() == Some(device.device_key)
}

/// The confirmation of `device` under the name `device_name`, with the
/// secret, verifier and salt that were generated for it.
pub open spec fn spec_confirmation(
    device_name: Seq<char>,
    device: UntrustedDeviceView,
    access_token: Seq<char>,
    generated: DeviceVerifierView,
) -> DeviceConfirmationView {
    DeviceConfirmationView {
        request: ConfirmDeviceRequestView {
            device_key: device.device_key,
            device_name,
            access_token,
            password_verifier: generated.verifier,
            salt: generated.salt,
        },
        device: device.spec_trust(generated.password),
    }
}

/// What a request to confirm `device` comes to: a refusal where the device
/// is trusted already, since a second confirmation would invalidate the
/// secret it holds; the confirmation otherwise.
pub open spec fn spec_confirm_device(
    auth: HiveAuthView,
    device_name: Seq<char>,
    device: UntrustedDeviceView,
    access_token: Seq<char>,
    generated: DeviceVerifierView,
) -> Result<DeviceConfirmationView, AuthenticationErrorView> {
    if already_trusted(auth, device) {
        Err(AuthenticationErrorView::DeviceAlreadyTrusted)
    } else {
        Ok(spec_confirmation(device_name, device, access_token, generated))
    }
}

/// What follows the provider's agreement to `confirmation`, and the engine
/// after it: where the provider asks for it, the status update is still to
/// be sent and the engine stays as it was; otherwise the device is on file
/// as trusted.
pub open spec fn spec_device_confirmed(
    auth: HiveAuthView,
    confirmation: DeviceConfirmationView,
    user_confirmation_necessary: bool,
) -> (ConfirmationStepView, HiveAuthView) {
    if user_confirmation_necessary {
        (
            ConfirmationStepView::UpdateStatus(
                UpdateDeviceStatusRequestView {
                    device_key: confirmation.request.device_key,
                    access_token: confirmation.request.access_token,
                },
                confirmation,
            ),
            auth,
        )
    } else {
        (
            ConfirmationStepView::Trusted(confirmation.device),
            auth.with_device(Some(confirmation.device)),
        )
    }
}

/// What a `Result` of a confirmation is to the contracts.
pub open spec fn confirmation_view(
    outcome: Result<DeviceConfirmation, AuthenticationError>,
) -> Result<DeviceConfirmationView, AuthenticationErrorView> {
    match outcome {
        Ok(confirmation) => Ok(confirmation@),
        Err(e) => Err(e@),
    }
}

/// Builds the confirmation of `device` around the secret, verifier and
/// salt that were generated for it.
pub fn confirmation(
    device_name: &str,
    device: UntrustedDevice,
    access_token: &str,
    generated: DeviceVerifier,
) -> (confirmation: DeviceConfirmation)
    ensures
        confirmation@ == spec_confirmation(device_name@, device@, access_token@, generated@),
{
    let DeviceVerifier { verifier, salt, password } = generated;
    DeviceConfirmation {
        request: ConfirmDeviceRequest {
            device_key: device.device_key.clone(),
            device_name: device_name.to_owned(),
            access_token: access_token.to_owned(),
            password_verifier: verifier,
            salt,
        },
        device: device.trust(password),
    }
}

impl HiveAuth {
    /// Begins the confirmation of a device that the provider has newly
    /// issued: has the SRP capability generate a secret for it, with its
    /// verifier and salt, and builds the request that records them. A
    /// device that is already trusted is refused, and nothing is generated
    /// for it. The secret is drawn at random; whatever it is, it has the
    /// shape of a generated secret, which is not empty, and the outcome is
    /// [`spec_confirm_device`] of it.
    pub fn confirm_device(&self, device_name: &str, untrusted_device: UntrustedDevice, tokens: &Tokens) -> (outcome:
        Result<DeviceConfirmation, AuthenticationError>)
        ensures
            exists|generated: DeviceVerifierView|
                generated.is_generated() && confirmation_view(outcome)
                    == #[trigger] spec_confirm_device(
                    self@,
                    device_name@,
                    untrusted_device@,
                    tokens@.access_token,
                    generated,
                ),
    {
        let trusted = match &self.device {
            Some(held) => held.device.device_key == untrusted_device.device_key,
            None => false,
        };
        if trusted {
            assert(confirmation_view(Err(AuthenticationError::DeviceAlreadyTrusted))
                == spec_confirm_device(
                self@,
                device_name@,
                untrusted_device@,
                tokens@.access_token,
                DeviceVerifierView::unused(),
            ));
            Err(AuthenticationError::DeviceAlreadyTrusted)
        } else {
            let generated = device_verifier(
                POOL_ID,
                untrusted_device.device_group_key.as_str(),
                untrusted_device.device_key.as_str(),
                CLIENT_ID,
            );
            let ghost drawn = generated@;
            let confirmation = confirmation(
                device_name,
                untrusted_device,
                tokens.access_token().as_str(),
                generated,
            );
            assert(confirmation_view(Ok(confirmation)) == spec_confirm_device(
                self@,
                device_name@,
                untrusted_device@,
                tokens@.access_token,
                drawn,
            ));
            Ok(confirmation)
        }
    }

    /// Takes the provider's agreement to a confirmation. Where the
    /// provider says that the confirmation needs an explicit status update,
    /// that request is next; otherwise the device is put on file as
    /// trusted.
    pub fn device_confirmed(&mut self, confirmation: DeviceConfirmation, user_confirmation_necessary: bool) -> (step:
        ConfirmationStep)
        ensures
            (step@, final(self)@) == spec_device_confirmed(
                old(self)@,
                confirmation@,
                user_confirmation_necessary,
            ),
    {
        if user_confirmation_necessary {
            let request = UpdateDeviceStatusRequest {
                device_key: confirmation.request.device_key.clone(),
                access_token: confirmation.request.access_token.clone(),
            };
            ConfirmationStep::UpdateStatus(request, confirmation)
        } else {
            ConfirmationStep::Trusted(self.device_remembered(confirmation))
        }
    }

    /// Puts the device of a confirmation on file as trusted, once the
    /// provider has recorded it as remembered.
    pub fn device_remembered(&mut self, confirmation: DeviceConfirmation) -> (device: TrustedDevice)
        ensures
            device@ == confirmation@.device,
            final(self)@ == old(self)@.with_device(Some(confirmation@.device)),
    {
        self.replace_trusted_device(Some(&confirmation.device));
        confirmation.device
    }
}

} // verus!

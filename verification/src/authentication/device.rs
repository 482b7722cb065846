//! The identity of the device that authenticates, and its lifecycle: issued
//! as untrusted by the provider, made trusted by a confirmation.

use crate::authentication::error::AuthenticationError;
use crate::authentication::error::AuthenticationErrorView;
use crate::authentication::user::TrustedDevice;
use crate::authentication::user::TrustedDeviceView;
use crate::authentication::user::UntrustedDevice;
use crate::authentication::user::UntrustedDeviceView;
use vstd::prelude::*;

verus! {

/// The device of an account: either untrusted, with the identifiers that
/// the provider issued for it, or trusted, with the secret that its
/// confirmation generated as well. It is never both.
#[derive(Debug)]
pub enum AccountDevice {
    Untrusted(UntrustedDevice),
    Trusted(TrustedDevice),
}

/// What an [`AccountDevice`] is to the contracts.
pub enum AccountDeviceView {
    Untrusted(UntrustedDeviceView),
    Trusted(TrustedDeviceView),
}

impl View for AccountDevice {
    type V = AccountDeviceView;

    open spec fn view(&self) -> AccountDeviceView {
        match self {
            AccountDevice::Untrusted(device) => AccountDeviceView::Untrusted(device@),
            AccountDevice::Trusted(device) => AccountDeviceView::Trusted(device@),
        }
    }
}

impl DeepView for AccountDevice {
    type V = AccountDeviceView;

    open spec fn deep_view(&self) -> AccountDeviceView {
        self@
    }
}

impl UntrustedDeviceView {
    /// The trusted device that this one becomes with the secret
    /// `device_password`: its identifiers stay.
    pub open spec fn spec_trust(self, device_password: Seq<char>) -> TrustedDeviceView {
        TrustedDeviceView {
            device_group_key: self.device_group_key,
            device_key: self.device_key,
            device_password,
        }
    }
}

impl TrustedDeviceView {
    /// The identifiers of this device without its secret.
    pub open spec fn spec_identifiers(self) -> UntrustedDeviceView {
        UntrustedDeviceView { device_group_key: self.device_group_key, device_key: self.device_key }
    }
}

impl AccountDeviceView {
    /// The key by which the provider knows the device.
    pub open spec fn device_key(self) -> Seq<char> {
        match self {
            AccountDeviceView::Untrusted(device) => device.device_key,
            AccountDeviceView::Trusted(device) => device.device_key,
        }
    }

    /// The device once it has been confirmed with the secret
    /// `device_password`. A trusted device is not confirmed again: that
    /// would invalidate the secret it holds.
    pub open spec fn spec_promote(self, device_password: Seq<char>) -> Result<
        AccountDeviceView,
        AuthenticationErrorView,
    > {
        match self {
            AccountDeviceView::Untrusted(device) => Ok(
                AccountDeviceView::Trusted(device.spec_trust(device_password)),
            ),
            AccountDeviceView::Trusted(_) => Err(AuthenticationErrorView::DeviceAlreadyTrusted),
        }
    }

    /// The device once its owner has withdrawn the trust in it: the secret
    /// is gone, the identifiers stay.
    pub open spec fn spec_downgrade(self) -> AccountDeviceView {
        match self {
            AccountDeviceView::Untrusted(device) => AccountDeviceView::Untrusted(device),
            AccountDeviceView::Trusted(device) => AccountDeviceView::Untrusted(
                device.spec_identifiers(),
            ),
        }
    }
}

impl UntrustedDevice {
    /// Makes the device trusted, with the secret that its confirmation
    /// generated.
    pub fn trust(self, device_password: String) -> (device: TrustedDevice)
        ensures
            device@ == self@.spec_trust(device_password@),
    {
        TrustedDevice {
            device_group_key: self.device_group_key,
            device_key: self.device_key,
            device_password,
        }
    }
}

impl AccountDevice {
    /// The key by which the provider knows the device.
    pub fn device_key(&self) -> (key: &String)
        ensures
            key@ == self@.device_key(),
    {
        match self {
            AccountDevice::Untrusted(device) => &device.device_key,
            AccountDevice::Trusted(device) => &device.device_key,
        }
    }

    /// Whether the device holds a secret.
    pub fn is_trusted(&self) -> (trusted: bool)
        ensures
            trusted == (self@ is Trusted),
    {
        match self {
            AccountDevice::Untrusted(_) => false,
            AccountDevice::Trusted(_) => true,
        }
    }

    /// Confirms the device with the secret `device_password`. Only an
    /// untrusted device is confirmed; a trusted one is refused.
    pub fn promote(self, device_password: String) -> (promoted: Result<
        AccountDevice,
        AuthenticationError,
    >)
        ensures
            match promoted {
                Ok(device) => self@.spec_promote(device_password@) == Ok::<
                    AccountDeviceView,
                    AuthenticationErrorView,
                >(device@),
                Err(e) => self@.spec_promote(device_password@) == Err::<
                    AccountDeviceView,
                    AuthenticationErrorView,
                >(e@),
            },
    {
        match self {
            AccountDevice::Untrusted(device) => Ok(AccountDevice::Trusted(device.trust(device_password))),
            AccountDevice::Trusted(_) => Err(AuthenticationError::DeviceAlreadyTrusted),
        }
    }

    /// Withdraws the trust in the device. Nothing does this but the caller
    /// who asks for it.
    pub fn downgrade(self) -> (device: AccountDevice)
        ensures
            device@ == self@.spec_downgrade(),
    {
        match self {
            AccountDevice::Untrusted(device) => AccountDevice::Untrusted(device),
            AccountDevice::Trusted(device) => AccountDevice::Untrusted(
                UntrustedDevice {
                    device_group_key: device.device_group_key,
                    device_key: device.device_key,
                },
            ),
        }
    }
}

/// A confirmation leads one way: it makes an untrusted device trusted under
/// the same key, and on a trusted device it fails and changes nothing. So
/// of two confirmations in a row the second fails, and the secret of the
/// first is the one that the device holds.
pub proof fn lemma_promotion_leads_one_way(
    device: AccountDeviceView,
    first: Seq<char>,
    second: Seq<char>,
)
    ensures
        device is Untrusted ==> device.spec_promote(first) is Ok,
        device is Trusted ==> device.spec_promote(first) is Err,
        device.spec_promote(first) matches Ok(trusted) ==> {
            &&& trusted matches AccountDeviceView::Trusted(held) && held.device_password == first
            &&& trusted.device_key() == device.device_key()
            &&& trusted.spec_promote(second) == Err::<AccountDeviceView, AuthenticationErrorView>(
                AuthenticationErrorView::DeviceAlreadyTrusted,
            )
        },
{
}

} // verus!

use hive_client::authentication::confirm_device::ConfirmationStep;
use hive_client::authentication::{
    AccountDevice, AuthenticationError, HiveAuth, Tokens, TrustedDevice, UntrustedDevice, User,
};

fn user() -> User {
    User::new("example@example.com", "example")
}

fn tokens() -> Tokens {
    Tokens::issued_at("id".to_string(), "access-token".to_string(), "refresh".to_string(), 3600, 0)
}

fn issued() -> UntrustedDevice {
    UntrustedDevice::new("group-key", "eu-west-1_device-key")
}

#[test]
fn confirmation_records_a_generated_secret() {
    let auth = HiveAuth::new(&user(), None);
    let confirmation = auth
        .confirm_device("Home Automation", issued(), &tokens())
        .expect("a new device can be confirmed");
    assert_eq!(confirmation.request.device_key, "eu-west-1_device-key");
    assert_eq!(confirmation.request.device_name, "Home Automation");
    assert_eq!(confirmation.request.access_token, "access-token");
    assert!(!confirmation.request.password_verifier.is_empty());
    assert_eq!(confirmation.request.salt.chars().count(), 44);
    assert_eq!(confirmation.device.device_password.chars().count(), 56);
    assert_eq!(confirmation.device.device_key, "eu-west-1_device-key");
    assert_eq!(confirmation.device.device_group_key, "group-key");
    assert!(!confirmation.device.device_password.is_empty());
    assert_ne!(confirmation.device.device_password, confirmation.request.password_verifier);
    assert!(auth.trusted_device().is_none());
}

#[test]
fn each_confirmation_generates_its_own_secret() {
    let auth = HiveAuth::new(&user(), None);
    let first = auth.confirm_device("Home Automation", issued(), &tokens()).unwrap();
    let second = auth.confirm_device("Home Automation", issued(), &tokens()).unwrap();
    assert_ne!(first.device.device_password, second.device.device_password);
}

#[test]
fn confirmed_device_is_put_on_file() {
    let mut auth = HiveAuth::new(&user(), None);
    let confirmation = auth.confirm_device("Home Automation", issued(), &tokens()).unwrap();
    let secret = confirmation.device.device_password.clone();
    match auth.device_confirmed(confirmation, false) {
        ConfirmationStep::Trusted(device) => {
            assert_eq!(device.device_password, secret);
            assert_eq!(device.device_key, "eu-west-1_device-key");
            assert_eq!(device.device_group_key, "group-key");
        }
        other => panic!("unexpected step: {:?}", other),
    }
    let on_file = auth.trusted_device().expect("the device is trusted");
    assert_eq!(on_file.device_password, secret);
    assert_eq!(on_file.device_key, "eu-west-1_device-key");
}

#[test]
fn confirmation_that_needs_it_updates_the_status_first() {
    let mut auth = HiveAuth::new(&user(), None);
    let confirmation = auth.confirm_device("Home Automation", issued(), &tokens()).unwrap();
    let secret = confirmation.device.device_password.clone();
    let confirmation = match auth.device_confirmed(confirmation, true) {
        ConfirmationStep::UpdateStatus(request, confirmation) => {
            assert_eq!(request.device_key, "eu-west-1_device-key");
            assert_eq!(request.access_token, "access-token");
            confirmation
        }
        other => panic!("unexpected step: {:?}", other),
    };
    assert!(auth.trusted_device().is_none());
    let device = auth.device_remembered(confirmation);
    assert_eq!(device.device_password, secret);
    assert_eq!(auth.trusted_device().unwrap().device_password, secret);
}

#[test]
fn confirming_twice_is_refused_and_keeps_the_secret() {
    let mut auth = HiveAuth::new(&user(), None);
    let confirmation = auth.confirm_device("Home Automation", issued(), &tokens()).unwrap();
    let secret = confirmation.device.device_password.clone();
    auth.device_confirmed(confirmation, false);

    assert!(matches!(
        auth.confirm_device("Home Automation", issued(), &tokens()),
        Err(AuthenticationError::DeviceAlreadyTrusted)
    ));
    assert!(matches!(
        auth.confirm_device("Another Name", UntrustedDevice::new("other-group", "eu-west-1_device-key"), &tokens()),
        Err(AuthenticationError::DeviceAlreadyTrusted)
    ));
    assert_eq!(auth.trusted_device().unwrap().device_password, secret);
}

#[test]
fn trusted_device_given_at_login_is_not_confirmed_again() {
    let device = TrustedDevice::new("device_password", "device_group_key", "device_key");
    let auth = HiveAuth::new(&user(), Some(&device));
    assert!(matches!(
        auth.confirm_device("Home Automation", UntrustedDevice::new("device_group_key", "device_key"), &tokens()),
        Err(AuthenticationError::DeviceAlreadyTrusted)
    ));
    assert_eq!(auth.trusted_device().unwrap().device_password, "device_password");
}

#[test]
fn device_of_another_key_replaces_the_one_on_file() {
    let device = TrustedDevice::new("device_password", "device_group_key", "device_key");
    let mut auth = HiveAuth::new(&user(), Some(&device));
    let confirmation = auth.confirm_device("Home Automation", issued(), &tokens()).unwrap();
    auth.device_confirmed(confirmation, false);
    assert_eq!(auth.trusted_device().unwrap().device_key, "eu-west-1_device-key");
}

#[test]
fn trusted_device_is_replaced_or_taken_off_file() {
    let mut auth = HiveAuth::new(&user(), None);
    assert!(auth.trusted_device().is_none());
    let device = TrustedDevice::new("p", "g", "k");
    auth.replace_trusted_device(Some(&device));
    assert_eq!(auth.trusted_device().unwrap().device_key, "k");
    auth.replace_trusted_device(None);
    assert!(auth.trusted_device().is_none());
}

#[test]
fn untrusted_device_is_promoted_once() {
    let device = AccountDevice::Untrusted(UntrustedDevice::new("group", "key"));
    assert!(!device.is_trusted());
    assert_eq!(device.device_key(), "key");

    let promoted = device.promote("first-secret".to_string()).expect("an untrusted device is promoted");
    assert!(promoted.is_trusted());
    assert_eq!(promoted.device_key(), "key");
    match &promoted {
        AccountDevice::Trusted(held) => {
            assert_eq!(held.device_password, "first-secret");
            assert_eq!(held.device_group_key, "group");
        }
        other => panic!("unexpected device: {:?}", other),
    }

    assert!(matches!(
        promoted.promote("second-secret".to_string()),
        Err(AuthenticationError::DeviceAlreadyTrusted)
    ));
}

#[test]
fn trusted_device_is_downgraded_only_when_asked() {
    let device = AccountDevice::Trusted(TrustedDevice::new("secret", "group", "key"));
    match device.downgrade() {
        AccountDevice::Untrusted(device) => {
            assert_eq!(device.device_group_key, "group");
            assert_eq!(device.device_key, "key");
        }
        other => panic!("unexpected device: {:?}", other),
    }
    let untrusted = AccountDevice::Untrusted(UntrustedDevice::new("group", "key"));
    assert!(matches!(untrusted.downgrade(), AccountDevice::Untrusted(_)));
}

#[test]
fn untrusted_device_keeps_its_identifiers_when_trusted() {
    let device = UntrustedDevice::new("group", "key").trust("secret".to_string());
    assert_eq!(device.device_group_key, "group");
    assert_eq!(device.device_key, "key");
    assert_eq!(device.device_password, "secret");
}

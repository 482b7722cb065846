use hive_client::authentication::{Tokens, TrustedDevice, UntrustedDevice, User};

#[test]
fn user_keeps_username_and_password() {
    let user = User::new("example@example.com", "example");
    assert_eq!(user.username, "example@example.com");
    assert_eq!(user.password, "example");
}

#[test]
fn trusted_device_takes_the_password_first() {
    let device = TrustedDevice::new("device_password", "device_group_key", "device_key");
    assert_eq!(device.device_password, "device_password");
    assert_eq!(device.device_group_key, "device_group_key");
    assert_eq!(device.device_key, "device_key");
}

#[test]
fn trusted_device_clone_is_equal() {
    let device = TrustedDevice::new("p", "g", "k");
    let copy = device.clone();
    assert_eq!(copy.device_password, "p");
    assert_eq!(copy.device_group_key, "g");
    assert_eq!(copy.device_key, "k");
}

#[test]
fn untrusted_device_takes_the_group_key_first() {
    let device = UntrustedDevice::new("device_group_key", "device_key");
    assert_eq!(device.device_group_key, "device_group_key");
    assert_eq!(device.device_key, "device_key");
}

#[test]
fn tokens_expire_lifetime_after_issue() {
    let tokens = Tokens::issued_at("id".to_string(), "access".to_string(), "refresh".to_string(), 3600, 1_000);
    assert_eq!(tokens.id_token(), "id");
    assert_eq!(tokens.access_token(), "access");
    assert_eq!(tokens.refresh_token(), "refresh");
    assert_eq!(tokens.expires_at(), 3_601_000);
}

#[test]
fn tokens_with_negative_lifetime_expired_before_issue() {
    let tokens = Tokens::issued_at("id".to_string(), "access".to_string(), "refresh".to_string(), -1000, 5_000_000);
    assert_eq!(tokens.expires_at(), 4_000_000);
    assert!(tokens.is_expired(5_000_000));
}

#[test]
fn tokens_expiry_never_wraps() {
    let late = Tokens::issued_at(String::new(), String::new(), String::new(), i32::MAX, i64::MAX);
    assert_eq!(late.expires_at(), i64::MAX as i128 + 2_147_483_647_000);
    assert!(!late.is_expired(i64::MAX));
    let early = Tokens::issued_at(String::new(), String::new(), String::new(), i32::MIN, i64::MIN);
    assert_eq!(early.expires_at(), i64::MIN as i128 - 2_147_483_648_000);
    assert!(early.is_expired(i64::MIN));
}

#[test]
fn tokens_expire_at_the_very_moment() {
    let tokens = Tokens::issued_at("i".to_string(), "a".to_string(), "r".to_string(), 10, 0);
    assert!(!tokens.is_expired(9_999));
    assert!(tokens.is_expired(10_000));
    assert!(tokens.is_expired(10_001));
}

#[test]
fn tokens_issued_now_follow_the_clock() {
    let before = chrono::Utc::now().timestamp_millis() as i128;
    let tokens = Tokens::new("i".to_string(), "a".to_string(), "r".to_string(), 60);
    let after = chrono::Utc::now().timestamp_millis() as i128;
    assert!(before + 60_000 <= tokens.expires_at());
    assert!(tokens.expires_at() <= after + 60_000);
    assert_eq!(tokens.refresh_token(), "r");
}

#[test]
fn tokens_issued_now_with_negative_lifetime_are_expired() {
    let tokens = Tokens::new("i".to_string(), "a".to_string(), "r".to_string(), -1000);
    assert!(tokens.is_expired(chrono::Utc::now().timestamp_millis()));
}

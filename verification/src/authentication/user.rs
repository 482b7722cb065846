//! The people and devices that authenticate, and the tokens they are given.

use crate::authentication::clock::now_millis;
use vstd::prelude::*;

verus! {

/// A user registered with a Hive account.
#[derive(Debug)]
pub struct User {
    /// The username of the user: the email address the account was
    /// registered with.
    pub username: String,
    pub password: String,
}

/// What a [`User`] is to the contracts.
pub struct UserView {
    pub username: Seq<char>,
    pub password: Seq<char>,
}

impl View for User {
    type V = UserView;

    open spec fn view(&self) -> UserView {
        UserView { username: self.username@, password: self.password@ }
    }
}

impl User {
    /// Create a new user with the given username and password.
    #[must_use]
    pub fn new(username: &str, password: &str) -> (user: Self)
        ensures
            user@ == (UserView { username: username@, password: password@ }),
    {
        Self { username: username.to_owned(), password: password.to_owned() }
    }
}

/// A trusted device is a device that has been confirmed: it holds the
/// secret that was generated for it during confirmation.
#[derive(Debug)]
pub struct TrustedDevice {
    pub device_group_key: String,
    pub device_key: String,
    pub device_password: String,
}

/// What a [`TrustedDevice`] is to the contracts.
pub struct TrustedDeviceView {
    pub device_group_key: Seq<char>,
    pub device_key: Seq<char>,
    pub device_password: Seq<char>,
}

impl View for TrustedDevice {
    type V = TrustedDeviceView;

    open spec fn view(&self) -> TrustedDeviceView {
        TrustedDeviceView {
            device_group_key: self.device_group_key@,
            device_key: self.device_key@,
            device_password: self.device_password@,
        }
    }
}

impl DeepView for TrustedDevice {
    type V = TrustedDeviceView;

    open spec fn deep_view(&self) -> TrustedDeviceView {
        self@
    }
}

impl Clone for TrustedDevice {
    fn clone(&self) -> (copy: Self)
        ensures
            copy == *self,
    {
        Self {
            device_group_key: self.device_group_key.clone(),
            device_key: self.device_key.clone(),
            device_password: self.device_password.clone(),
        }
    }
}

impl TrustedDevice {
    /// Create a new trusted device which can be used to authenticate the
    /// user. Note the order: the device password comes first.
    #[must_use]
    pub fn new(device_password: &str, device_group_key: &str, device_key: &str) -> (device: Self)
        ensures
            device@ == (TrustedDeviceView {
                device_group_key: device_group_key@,
                device_key: device_key@,
                device_password: device_password@,
            }),
    {
        Self {
            device_password: device_password.to_owned(),
            device_group_key: device_group_key.to_owned(),
            device_key: device_key.to_owned(),
        }
    }
}

/// A device that the identity provider has issued identifiers for, and that
/// has not been confirmed yet.
#[derive(Debug)]
pub struct UntrustedDevice {
    pub device_group_key: String,
    pub device_key: String,
}

/// What an [`UntrustedDevice`] is to the contracts.
pub struct UntrustedDeviceView {
    pub device_group_key: Seq<char>,
    pub device_key: Seq<char>,
}

impl View for UntrustedDevice {
    type V = UntrustedDeviceView;

    open spec fn view(&self) -> UntrustedDeviceView {
        UntrustedDeviceView {
            device_group_key: self.device_group_key@,
            device_key: self.device_key@,
        }
    }
}

impl DeepView for UntrustedDevice {
    type V = UntrustedDeviceView;

    open spec fn deep_view(&self) -> UntrustedDeviceView {
        self@
    }
}

impl UntrustedDevice {
    #[must_use]
    pub fn new(device_group_key: &str, device_key: &str) -> (device: Self)
        ensures
            device@ == (UntrustedDeviceView {
                device_group_key: device_group_key@,
                device_key: device_key@,
            }),
    {
        Self { device_group_key: device_group_key.to_owned(), device_key: device_key.to_owned() }
    }
}

/// The moment, in milliseconds since the Unix epoch, at which tokens issued
/// at `now` with a lifetime of `expires_in` seconds stop being valid.
pub open spec fn expiry(now: i64, expires_in: i32) -> int {
    now + expires_in * 1000
}

/// The identity, access and refresh tokens of a session, with the moment at
/// which the first two expire. A token set is never changed once made: a
/// refresh makes a new one.
#[derive(Debug)]
pub struct Tokens {
    id_token: String,
    access_token: String,
    refresh_token: String,
    expires_at: i128,
}

/// What a token set is to the contracts.
pub struct TokensView {
    pub id_token: Seq<char>,
    pub access_token: Seq<char>,
    pub refresh_token: Seq<char>,
    /// Milliseconds since the Unix epoch.
    pub expires_at: int,
}

impl View for Tokens {
    type V = TokensView;

    closed spec fn view(&self) -> TokensView {
        TokensView {
            id_token: self.id_token@,
            access_token: self.access_token@,
            refresh_token: self.refresh_token@,
            expires_at: self.expires_at as int,
        }
    }
}

impl DeepView for Tokens {
    type V = TokensView;

    open spec fn deep_view(&self) -> TokensView {
        self@
    }
}

impl Tokens {
    /// The token set that was issued at `now` with a lifetime of
    /// `expires_in` seconds.
    pub open spec fn spec_issued_at(
        id_token: Seq<char>,
        access_token: Seq<char>,
        refresh_token: Seq<char>,
        expires_in: i32,
        now: i64,
    ) -> TokensView {
        TokensView { id_token, access_token, refresh_token, expires_at: expiry(now, expires_in) }
    }

    /// Tokens issued at the moment `now` (milliseconds since the Unix
    /// epoch) that live for `expires_in` seconds. The expiry is the exact
    /// sum, whatever the two are.
    #[must_use]
    pub fn issued_at(
        id_token: String,
        access_token: String,
        refresh_token: String,
        expires_in: i32,
        now: i64,
    ) -> (tokens: Self)
        ensures
            tokens@ == Self::spec_issued_at(
                id_token@,
                access_token@,
                refresh_token@,
                expires_in,
                now,
            ),
    {
        let lifetime: i128 = (expires_in as i128) * 1000;
        Self { id_token, access_token, refresh_token, expires_at: now as i128 + lifetime }
    }

    /// Tokens issued now that live for `expires_in` seconds. The moment of
    /// issue is what the clock says when this is called.
    #[must_use]
    pub fn new(id_token: String, access_token: String, refresh_token: String, expires_in: i32) -> (tokens:
        Self)
        ensures
            exists|now: i64|
                tokens@ == #[trigger] Self::spec_issued_at(
                    id_token@,
                    access_token@,
                    refresh_token@,
                    expires_in,
                    now,
                ),
    {
        let now = now_millis();
        Self::issued_at(id_token, access_token, refresh_token, expires_in, now)
    }

    pub fn id_token(&self) -> (token: &String)
        ensures
            token@ == self@.id_token,
    {
        &self.id_token
    }

    pub fn access_token(&self) -> (token: &String)
        ensures
            token@ == self@.access_token,
    {
        &self.access_token
    }

    pub fn refresh_token(&self) -> (token: &String)
        ensures
            token@ == self@.refresh_token,
    {
        &self.refresh_token
    }

    /// The moment of expiry, in milliseconds since the Unix epoch.
    pub fn expires_at(&self) -> (at: i128)
        ensures
            at == self@.expires_at,
    {
        self.expires_at
    }

    /// Whether the tokens can no longer be used at the moment `now`: they
    /// expire at the very moment of `expires_at`.
    pub fn is_expired(&self, now: i64) -> (expired: bool)
        ensures
            expired == (self@.expires_at <= now),
    {
        self.expires_at <= now as i128
    }
}

/// Tokens issued at `now` with a positive lifetime expire strictly after
/// `now`, and are not expired at any moment up to and including `now`.
pub proof fn lemma_fresh_tokens_outlive_issue(
    id_token: Seq<char>,
    access_token: Seq<char>,
    refresh_token: Seq<char>,
    expires_in: i32,
    now: i64,
)
    requires
        expires_in > 0,
    ensures
        Tokens::spec_issued_at(id_token, access_token, refresh_token, expires_in, now).expires_at
            > now,
{
}

} // verus!

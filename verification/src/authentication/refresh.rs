//! New tokens for a refresh token.

use crate::authentication::error::AuthenticationError;
use crate::authentication::error::AuthenticationErrorView;
use crate::authentication::login::push_device_key;
use crate::authentication::login::with_device_key;
use crate::authentication::provider::AuthFlow;
use crate::authentication::provider::AuthenticationResult;
use crate::authentication::provider::AuthenticationResultView;
use crate::authentication::provider::InitiateAuthRequest;
use crate::authentication::provider::InitiateAuthRequestView;
use crate::authentication::text::no_pairs;
use crate::authentication::text::push_pair;
use crate::authentication::user::Tokens;
use crate::authentication::user::TokensView;
use crate::authentication::HiveAuth;
use crate::constants::CLIENT_ID;
use vstd::prelude::*;

verus! {

/// The request for new tokens: the refresh token, and the key of the
/// trusted device where one is on file.
pub open spec fn spec_refresh_request(
    refresh_token: Seq<char>,
    device_key: Option<Seq<char>>,
) -> InitiateAuthRequestView {
    InitiateAuthRequestView {
        auth_flow: AuthFlow::RefreshTokenAuth,
        client_id: CLIENT_ID@,
        auth_parameters: with_device_key(seq![("REFRESH_TOKEN"@, refresh_token)], device_key),
    }
}

/// The tokens that a refresh at the moment `now` yields: the new identity
/// and access tokens with their new expiry, and the refresh token of
/// `current`, which the provider does not replace. A result that is
/// missing, or that lacks one of the two new tokens, is a failed refresh.
pub open spec fn spec_refreshed(
    current: TokensView,
    result: Option<AuthenticationResultView>,
    now: i64,
) -> Result<TokensView, AuthenticationErrorView> {
    match result {
        Some(
            AuthenticationResultView {
                id_token: Some(id_token),
                access_token: Some(access_token),
                refresh_token: _,
                expires_in,
                new_device_metadata: _,
            },
        ) => Ok(
            Tokens::spec_issued_at(id_token, access_token, current.refresh_token, expires_in, now),
        ),
        _ => Err(AuthenticationErrorView::AuthenticationRefreshFailed),
    }
}

/// What a refresh at the moment `now` yields; see [`spec_refreshed`].
pub fn refreshed(current: &Tokens, result: Option<AuthenticationResult>, now: i64) -> (tokens: Result<
    Tokens,
    AuthenticationError,
>)
    ensures
        match tokens {
            Ok(t) => spec_refreshed(current@, result.deep_view(), now) == Ok::<
                TokensView,
                AuthenticationErrorView,
            >(t@),
            Err(e) => spec_refreshed(current@, result.deep_view(), now) == Err::<
                TokensView,
                AuthenticationErrorView,
            >(e@),
        },
{
    match result {
        Some(
            AuthenticationResult {
                id_token: Some(id_token),
                access_token: Some(access_token),
                refresh_token: _,
                expires_in,
                new_device_metadata: _,
            },
        ) => Ok(
            Tokens::issued_at(
                id_token,
                access_token,
                current.refresh_token().clone(),
                expires_in,
                now,
            ),
        ),
        _ => Err(AuthenticationError::AuthenticationRefreshFailed),
    }
}

impl HiveAuth {
    /// The request that asks the provider for new tokens in place of
    /// `tokens`.
    pub fn refresh_tokens(&self, tokens: &Tokens) -> (request: InitiateAuthRequest)
        ensures
            request@ == spec_refresh_request(tokens@.refresh_token, self@.device_key()),
    {
        let device_key = match &self.device {
            Some(held) => Some(&held.device.device_key),
            None => None,
        };
        let mut auth_parameters = no_pairs();
        push_pair(&mut auth_parameters, "REFRESH_TOKEN", tokens.refresh_token().as_str());
        push_device_key(&mut auth_parameters, device_key);
        assert(auth_parameters.deep_view() =~= spec_refresh_request(
            tokens@.refresh_token,
            self@.device_key(),
        ).auth_parameters);
        InitiateAuthRequest {
            auth_flow: AuthFlow::RefreshTokenAuth,
            client_id: CLIENT_ID.to_owned(),
            auth_parameters,
        }
    }
}

} // verus!

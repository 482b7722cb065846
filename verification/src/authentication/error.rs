//! What can go wrong while authenticating.

use crate::authentication::challenge::ChallengeRequest;
use crate::authentication::challenge::ChallengeRequestView;
use aws_cognito_srp::SrpError;
use vstd::prelude::*;

verus! {

/// Errors that can occur while trying to confirm a device in order to make
/// it a trusted device.
#[derive(Debug)]
pub enum DeviceConfirmationError {
    /// The request to confirm the device failed; the provider's message.
    ConfirmationFailed(String),
    /// The request to update the device status failed; the provider's
    /// message.
    StatusUpdateFailed(String),
    /// The device being confirmed is already tracked, meaning no
    /// confirmation is needed.
    DeviceAlreadyTracked,
}

/// What a [`DeviceConfirmationError`] is to the contracts.
pub enum DeviceConfirmationErrorView {
    ConfirmationFailed(Seq<char>),
    StatusUpdateFailed(Seq<char>),
    DeviceAlreadyTracked,
}

impl View for DeviceConfirmationError {
    type V = DeviceConfirmationErrorView;

    open spec fn view(&self) -> DeviceConfirmationErrorView {
        match self {
            DeviceConfirmationError::ConfirmationFailed(m) => {
                DeviceConfirmationErrorView::ConfirmationFailed(m@)
            },
            DeviceConfirmationError::StatusUpdateFailed(m) => {
                DeviceConfirmationErrorView::StatusUpdateFailed(m@)
            },
            DeviceConfirmationError::DeviceAlreadyTracked => {
                DeviceConfirmationErrorView::DeviceAlreadyTracked
            },
        }
    }
}

/// Errors that can occur while trying to communicate with the Hive
/// authentication servers. None of them is retried or recovered from here:
/// each surfaces to the caller as it is.
#[derive(Debug)]
pub enum AuthenticationError {
    /// A response without a further challenge did not carry a complete set
    /// of tokens.
    AccessTokenNotValid,
    /// The challenge presented by the Hive authentication servers is not
    /// supported; the challenge's name.
    UnsupportedChallenge(String),
    /// The request to begin the authentication flow failed; the provider's
    /// message.
    LoginFailed(String),
    /// The request to respond to a challenge failed; the provider's
    /// message.
    ChallengeFailed(String),
    /// The request to sign the user out failed; the provider's message.
    LogoutFailed(String),
    /// A parameter which was expected to be present in the challenge was
    /// not found; the parameter's name.
    MissingChallengeParameter(String),
    /// The Secure Remote Password computation failed.
    SrpFailed(SrpError),
    /// A challenge was requested which requires the caller to act. This is
    /// an ordinary branch of a login, not a failure.
    NextChallenge(ChallengeRequest),
    /// The request to confirm the device failed.
    DeviceConfirmationError(DeviceConfirmationError),
    /// The request to refresh the authentication tokens failed.
    AuthenticationRefreshFailed,
    /// No authentication flow is in progress.
    NoAuthenticationInProgress,
    /// The user is not logged in.
    NotLoggedIn,
    /// The device being confirmed is already trusted; confirming it again
    /// would invalidate the secret it holds.
    DeviceAlreadyTrusted,
}

/// What an [`AuthenticationError`] is to the contracts.
pub enum AuthenticationErrorView {
    AccessTokenNotValid,
    UnsupportedChallenge(Seq<char>),
    LoginFailed(Seq<char>),
    ChallengeFailed(Seq<char>),
    LogoutFailed(Seq<char>),
    MissingChallengeParameter(Seq<char>),
    SrpFailed(SrpError),
    NextChallenge(ChallengeRequestView),
    DeviceConfirmationError(DeviceConfirmationErrorView),
    AuthenticationRefreshFailed,
    NoAuthenticationInProgress,
    NotLoggedIn,
    DeviceAlreadyTrusted,
}

impl View for AuthenticationError {
    type V = AuthenticationErrorView;

    open spec fn view(&self) -> AuthenticationErrorView {
        match self {
            AuthenticationError::AccessTokenNotValid => AuthenticationErrorView::AccessTokenNotValid,
            AuthenticationError::UnsupportedChallenge(n) => {
                AuthenticationErrorView::UnsupportedChallenge(n@)
            },
            AuthenticationError::LoginFailed(m) => AuthenticationErrorView::LoginFailed(m@),
            AuthenticationError::ChallengeFailed(m) => AuthenticationErrorView::ChallengeFailed(m@),
            AuthenticationError::LogoutFailed(m) => AuthenticationErrorView::LogoutFailed(m@),
            AuthenticationError::MissingChallengeParameter(n) => {
                AuthenticationErrorView::MissingChallengeParameter(n@)
            },
            AuthenticationError::SrpFailed(e) => AuthenticationErrorView::SrpFailed(*e),
            AuthenticationError::NextChallenge(c) => AuthenticationErrorView::NextChallenge(c@),
            AuthenticationError::DeviceConfirmationError(e) => {
                AuthenticationErrorView::DeviceConfirmationError(e@)
            },
            AuthenticationError::AuthenticationRefreshFailed => {
                AuthenticationErrorView::AuthenticationRefreshFailed
            },
            AuthenticationError::NoAuthenticationInProgress => {
                AuthenticationErrorView::NoAuthenticationInProgress
            },
            AuthenticationError::NotLoggedIn => AuthenticationErrorView::NotLoggedIn,
            AuthenticationError::DeviceAlreadyTrusted => AuthenticationErrorView::DeviceAlreadyTrusted,
        }
    }
}

/// What the outcome of a step that can fail is to the contracts.
pub open spec fn result_view<T: View>(outcome: Result<T, AuthenticationError>) -> Result<
    T::V,
    AuthenticationErrorView,
> {
    match outcome {
        Ok(value) => Ok(value@),
        Err(e) => Err(e@),
    }
}

} // verus!

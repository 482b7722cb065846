//! What can go wrong while calling the Hive API.

use crate::authentication::error::AuthenticationError;
use crate::authentication::error::AuthenticationErrorView;
use vstd::prelude::*;

verus! {

/// Errors that can occur while trying to communicate with the Hive API.
#[derive(Debug)]
pub enum ApiError {
    /// The request to the Hive API failed to return a successful response;
    /// the transport's message.
    RequestError(String),
    /// The response from the Hive API was valid, but could not be decoded;
    /// the decoder's message.
    InvalidResponse(String),
    /// The tokens that the call needs could not be had: either the user
    /// never logged in, or the refresh of expired tokens failed. The inner
    /// error tells the two apart.
    AuthenticationRefreshFailed(AuthenticationError),
}

/// What an [`ApiError`] is to the contracts.
pub enum ApiErrorView {
    RequestError(Seq<char>),
    InvalidResponse(Seq<char>),
    AuthenticationRefreshFailed(AuthenticationErrorView),
}

impl View for ApiError {
    type V = ApiErrorView;

    open spec fn view(&self) -> ApiErrorView {
        match self {
            ApiError::RequestError(m) => ApiErrorView::RequestError(m@),
            ApiError::InvalidResponse(m) => ApiErrorView::InvalidResponse(m@),
            ApiError::AuthenticationRefreshFailed(e) => ApiErrorView::AuthenticationRefreshFailed(e@),
        }
    }
}

} // verus!

//! The end of a session.

use crate::authentication::error::AuthenticationError;
use crate::authentication::error::AuthenticationErrorView;
use crate::authentication::provider::GlobalSignOutRequest;
use crate::authentication::user::Tokens;
use crate::authentication::HiveAuth;
use crate::authentication::HiveAuthView;
use vstd::prelude::*;

verus! {

impl HiveAuth {
    /// Discards the login in progress and builds the request that signs
    /// the user out at the provider. That request invalidates the tokens
    /// of every device of the user: a caller that only wants to forget
    /// this session drops its tokens and sends nothing.
    pub fn logout(&mut self, tokens: &Tokens) -> (request: GlobalSignOutRequest)
        ensures
            request.access_token@ == tokens@.access_token,
            final(self)@ == (HiveAuthView { session: None, ..old(self)@ }),
    {
        self.session = None;
        GlobalSignOutRequest { access_token: tokens.access_token().clone() }
    }

    /// Takes the failure of the request that signs the user out: the error
    /// is the one to hand to the caller, and the request is not sent again
    /// from here.
    pub fn logout_failed(&self, message: String) -> (failure: AuthenticationError)
        ensures
            failure@ == AuthenticationErrorView::LogoutFailed(message@),
    {
        AuthenticationError::LogoutFailed(message)
    }
}

} // verus!

//! Why a login attempt ended without a stored credential.

use vstd::prelude::*;

verus! {

/// The reasons for which a login attempt fails. Each one ends the attempt;
/// none carries a secret of the session.
#[derive(Debug, PartialEq, Eq)]
pub enum LoginError {
    /// A requested scope is not on the allow-list; the name is the scope.
    InvalidScope(String),
    /// The user did not allow the browser to be opened.
    UserDeclinedBrowserPrompt,
    /// The local listener could not be bound.
    ListenerBindFailure,
    /// The user declined consent on the authorization page.
    ConsentDenied,
    /// The redirect carried only one of the two expected parameters.
    MalformedCallback,
    /// No redirect arrived within the configured time.
    CallbackTimeout,
    /// The state returned with the redirect is not the one that was sent.
    CsrfMismatch,
    /// The token endpoint did not hand out an access token.
    TokenExchangeFailure,
    /// The credential store did not accept the credential.
    PersistenceFailure,
}

/// What a [`LoginError`] says, with text as a sequence of characters.
pub enum LoginErrorView {
    InvalidScope(Seq<char>),
    UserDeclinedBrowserPrompt,
    ListenerBindFailure,
    ConsentDenied,
    MalformedCallback,
    CallbackTimeout,
    CsrfMismatch,
    TokenExchangeFailure,
    PersistenceFailure,
}

impl View for LoginError {
    type V = LoginErrorView;

    open spec fn view(&self) -> LoginErrorView {
        match self {
            LoginError::InvalidScope(name) => LoginErrorView::InvalidScope(name@),
            LoginError::UserDeclinedBrowserPrompt => LoginErrorView::UserDeclinedBrowserPrompt,
            LoginError::ListenerBindFailure => LoginErrorView::ListenerBindFailure,
            LoginError::ConsentDenied => LoginErrorView::ConsentDenied,
            LoginError::MalformedCallback => LoginErrorView::MalformedCallback,
            LoginError::CallbackTimeout => LoginErrorView::CallbackTimeout,
            LoginError::CsrfMismatch => LoginErrorView::CsrfMismatch,
            LoginError::TokenExchangeFailure => LoginErrorView::TokenExchangeFailure,
            LoginError::PersistenceFailure => LoginErrorView::PersistenceFailure,
        }
    }
}

} // verus!

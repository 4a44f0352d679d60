//! The login as a state machine.
//!
//! [`step`] takes the stage the login is in and what has just happened, and
//! says which stage comes next and what is to be done. The caller binds the
//! listener, opens the browser, waits, talks to the token endpoint and to
//! the credential store; every decision is taken here.

use vstd::prelude::*;

use crate::callback::{CallbackOutcome, CallbackOutcomeView};
use crate::error::{LoginError, LoginErrorView};
use crate::scope::{resolve_scopes, resolved_scopes};
use crate::session::{
    build_authorization_request, csrf_matches, url_parses, AuthorizationRequest,
    AuthorizationRequestView, AuthorizationSession, AuthorizationSessionView,
};

verus! {

/// The kind of secret a credential holds.
#[derive(Debug, Clone, Copy, PartialEq, Eq)]
pub enum TokenType {
    /// An access token obtained through this login.
    Oauth,
}

/// What the credential store is given after a successful login.
#[derive(Debug, PartialEq, Eq)]
pub struct Credential {
    pub token_type: TokenType,
    pub secret: String,
}

/// A [`Credential`] with its secret as a sequence of characters.
pub struct CredentialView {
    pub token_type: TokenType,
    pub secret: Seq<char>,
}

impl View for Credential {
    type V = CredentialView;

    open spec fn view(&self) -> CredentialView {
        CredentialView { token_type: self.token_type, secret: self.secret@ }
    }
}

/// What the token endpoint hands out for an authorization code.
#[derive(Debug, PartialEq, Eq)]
pub struct ExchangeResult {
    pub access_token: String,
    pub token_type: String,
}

/// An [`ExchangeResult`] with its texts as sequences of characters.
pub struct ExchangeResultView {
    pub access_token: Seq<char>,
    pub token_type: Seq<char>,
}

impl View for ExchangeResult {
    type V = ExchangeResultView;

    open spec fn view(&self) -> ExchangeResultView {
        ExchangeResultView { access_token: self.access_token@, token_type: self.token_type@ }
    }
}

/// The credential made of an exchange result: the access token, kept as an
/// OAuth secret.
pub open spec fn credential_of(result: ExchangeResultView) -> CredentialView {
    CredentialView { token_type: TokenType::Oauth, secret: result.access_token }
}

/// Makes the credential for the store out of what the token endpoint
/// handed out.
pub fn credential_from(result: ExchangeResult) -> (credential: Credential)
    ensures
        credential@ == credential_of(result@),
{
    Credential { token_type: TokenType::Oauth, secret: result.access_token }
}

/// The stages of a login attempt.
#[derive(Debug, PartialEq, Eq)]
pub enum LoginState {
    /// Nothing has happened yet.
    Idle,
    /// The scopes to request are settled.
    ScopesResolved,
    /// The session's secrets are drawn and the address is built.
    SessionBuilt { request: AuthorizationRequest },
    /// The local listener is bound; the browser has not been opened yet.
    ServerListening { session: AuthorizationSession },
    /// The browser is open and the login waits for the redirect.
    AwaitingCallback { session: AuthorizationSession },
    /// A grant came back and its state is the session's own.
    CsrfChecked,
    /// The token endpoint handed out an access token.
    TokenExchanged,
    /// The credential is stored: the login succeeded.
    Persisted,
    /// The attempt is over without a stored credential.
    Failed { error: LoginError },
}

/// A [`LoginState`] with its texts as sequences of characters.
pub enum LoginStateView {
    Idle,
    ScopesResolved,
    SessionBuilt { request: AuthorizationRequestView },
    ServerListening { session: AuthorizationSessionView },
    AwaitingCallback { session: AuthorizationSessionView },
    CsrfChecked,
    TokenExchanged,
    Persisted,
    Failed { error: LoginErrorView },
}

impl View for LoginState {
    type V = LoginStateView;

    open spec fn view(&self) -> LoginStateView {
        match self {
            LoginState::Idle => LoginStateView::Idle,
            LoginState::ScopesResolved => LoginStateView::ScopesResolved,
            LoginState::SessionBuilt { request } => LoginStateView::SessionBuilt {
                request: request@,
            },
            LoginState::ServerListening { session } => LoginStateView::ServerListening {
                session: session@,
            },
            LoginState::AwaitingCallback { session } => LoginStateView::AwaitingCallback {
                session: session@,
            },
            LoginState::CsrfChecked => LoginStateView::CsrfChecked,
            LoginState::TokenExchanged => LoginStateView::TokenExchanged,
            LoginState::Persisted => LoginStateView::Persisted,
            LoginState::Failed { error } => LoginStateView::Failed { error: error@ },
        }
    }
}

/// What the caller reports to the login.
#[derive(Debug, PartialEq, Eq)]
pub enum LoginEvent {
    /// The login is asked for, with the scopes the user named, if any.
    Start { requested: Option<Vec<String>> },
    /// The session and the address were built.
    SessionReady { request: AuthorizationRequest },
    /// The listener is bound and accepts connections.
    ListenerBound,
    /// The listener could not be bound.
    ListenerBindFailed,
    /// The user agreed and the browser shows the consent page.
    BrowserOpened,
    /// The user did not allow the browser to be opened.
    BrowserDeclined,
    /// The listener handed on the outcome of a redirect.
    Callback { outcome: CallbackOutcome },
    /// The time to wait for the redirect is over.
    Timeout,
    /// The token endpoint handed out an access token.
    TokenReceived { result: ExchangeResult },
    /// The token endpoint could not be reached or refused the code.
    ExchangeFailed,
    /// The credential store took the credential.
    CredentialStored,
    /// The credential store did not take the credential.
    StoreFailed,
}

/// A [`LoginEvent`] with its texts as sequences of characters.
pub enum LoginEventView {
    Start { requested: Option<Seq<Seq<char>>> },
    SessionReady { request: AuthorizationRequestView },
    ListenerBound,
    ListenerBindFailed,
    BrowserOpened,
    BrowserDeclined,
    Callback { outcome: CallbackOutcomeView },
    Timeout,
    TokenReceived { result: ExchangeResultView },
    ExchangeFailed,
    CredentialStored,
    StoreFailed,
}

impl View for LoginEvent {
    type V = LoginEventView;

    open spec fn view(&self) -> LoginEventView {
        match self {
            LoginEvent::Start { requested } => LoginEventView::Start {
                requested: requested.deep_view(),
            },
            LoginEvent::SessionReady { request } => LoginEventView::SessionReady {
                request: request@,
            },
            LoginEvent::ListenerBound => LoginEventView::ListenerBound,
            LoginEvent::ListenerBindFailed => LoginEventView::ListenerBindFailed,
            LoginEvent::BrowserOpened => LoginEventView::BrowserOpened,
            LoginEvent::BrowserDeclined => LoginEventView::BrowserDeclined,
            LoginEvent::Callback { outcome } => LoginEventView::Callback { outcome: outcome@ },
            LoginEvent::Timeout => LoginEventView::Timeout,
            LoginEvent::TokenReceived { result } => LoginEventView::TokenReceived {
                result: result@,
            },
            LoginEvent::ExchangeFailed => LoginEventView::ExchangeFailed,
            LoginEvent::CredentialStored => LoginEventView::CredentialStored,
            LoginEvent::StoreFailed => LoginEventView::StoreFailed,
        }
    }
}

/// What the caller is to do next.
#[derive(Debug, PartialEq, Eq)]
pub enum LoginAction {
    /// Build the session and the address for these scopes.
    BuildSession { scopes: Vec<String> },
    /// Bind the local listener.
    BindListener,
    /// Ask the user and open this address in the browser.
    OpenBrowser { url: String },
    /// Wait for the listener to hand on an outcome, for a bounded time.
    AwaitCallback,
    /// Trade the code, with the PKCE verifier, for an access token.
    ExchangeToken { code: String, verifier: String },
    /// Give the credential to the store.
    StoreCredential { credential: Credential },
    /// Report success.
    Finish,
    /// Report the failure the login ended with.
    Abort,
    /// The event does not belong to the stage: there is nothing to do.
    Ignore,
}

/// A [`LoginAction`] with its texts as sequences of characters.
pub enum LoginActionView {
    BuildSession { scopes: Seq<Seq<char>> },
    BindListener,
    OpenBrowser { url: Seq<char> },
    AwaitCallback,
    ExchangeToken { code: Seq<char>, verifier: Seq<char> },
    StoreCredential { credential: CredentialView },
    Finish,
    Abort,
    Ignore,
}

impl View for LoginAction {
    type V = LoginActionView;

    open spec fn view(&self) -> LoginActionView {
        match self {
            LoginAction::BuildSession { scopes } => LoginActionView::BuildSession {
                scopes: scopes.deep_view(),
            },
            LoginAction::BindListener => LoginActionView::BindListener,
            LoginAction::OpenBrowser { url } => LoginActionView::OpenBrowser { url: url@ },
            LoginAction::AwaitCallback => LoginActionView::AwaitCallback,
            LoginAction::ExchangeToken { code, verifier } => LoginActionView::ExchangeToken {
                code: code@,
                verifier: verifier@,
            },
            LoginAction::StoreCredential { credential } => LoginActionView::StoreCredential {
                credential: credential@,
            },
            LoginAction::Finish => LoginActionView::Finish,
            LoginAction::Abort => LoginActionView::Abort,
            LoginAction::Ignore => LoginActionView::Ignore,
        }
    }
}

/// One move of the login: the stage it is in now, what the caller is to do,
/// and whether the listener has served its purpose and is to be shut down
/// first.
#[derive(Debug, PartialEq, Eq)]
pub struct LoginStep {
    pub state: LoginState,
    pub action: LoginAction,
    pub release_listener: bool,
}

/// A [`LoginStep`] with its texts as sequences of characters.
pub struct LoginStepView {
    pub state: LoginStateView,
    pub action: LoginActionView,
    pub release_listener: bool,
}

impl View for LoginStep {
    type V = LoginStepView;

    open spec fn view(&self) -> LoginStepView {
        LoginStepView {
            state: self.state@,
            action: self.action@,
            release_listener: self.release_listener,
        }
    }
}

/// The stages in which the local listener is bound.
pub open spec fn holds_listener(state: LoginStateView) -> bool {
    state is ServerListening || state is AwaitingCallback
}

/// The stages that end an attempt.
pub open spec fn is_terminal(state: LoginStateView) -> bool {
    state is Persisted || state is Failed
}

/// The move that ends the attempt with `error`, out of `state`.
pub open spec fn failure(state: LoginStateView, error: LoginErrorView) -> LoginStepView {
    LoginStepView {
        state: LoginStateView::Failed { error },
        action: LoginActionView::Abort,
        release_listener: holds_listener(state),
    }
}

/// The move that takes the login on to `next` with `action`, out of `state`.
pub open spec fn advance(state: LoginStateView, next: LoginStateView, action: LoginActionView) -> LoginStepView {
    LoginStepView {
        state: next,
        action,
        release_listener: holds_listener(state) && !holds_listener(next),
    }
}

/// The move for an event that does not belong to the stage: the login
/// stays where it is.
pub open spec fn ignored(state: LoginStateView) -> LoginStepView {
    LoginStepView { state, action: LoginActionView::Ignore, release_listener: false }
}

/// What follows from a redirect's outcome while the login waits for it. A
/// denial is looked for first, then a malformed redirect, then the state of
/// a grant; only a grant with the session's own state leads on to the
/// exchange. An outcome for another path changes nothing.
pub open spec fn after_callback(session: AuthorizationSessionView, outcome: CallbackOutcomeView) -> LoginStepView {
    let waiting = LoginStateView::AwaitingCallback { session };
    match outcome {
        CallbackOutcomeView::Denied => failure(waiting, LoginErrorView::ConsentDenied),
        CallbackOutcomeView::Malformed => failure(waiting, LoginErrorView::MalformedCallback),
        CallbackOutcomeView::Granted { code, state } => if state == session.csrf_token {
            advance(
                waiting,
                LoginStateView::CsrfChecked,
                LoginActionView::ExchangeToken { code, verifier: session.pkce_verifier },
            )
        } else {
            failure(waiting, LoginErrorView::CsrfMismatch)
        },
        CallbackOutcomeView::Unmatched => advance(waiting, waiting, LoginActionView::AwaitCallback),
    }
}

/// The login's rule: the move that follows from a stage and an event.
pub open spec fn transition(state: LoginStateView, event: LoginEventView) -> LoginStepView {
    match (state, event) {
        (LoginStateView::Idle, LoginEventView::Start { requested }) => match resolved_scopes(
            requested,
        ) {
            Ok(scopes) => advance(
                state,
                LoginStateView::ScopesResolved,
                LoginActionView::BuildSession { scopes },
            ),
            Err(error) => failure(state, error),
        },
        (LoginStateView::ScopesResolved, LoginEventView::SessionReady { request }) => advance(
            state,
            LoginStateView::SessionBuilt { request },
            LoginActionView::BindListener,
        ),
        (LoginStateView::SessionBuilt { request }, LoginEventView::ListenerBound) => advance(
            state,
            LoginStateView::ServerListening { session: request.session },
            LoginActionView::OpenBrowser { url: request.url },
        ),
        (LoginStateView::SessionBuilt { .. }, LoginEventView::ListenerBindFailed) => failure(
            state,
            LoginErrorView::ListenerBindFailure,
        ),
        (LoginStateView::ServerListening { session }, LoginEventView::BrowserOpened) => advance(
            state,
            LoginStateView::AwaitingCallback { session },
            LoginActionView::AwaitCallback,
        ),
        (LoginStateView::ServerListening { .. }, LoginEventView::BrowserDeclined) => failure(
            state,
            LoginErrorView::UserDeclinedBrowserPrompt,
        ),
        (
            LoginStateView::AwaitingCallback { session },
            LoginEventView::Callback { outcome },
        ) => after_callback(session, outcome),
        (LoginStateView::AwaitingCallback { .. }, LoginEventView::Timeout) => failure(
            state,
            LoginErrorView::CallbackTimeout,
        ),
        (LoginStateView::CsrfChecked, LoginEventView::TokenReceived { result }) => advance(
            state,
            LoginStateView::TokenExchanged,
            LoginActionView::StoreCredential { credential: credential_of(result) },
        ),
        (LoginStateView::CsrfChecked, LoginEventView::ExchangeFailed) => failure(
            state,
            LoginErrorView::TokenExchangeFailure,
        ),
        (LoginStateView::TokenExchanged, LoginEventView::CredentialStored) => advance(
            state,
            LoginStateView::Persisted,
            LoginActionView::Finish,
        ),
        (LoginStateView::TokenExchanged, LoginEventView::StoreFailed) => failure(
            state,
            LoginErrorView::PersistenceFailure,
        ),
        _ => ignored(state),
    }
}

/// Ends the attempt with `error`.
fn fail(release_listener: bool, error: LoginError) -> (next: LoginStep)
    ensures
        next@ == (LoginStepView {
            state: LoginStateView::Failed { error: error@ },
            action: LoginActionView::Abort,
            release_listener,
        }),
{
    LoginStep { state: LoginState::Failed { error }, action: LoginAction::Abort, release_listener }
}

/// Decides on the outcome of a redirect while the login waits for it.
fn on_callback(session: AuthorizationSession, outcome: CallbackOutcome) -> (next: LoginStep)
    ensures
        next@ == after_callback(session@, outcome@),
{
    match outcome {
        CallbackOutcome::Denied => fail(true, LoginError::ConsentDenied),
        CallbackOutcome::Malformed => fail(true, LoginError::MalformedCallback),
        CallbackOutcome::Granted { code, state } => {
            if csrf_matches(&session, state.as_str()) {
                LoginStep {
                    state: LoginState::CsrfChecked,
                    action: LoginAction::ExchangeToken { code, verifier: session.pkce_verifier },
                    release_listener: true,
                }
            } else {
                fail(true, LoginError::CsrfMismatch)
            }
        },
        CallbackOutcome::Unmatched => LoginStep {
            state: LoginState::AwaitingCallback { session },
            action: LoginAction::AwaitCallback,
            release_listener: false,
        },
    }
}

/// Takes the login one move on: from the stage it is in and what has just
/// happened to the stage that follows and what is to be done.
///
/// An event that does not belong to the stage leaves the login where it
/// is. A failure is final: no event leads out of it.
pub fn step(state: LoginState, event: LoginEvent) -> (next: LoginStep)
    ensures
        next@ == transition(state@, event@),
{
    match (state, event) {
        (LoginState::Idle, LoginEvent::Start { requested }) => {
            match resolve_scopes(requested.as_ref()) {
                Ok(scopes) => LoginStep {
                    state: LoginState::ScopesResolved,
                    action: LoginAction::BuildSession { scopes },
                    release_listener: false,
                },
                Err(error) => fail(false, error),
            }
        },
        (LoginState::ScopesResolved, LoginEvent::SessionReady { request }) => LoginStep {
            state: LoginState::SessionBuilt { request },
            action: LoginAction::BindListener,
            release_listener: false,
        },
        (LoginState::SessionBuilt { request }, LoginEvent::ListenerBound) => LoginStep {
            state: LoginState::ServerListening { session: request.session },
            action: LoginAction::OpenBrowser { url: request.url },
            release_listener: false,
        },
        (LoginState::SessionBuilt { .. }, LoginEvent::ListenerBindFailed) => fail(
            false,
            LoginError::ListenerBindFailure,
        ),
        (LoginState::ServerListening { session }, LoginEvent::BrowserOpened) => LoginStep {
            state: LoginState::AwaitingCallback { session },
            action: LoginAction::AwaitCallback,
            release_listener: false,
        },
        (LoginState::ServerListening { .. }, LoginEvent::BrowserDeclined) => fail(
            true,
            LoginError::UserDeclinedBrowserPrompt,
        ),
        (LoginState::AwaitingCallback { session }, LoginEvent::Callback { outcome }) => {
            on_callback(session, outcome)
        },
        (LoginState::AwaitingCallback { .. }, LoginEvent::Timeout) => fail(
            true,
            LoginError::CallbackTimeout,
        ),
        (LoginState::CsrfChecked, LoginEvent::TokenReceived { result }) => LoginStep {
            state: LoginState::TokenExchanged,
            action: LoginAction::StoreCredential { credential: credential_from(result) },
            release_listener: false,
        },
        (LoginState::CsrfChecked, LoginEvent::ExchangeFailed) => fail(
            false,
            LoginError::TokenExchangeFailure,
        ),
        (LoginState::TokenExchanged, LoginEvent::CredentialStored) => LoginStep {
            state: LoginState::Persisted,
            action: LoginAction::Finish,
            release_listener: false,
        },
        (LoginState::TokenExchanged, LoginEvent::StoreFailed) => fail(
            false,
            LoginError::PersistenceFailure,
        ),
        (state, _) => LoginStep { state, action: LoginAction::Ignore, release_listener: false },
    }
}

/// Starts a login and takes it as far as it goes without the outside
/// world: the scopes are resolved and, for them, the session's secrets are
/// drawn and the address is built.
///
/// A scope that is not permissible ends the login at once. Otherwise the
/// login stands at [`LoginState::SessionBuilt`] and asks for the listener,
/// unless `endpoint` or `redirect_uri` is no address: then no session can
/// be built, and the login stays at [`LoginState::ScopesResolved`].
pub fn begin(
    endpoint: &str,
    client_id: &str,
    redirect_uri: &str,
    requested: Option<Vec<String>>,
) -> (next: LoginStep)
    ensures
        match resolved_scopes(requested.deep_view()) {
            Err(error) => next@ == failure(LoginStateView::Idle, error),
            Ok(scopes) => if url_parses(endpoint@) && url_parses(redirect_uri@) {
                &&& next@.state matches LoginStateView::SessionBuilt { request }
                &&& request.is_for(endpoint@, client_id@, redirect_uri@, scopes)
                &&& next@.action == LoginActionView::BindListener
                &&& !next@.release_listener
            } else {
                next@ == advance(
                    LoginStateView::Idle,
                    LoginStateView::ScopesResolved,
                    LoginActionView::BuildSession { scopes },
                )
            },
        },
{
    let started = step(LoginState::Idle, LoginEvent::Start { requested });
    match started.action {
        LoginAction::BuildSession { scopes } => {
            match build_authorization_request(endpoint, client_id, redirect_uri, &scopes) {
                Some(request) => step(started.state, LoginEvent::SessionReady { request }),
                None => LoginStep {
                    state: started.state,
                    action: LoginAction::BuildSession { scopes },
                    release_listener: false,
                },
            }
        },
        action => LoginStep { state: started.state, action, release_listener: false },
    }
}

/// The place of a stage in the order of a successful login.
pub open spec fn stage(state: LoginStateView) -> nat {
    match state {
        LoginStateView::Idle => 0,
        LoginStateView::ScopesResolved => 1,
        LoginStateView::SessionBuilt { .. } => 2,
        LoginStateView::ServerListening { .. } => 3,
        LoginStateView::AwaitingCallback { .. } => 4,
        LoginStateView::CsrfChecked => 5,
        LoginStateView::TokenExchanged => 6,
        LoginStateView::Persisted => 7,
        LoginStateView::Failed { .. } => 8,
    }
}

/// A request with a scope that is not permissible ends the login at once:
/// the failure names the scope, and nothing is asked of the caller but to
/// report it.
pub proof fn lemma_invalid_scope_starts_nothing(requested: Option<Seq<Seq<char>>>)
    requires
        resolved_scopes(requested) is Err,
    ensures
        transition(LoginStateView::Idle, LoginEventView::Start { requested }) == (LoginStepView {
            state: LoginStateView::Failed { error: resolved_scopes(requested)->Err_0 },
            action: LoginActionView::Abort,
            release_listener: false,
        }),
{
}

/// A grant whose state is not the session's own ends the login with a
/// mismatch, and the listener is released.
pub proof fn lemma_csrf_mismatch_ends_the_login(
    session: AuthorizationSessionView,
    code: Seq<char>,
    state: Seq<char>,
)
    requires
        state != session.csrf_token,
    ensures
        transition(
            LoginStateView::AwaitingCallback { session },
            LoginEventView::Callback { outcome: CallbackOutcomeView::Granted { code, state } },
        ) == (LoginStepView {
            state: LoginStateView::Failed { error: LoginErrorView::CsrfMismatch },
            action: LoginActionView::Abort,
            release_listener: true,
        }),
{
}

/// The token endpoint is asked in one case only: the login was waiting for
/// the redirect, a grant came back, and its state is the session's own.
/// The code is the one of the grant and the verifier the session's.
pub proof fn lemma_exchange_needs_the_sessions_state(state: LoginStateView, event: LoginEventView)
    requires
        transition(state, event).action is ExchangeToken,
    ensures
        state matches LoginStateView::AwaitingCallback { session } && event
            == (LoginEventView::Callback {
            outcome: CallbackOutcomeView::Granted {
                code: transition(state, event).action->code,
                state: session.csrf_token,
            },
        }) && transition(state, event).action->verifier == session.pkce_verifier,
        transition(state, event).state is CsrfChecked,
{
}

/// The browser is opened on one move only: the one on which the caller
/// reports that the listener is bound. The address is the one that was
/// built for the session, and the listener stays bound.
pub proof fn lemma_browser_opens_after_listener_is_bound(
    state: LoginStateView,
    event: LoginEventView,
)
    requires
        transition(state, event).action is OpenBrowser,
    ensures
        state matches LoginStateView::SessionBuilt { request } && transition(
            state,
            event,
        ).action->url == request.url,
        event is ListenerBound,
        transition(state, event).state is ServerListening,
        !transition(state, event).release_listener,
{
}

/// The wait ends on an outcome that belongs to the login or on a timeout,
/// and on nothing else: any other event, and an outcome for another path,
/// leave the login waiting with its session untouched.
pub proof fn lemma_wait_ends_on_outcome_or_timeout(
    session: AuthorizationSessionView,
    event: LoginEventView,
)
    ensures
        ({
            let waiting = LoginStateView::AwaitingCallback { session };
            let ends = event is Timeout || (event matches LoginEventView::Callback { outcome }
                && !(outcome is Unmatched));
            if ends {
                !(transition(waiting, event).state is AwaitingCallback)
            } else {
                transition(waiting, event).state == waiting
            }
        }),
{
}

/// When the time to wait is over, the login ends with a timeout and the
/// listener is released.
pub proof fn lemma_timeout_ends_the_login(session: AuthorizationSessionView)
    ensures
        transition(LoginStateView::AwaitingCallback { session }, LoginEventView::Timeout) == (
        LoginStepView {
            state: LoginStateView::Failed { error: LoginErrorView::CallbackTimeout },
            action: LoginActionView::Abort,
            release_listener: true,
        }),
{
}

/// The end is final: no event leads out of success or failure, and none
/// asks anything more of the caller.
pub proof fn lemma_terminal_stages_stay(state: LoginStateView, event: LoginEventView)
    requires
        is_terminal(state),
    ensures
        transition(state, event) == ignored(state),
{
}

/// A move either leaves the login where it is, takes it to the stage that
/// comes next in order, or ends it in failure. No stage is skipped and none
/// is entered twice.
pub proof fn lemma_stages_follow_in_order(state: LoginStateView, event: LoginEventView)
    ensures
        ({
            let next = transition(state, event).state;
            next == state || next is Failed || stage(next) == stage(state) + 1
        }),
{
}

/// The listener is released exactly on the move that takes the login out
/// of the stages in which it is bound; the stages that end an attempt are
/// never among those.
pub proof fn lemma_listener_is_released(state: LoginStateView, event: LoginEventView)
    ensures
        transition(state, event).release_listener == (holds_listener(state) && !holds_listener(
            transition(state, event).state,
        )),
        is_terminal(transition(state, event).state) ==> !holds_listener(
            transition(state, event).state,
        ),
{
}

/// The store is given a credential in one case only: the state of the
/// grant was checked and the token endpoint handed out a token. The
/// credential is that token, kept as an OAuth secret.
pub proof fn lemma_only_an_exchanged_token_is_stored(state: LoginStateView, event: LoginEventView)
    requires
        transition(state, event).action is StoreCredential,
    ensures
        state is CsrfChecked,
        event matches LoginEventView::TokenReceived { result } && transition(
            state,
            event,
        ).action->credential == (CredentialView {
            token_type: TokenType::Oauth,
            secret: result.access_token,
        }),
{
}

/// Success is reached from one stage only, by one event: the token was
/// exchanged and the store took the credential.
pub proof fn lemma_success_needs_a_stored_credential(state: LoginStateView, event: LoginEventView)
    requires
        transition(state, event).state is Persisted,
        !(state is Persisted),
    ensures
        state is TokenExchanged,
        event is CredentialStored,
{
}

} // verus!

//! The secrets of one login attempt and the address the user is sent to.
//!
//! Random values, the PKCE challenge and the authorization address come from
//! the `oauth2` crate. The functions that call it are marked as trusted:
//! their contracts are read off the crate's source, not proved.

use oauth2::basic::BasicClient;
use oauth2::{
    AuthUrl, ClientId, CsrfToken, PkceCodeChallenge, PkceCodeVerifier, RedirectUrl, Scope,
};
use vstd::prelude::*;

use crate::error::LoginError;
use crate::text::same_text;

verus! {

/// What one login attempt keeps to itself between the request and the
/// redirect. It is made once per attempt and never reused.
#[derive(Debug, PartialEq, Eq)]
pub struct AuthorizationSession {
    /// The client identifier the request was made for.
    pub client_id: String,
    /// The local address the authorization server redirects to.
    pub redirect_uri: String,
    /// The PKCE secret, shown to the token endpoint only.
    pub pkce_verifier: String,
    /// The PKCE challenge derived from the verifier, sent with the request.
    pub pkce_challenge: String,
    /// The state sent with the request and expected back with the redirect.
    pub csrf_token: String,
}

/// An [`AuthorizationSession`] with its texts as sequences of characters.
pub struct AuthorizationSessionView {
    pub client_id: Seq<char>,
    pub redirect_uri: Seq<char>,
    pub pkce_verifier: Seq<char>,
    pub pkce_challenge: Seq<char>,
    pub csrf_token: Seq<char>,
}

impl View for AuthorizationSession {
    type V = AuthorizationSessionView;

    open spec fn view(&self) -> AuthorizationSessionView {
        AuthorizationSessionView {
            client_id: self.client_id@,
            redirect_uri: self.redirect_uri@,
            pkce_verifier: self.pkce_verifier@,
            pkce_challenge: self.pkce_challenge@,
            csrf_token: self.csrf_token@,
        }
    }
}

/// A session together with the address that opens the consent page for it.
#[derive(Debug, PartialEq, Eq)]
pub struct AuthorizationRequest {
    pub session: AuthorizationSession,
    pub url: String,
}

/// An [`AuthorizationRequest`] with its texts as sequences of characters.
pub struct AuthorizationRequestView {
    pub session: AuthorizationSessionView,
    pub url: Seq<char>,
}

impl View for AuthorizationRequest {
    type V = AuthorizationRequestView;

    open spec fn view(&self) -> AuthorizationRequestView {
        AuthorizationRequestView { session: self.session@, url: self.url@ }
    }
}

/// Whether `url::Url::parse` accepts `text`.
pub uninterp spec fn url_parses(text: Seq<char>) -> bool;

/// The S256 challenge that `oauth2` derives from a PKCE verifier: the
/// unpadded URL-safe base64 text of the SHA-256 digest of the verifier.
pub uninterp spec fn s256_challenge(verifier: Seq<char>) -> Seq<char>;

/// The address `oauth2` builds for an authorization-code request to
/// `endpoint` with the given client, redirect address and scopes, the S256
/// challenge of `verifier`, and `state`.
pub uninterp spec fn authorization_url(
    endpoint: Seq<char>,
    client_id: Seq<char>,
    redirect_uri: Seq<char>,
    scopes: Seq<Seq<char>>,
    verifier: Seq<char>,
    state: Seq<char>,
) -> Seq<char>;

/// The length a PKCE verifier must have: 43 to 128 bytes.
pub open spec fn verifier_length_ok(verifier: Seq<char>) -> bool {
    43 <= vstd::utf8::encode_utf8(verifier).len() <= 128
}

/// Calls `url::Url::parse` and tells whether it accepted the text.
#[verifier::external_body]
fn parses_as_url(text: &str) -> (accepted: bool)
    ensures
        accepted == url_parses(text@),
{
    url::Url::parse(text).is_ok()
}

/// Calls `PkceCodeChallenge::new_random_sha256` and keeps the verifier. The
/// verifier is random; the call itself derives a challenge from it, which
/// it can only do for a verifier of 43 to 128 bytes.
#[verifier::external_body]
fn fresh_pkce_verifier() -> (verifier: String)
    ensures
        verifier_length_ok(verifier@),
{
    let (_, verifier) = PkceCodeChallenge::new_random_sha256();
    verifier.secret().clone()
}

/// Calls `CsrfToken::new_random`. Nothing is claimed of the token.
#[verifier::external_body]
fn fresh_state_token() -> String {
    CsrfToken::new_random().secret().clone()
}

/// Calls `PkceCodeChallenge::from_code_verifier_sha256`, which panics on a
/// verifier shorter than 43 or longer than 128 bytes and otherwise depends
/// on the verifier alone.
#[verifier::external_body]
fn derive_s256_challenge(verifier: &str) -> (challenge: String)
    requires
        verifier_length_ok(verifier@),
    ensures
        challenge@ == s256_challenge(verifier@),
{
    let verifier = PkceCodeVerifier::new(verifier.to_owned());
    PkceCodeChallenge::from_code_verifier_sha256(&verifier).as_str().to_owned()
}

/// Builds the address with `oauth2`: a client for `endpoint` and
/// `redirect_uri`, `Client::authorize_url` with `state`, the S256 challenge
/// of `verifier`, the scopes in their order, then `AuthorizationRequest::url`.
/// `AuthUrl::new` and `RedirectUrl::new` accept what `url::Url::parse`
/// accepts; the rest depends on the arguments alone.
#[verifier::external_body]
fn oauth2_authorization_url(
    endpoint: &str,
    client_id: &str,
    redirect_uri: &str,
    scopes: &Vec<String>,
    verifier: &str,
    state: &str,
) -> (address: Option<String>)
    requires
        url_parses(endpoint@),
        url_parses(redirect_uri@),
        verifier_length_ok(verifier@),
    ensures
        address is Some,
        address.unwrap()@ == authorization_url(
            endpoint@,
            client_id@,
            redirect_uri@,
            scopes.deep_view(),
            verifier@,
            state@,
        ),
{
    let auth = AuthUrl::new(endpoint.to_owned()).ok()?;
    let redirect = RedirectUrl::new(redirect_uri.to_owned()).ok()?;
    let client = BasicClient::new(ClientId::new(client_id.to_owned()), None, auth, None)
        .set_redirect_uri(redirect);
    let verifier = PkceCodeVerifier::new(verifier.to_owned());
    let token = CsrfToken::new(state.to_owned());
    let request = client
        .authorize_url(move || token)
        .set_pkce_challenge(PkceCodeChallenge::from_code_verifier_sha256(&verifier))
        .add_scopes(scopes.iter().map(|scope| Scope::new(scope.clone())));
    Some(request.url().0.to_string())
}

/// The challenge that goes with a verifier: its S256 challenge for a
/// verifier of 43 to 128 bytes, none for any other.
pub open spec fn challenge_for(verifier: Seq<char>) -> Option<Seq<char>> {
    if verifier_length_ok(verifier) {
        Some(s256_challenge(verifier))
    } else {
        None
    }
}

/// The S256 challenge of a PKCE verifier, for a verifier of 43 to 128
/// bytes; none for any other.
pub fn pkce_challenge_for(verifier: &str) -> (challenge: Option<String>)
    ensures
        challenge.deep_view() == challenge_for(verifier@),
{
    let length = verifier.as_bytes().len();
    if 43 <= length && length <= 128 {
        Some(derive_s256_challenge(verifier))
    } else {
        None
    }
}

impl AuthorizationRequestView {
    /// The request was made for these inputs: the session repeats the
    /// client and the redirect address, its challenge is the S256 challenge
    /// of its verifier, and the address is the one `oauth2` builds from the
    /// inputs and the session's secrets.
    pub open spec fn is_for(
        self,
        endpoint: Seq<char>,
        client_id: Seq<char>,
        redirect_uri: Seq<char>,
        scopes: Seq<Seq<char>>,
    ) -> bool {
        &&& self.session.client_id == client_id
        &&& self.session.redirect_uri == redirect_uri
        &&& verifier_length_ok(self.session.pkce_verifier)
        &&& self.session.pkce_challenge == s256_challenge(self.session.pkce_verifier)
        &&& self.url == authorization_url(
            endpoint,
            client_id,
            redirect_uri,
            scopes,
            self.session.pkce_verifier,
            self.session.csrf_token,
        )
    }
}

/// Makes the session and the address from secrets that were already drawn.
pub fn assemble_request(
    endpoint: &str,
    client_id: &str,
    redirect_uri: &str,
    scopes: &Vec<String>,
    verifier: String,
    state: String,
) -> (request: AuthorizationRequest)
    requires
        url_parses(endpoint@),
        url_parses(redirect_uri@),
        verifier_length_ok(verifier@),
    ensures
        request@.is_for(endpoint@, client_id@, redirect_uri@, scopes.deep_view()),
        request@.session.pkce_verifier == verifier@,
        request@.session.csrf_token == state@,
{
    let challenge = derive_s256_challenge(verifier.as_str());
    let url = oauth2_authorization_url(
        endpoint,
        client_id,
        redirect_uri,
        scopes,
        verifier.as_str(),
        state.as_str(),
    ).unwrap();
    AuthorizationRequest {
        session: AuthorizationSession {
            client_id: client_id.to_owned(),
            redirect_uri: redirect_uri.to_owned(),
            pkce_verifier: verifier,
            pkce_challenge: challenge,
            csrf_token: state,
        },
        url,
    }
}

/// Starts a login attempt: draws a fresh PKCE verifier and a fresh state
/// token, and builds the session and the address to open.
///
/// There is a request exactly when `endpoint` and `redirect_uri` are
/// addresses that `url::Url::parse` accepts.
pub fn build_authorization_request(
    endpoint: &str,
    client_id: &str,
    redirect_uri: &str,
    scopes: &Vec<String>,
) -> (built: Option<AuthorizationRequest>)
    ensures
        built is Some <==> url_parses(endpoint@) && url_parses(redirect_uri@),
        built matches Some(request) ==> request@.is_for(
            endpoint@,
            client_id@,
            redirect_uri@,
            scopes.deep_view(),
        ),
{
    if parses_as_url(endpoint) && parses_as_url(redirect_uri) {
        let verifier = fresh_pkce_verifier();
        let state = fresh_state_token();
        Some(assemble_request(endpoint, client_id, redirect_uri, scopes, verifier, state))
    } else {
        None
    }
}

/// Whether the state that came back with a redirect is the session's own:
/// an exact comparison of the two texts.
pub fn csrf_matches(session: &AuthorizationSession, returned_state: &str) -> (matches: bool)
    ensures
        matches == (returned_state@ == session@.csrf_token),
{
    same_text(returned_state, session.csrf_token.as_str())
}

/// Accepts the state of a redirect, or refuses it with
/// [`LoginError::CsrfMismatch`].
pub fn check_csrf(session: &AuthorizationSession, returned_state: &str) -> (checked: Result<
    (),
    LoginError,
>)
    ensures
        checked is Ok <==> returned_state@ == session@.csrf_token,
        checked matches Err(error) ==> error == LoginError::CsrfMismatch,
{
    if csrf_matches(session, returned_state) {
        Ok(())
    } else {
        Err(LoginError::CsrfMismatch)
    }
}

/// The challenge of a request can be checked against its verifier:
/// deriving the challenge from the verifier again gives the challenge that
/// was sent, every time.
pub proof fn lemma_challenge_is_verifiable(
    request: AuthorizationRequestView,
    endpoint: Seq<char>,
    client_id: Seq<char>,
    redirect_uri: Seq<char>,
    scopes: Seq<Seq<char>>,
)
    requires
        request.is_for(endpoint, client_id, redirect_uri, scopes),
    ensures
        challenge_for(request.session.pkce_verifier) == Some(request.session.pkce_challenge),
{
}

/// Two requests with the same verifier carry the same challenge.
pub proof fn lemma_challenge_depends_on_verifier_alone(
    first: AuthorizationRequestView,
    second: AuthorizationRequestView,
    endpoint: Seq<char>,
    client_id: Seq<char>,
    redirect_uri: Seq<char>,
    scopes: Seq<Seq<char>>,
)
    requires
        first.is_for(endpoint, client_id, redirect_uri, scopes),
        second.is_for(endpoint, client_id, redirect_uri, scopes),
        first.session.pkce_verifier == second.session.pkce_verifier,
    ensures
        first.session.pkce_challenge == second.session.pkce_challenge,
{
}

} // verus!

use oauth_login::error::LoginError;
use oauth_login::session::{
    assemble_request, build_authorization_request, check_csrf, csrf_matches, pkce_challenge_for,
    AuthorizationRequest, AuthorizationSession,
};

const ENDPOINT: &str = "https://auth.example.com/oauth2/auth";
const REDIRECT: &str = "http://localhost:8976/oauth/callback";
const VERIFIER: &str = "dBjftJeZ4CVP-mB92K27uhbUJU1p1r_wW1gFWFOEjXk";
const CHALLENGE: &str = "E9Melhoa2OwvFrEMTJguCHaoeK1t8URWbuGJSstw-cM";

fn names(list: &[&str]) -> Vec<String> {
    list.iter().map(|name| name.to_string()).collect()
}

fn session_with_token(token: &str) -> AuthorizationSession {
    AuthorizationSession {
        client_id: "client".to_string(),
        redirect_uri: REDIRECT.to_string(),
        pkce_verifier: VERIFIER.to_string(),
        pkce_challenge: CHALLENGE.to_string(),
        csrf_token: token.to_string(),
    }
}

fn query_of(url: &str) -> Vec<(String, String)> {
    let parsed = url::Url::parse(url).unwrap();
    parsed.query_pairs().map(|(name, value)| (name.into_owned(), value.into_owned())).collect()
}

fn pair(name: &str, value: &str) -> (String, String) {
    (name.to_string(), value.to_string())
}

#[test]
fn challenge_of_a_known_verifier() {
    assert_eq!(pkce_challenge_for(VERIFIER), Some(CHALLENGE.to_string()));
}

#[test]
fn challenge_derivation_gives_the_same_result_again() {
    assert_eq!(pkce_challenge_for(VERIFIER), pkce_challenge_for(VERIFIER));
}

#[test]
fn challenge_is_not_the_verifier() {
    let verifier = "a".repeat(43);
    let challenge = pkce_challenge_for(&verifier).unwrap();
    assert_ne!(challenge, verifier);
    assert_eq!(challenge.len(), 43);
}

#[test]
fn verifier_length_bounds() {
    assert_eq!(pkce_challenge_for(""), None);
    assert_eq!(pkce_challenge_for(&"a".repeat(42)), None);
    assert!(pkce_challenge_for(&"a".repeat(43)).is_some());
    assert!(pkce_challenge_for(&"a".repeat(128)).is_some());
    assert_eq!(pkce_challenge_for(&"a".repeat(129)), None);
}

#[test]
fn verifier_length_is_counted_in_bytes() {
    // 22 characters of two bytes each: 44 bytes.
    assert!(pkce_challenge_for(&"é".repeat(22)).is_some());
    // 21 characters of two bytes each: 42 bytes.
    assert_eq!(pkce_challenge_for(&"é".repeat(21)), None);
    // 64 characters of two bytes each: 128 bytes; 65 of them: 130 bytes.
    assert!(pkce_challenge_for(&"é".repeat(64)).is_some());
    assert_eq!(pkce_challenge_for(&"é".repeat(65)), None);
}

#[test]
fn assembled_request_has_the_expected_address() {
    let scopes = names(&["account:read", "zone:read"]);
    let request = assemble_request(
        ENDPOINT,
        "my-client",
        REDIRECT,
        &scopes,
        VERIFIER.to_string(),
        "st4te".to_string(),
    );
    assert_eq!(
        request,
        AuthorizationRequest {
            session: AuthorizationSession {
                client_id: "my-client".to_string(),
                redirect_uri: REDIRECT.to_string(),
                pkce_verifier: VERIFIER.to_string(),
                pkce_challenge: CHALLENGE.to_string(),
                csrf_token: "st4te".to_string(),
            },
            url: "https://auth.example.com/oauth2/auth?response_type=code&client_id=my-client\
                  &state=st4te&code_challenge=E9Melhoa2OwvFrEMTJguCHaoeK1t8URWbuGJSstw-cM\
                  &code_challenge_method=S256\
                  &redirect_uri=http%3A%2F%2Flocalhost%3A8976%2Foauth%2Fcallback\
                  &scope=account%3Aread+zone%3Aread"
                .to_string(),
        }
    );
}

#[test]
fn assembled_request_without_scopes_has_no_scope_parameter() {
    let request = assemble_request(
        ENDPOINT,
        "my-client",
        REDIRECT,
        &Vec::new(),
        VERIFIER.to_string(),
        "st4te".to_string(),
    );
    assert_eq!(
        query_of(&request.url),
        vec![
            pair("response_type", "code"),
            pair("client_id", "my-client"),
            pair("state", "st4te"),
            pair("code_challenge", CHALLENGE),
            pair("code_challenge_method", "S256"),
            pair("redirect_uri", REDIRECT),
        ]
    );
}

#[test]
fn built_request_carries_what_the_server_needs() {
    let scopes = names(&["user:read", "workers:write"]);
    let request = build_authorization_request(ENDPOINT, "my-client", REDIRECT, &scopes).unwrap();
    let session = &request.session;
    assert_eq!(session.client_id, "my-client");
    assert_eq!(session.redirect_uri, REDIRECT);
    assert!(request.url.starts_with("https://auth.example.com/oauth2/auth?"));
    assert_eq!(
        query_of(&request.url),
        vec![
            pair("response_type", "code"),
            pair("client_id", "my-client"),
            pair("state", &session.csrf_token),
            pair("code_challenge", &session.pkce_challenge),
            pair("code_challenge_method", "S256"),
            pair("redirect_uri", REDIRECT),
            pair("scope", "user:read workers:write"),
        ]
    );
}

#[test]
fn built_challenge_is_derived_from_the_built_verifier() {
    let request = build_authorization_request(ENDPOINT, "my-client", REDIRECT, &Vec::new()).unwrap();
    let session = request.session;
    assert_eq!(session.pkce_verifier.len(), 43);
    assert_eq!(pkce_challenge_for(&session.pkce_verifier), Some(session.pkce_challenge));
}

#[test]
fn built_secrets_are_long_enough() {
    let request = build_authorization_request(ENDPOINT, "my-client", REDIRECT, &Vec::new()).unwrap();
    // 32 random bytes behind the verifier, 16 behind the state, in base64.
    assert_eq!(request.session.pkce_verifier.len(), 43);
    assert_eq!(request.session.csrf_token.len(), 22);
}

#[test]
fn two_requests_share_no_secret() {
    let scopes = names(&["zone:read"]);
    let first = build_authorization_request(ENDPOINT, "my-client", REDIRECT, &scopes).unwrap();
    let second = build_authorization_request(ENDPOINT, "my-client", REDIRECT, &scopes).unwrap();
    assert_ne!(first.session.pkce_verifier, second.session.pkce_verifier);
    assert_ne!(first.session.pkce_challenge, second.session.pkce_challenge);
    assert_ne!(first.session.csrf_token, second.session.csrf_token);
    assert_ne!(first.url, second.url);
}

#[test]
fn no_request_for_an_endpoint_that_is_no_address() {
    let scopes = names(&["zone:read"]);
    assert_eq!(build_authorization_request("not an address", "my-client", REDIRECT, &scopes), None);
    assert_eq!(build_authorization_request("", "my-client", REDIRECT, &scopes), None);
}

#[test]
fn no_request_for_a_redirect_that_is_no_address() {
    let scopes = names(&["zone:read"]);
    assert_eq!(build_authorization_request(ENDPOINT, "my-client", "/oauth/callback", &scopes), None);
    assert_eq!(build_authorization_request(ENDPOINT, "my-client", "", &scopes), None);
}

#[test]
fn the_sessions_own_state_is_accepted() {
    let session = session_with_token("xyz");
    assert!(csrf_matches(&session, "xyz"));
    assert_eq!(check_csrf(&session, "xyz"), Ok(()));
}

#[test]
fn any_other_state_is_refused() {
    let session = session_with_token("xyz");
    for other in ["", "xy", "xyz ", "XYZ", "xyzz", "abc"] {
        assert!(!csrf_matches(&session, other));
        assert_eq!(check_csrf(&session, other), Err(LoginError::CsrfMismatch));
    }
}

#[test]
fn state_of_a_built_request_is_accepted_by_its_session() {
    let request = build_authorization_request(ENDPOINT, "my-client", REDIRECT, &Vec::new()).unwrap();
    let state = query_of(&request.url)
        .into_iter()
        .find(|(name, _)| name == "state")
        .map(|(_, value)| value)
        .unwrap();
    assert_eq!(check_csrf(&request.session, &state), Ok(()));
    assert_eq!(check_csrf(&request.session, "forged"), Err(LoginError::CsrfMismatch));
}

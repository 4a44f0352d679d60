use oauth_login::callback::{
    classify_callback, classify_pairs, parameter, respond, CallbackOutcome, CallbackResponse,
    CallbackServer, Handled, DENIED_PAGE, GRANTED_PAGE, STATUS_NOT_FOUND, STATUS_REDIRECT,
};

const PATH: &str = "/oauth/callback";

fn granted(code: &str, state: &str) -> CallbackOutcome {
    CallbackOutcome::Granted { code: code.to_string(), state: state.to_string() }
}

fn pairs(list: &[(&str, &str)]) -> Vec<(String, String)> {
    list.iter().map(|(name, value)| (name.to_string(), value.to_string())).collect()
}

fn grant_redirect() -> CallbackResponse {
    CallbackResponse { status: 308, location: Some(GRANTED_PAGE.to_string()) }
}

fn denial_redirect() -> CallbackResponse {
    CallbackResponse { status: 308, location: Some(DENIED_PAGE.to_string()) }
}

fn not_found() -> CallbackResponse {
    CallbackResponse { status: 404, location: None }
}

#[test]
fn status_codes_and_pages() {
    assert_eq!(STATUS_REDIRECT, 308);
    assert_eq!(STATUS_NOT_FOUND, 404);
    assert_eq!(GRANTED_PAGE, "http://127.0.0.1:8787/wrangler-oauth-consent-granted");
    assert_eq!(DENIED_PAGE, "http://127.0.0.1:8787/wrangler-oauth-consent-denied");
}

#[test]
fn code_and_state_make_a_grant() {
    assert_eq!(classify_callback(PATH, PATH, Some("code=abc&state=xyz")), granted("abc", "xyz"));
}

#[test]
fn grant_is_read_by_name_not_by_place() {
    assert_eq!(classify_callback(PATH, PATH, Some("state=xyz&code=abc")), granted("abc", "xyz"));
}

#[test]
fn other_parameters_do_not_matter() {
    assert_eq!(
        classify_callback(PATH, PATH, Some("scope=zone%3Aread&code=abc&lang=en&state=xyz")),
        granted("abc", "xyz")
    );
}

#[test]
fn values_are_percent_decoded() {
    assert_eq!(
        classify_callback(PATH, PATH, Some("code=a%2Fb%20c&state=x+y%26z")),
        granted("a/b c", "x y&z")
    );
}

#[test]
fn names_are_percent_decoded() {
    assert_eq!(classify_callback(PATH, PATH, Some("%63ode=abc&st%61te=xyz")), granted("abc", "xyz"));
}

#[test]
fn empty_values_still_count_as_present() {
    assert_eq!(classify_callback(PATH, PATH, Some("code=&state")), granted("", ""));
}

#[test]
fn first_of_repeated_parameters_wins() {
    assert_eq!(
        classify_callback(PATH, PATH, Some("code=one&code=two&state=s1&state=s2")),
        granted("one", "s1")
    );
}

#[test]
fn no_parameters_make_a_denial() {
    assert_eq!(classify_callback(PATH, PATH, None), CallbackOutcome::Denied);
    assert_eq!(classify_callback(PATH, PATH, Some("")), CallbackOutcome::Denied);
    assert_eq!(
        classify_callback(PATH, PATH, Some("error=access_denied")),
        CallbackOutcome::Denied
    );
}

#[test]
fn one_parameter_alone_is_malformed() {
    assert_eq!(classify_callback(PATH, PATH, Some("code=abc")), CallbackOutcome::Malformed);
    assert_eq!(classify_callback(PATH, PATH, Some("state=xyz")), CallbackOutcome::Malformed);
    assert_eq!(
        classify_callback(PATH, PATH, Some("code=abc&code=def")),
        CallbackOutcome::Malformed
    );
}

#[test]
fn parameter_names_are_case_sensitive() {
    assert_eq!(classify_callback(PATH, PATH, Some("Code=abc&STATE=xyz")), CallbackOutcome::Denied);
    assert_eq!(
        classify_callback(PATH, PATH, Some("code=abc&State=xyz")),
        CallbackOutcome::Malformed
    );
}

#[test]
fn another_path_is_unmatched() {
    assert_eq!(
        classify_callback(PATH, "/favicon.ico", Some("code=abc&state=xyz")),
        CallbackOutcome::Unmatched
    );
    assert_eq!(classify_callback(PATH, "/", None), CallbackOutcome::Unmatched);
    assert_eq!(
        classify_callback(PATH, "/oauth/callback/", Some("code=abc&state=xyz")),
        CallbackOutcome::Unmatched
    );
    assert_eq!(
        classify_callback(PATH, "/OAuth/Callback", Some("code=abc&state=xyz")),
        CallbackOutcome::Unmatched
    );
}

#[test]
fn parameter_finds_the_first_value_of_a_name() {
    let list = pairs(&[("a", "1"), ("b", "2"), ("a", "3")]);
    assert_eq!(parameter(&list, "a"), Some("1".to_string()));
    assert_eq!(parameter(&list, "b"), Some("2".to_string()));
    assert_eq!(parameter(&list, "c"), None);
    assert_eq!(parameter(&Vec::new(), "a"), None);
}

#[test]
fn pairs_are_classified_by_what_is_present() {
    assert_eq!(classify_pairs(&pairs(&[("code", "c"), ("state", "s")])), granted("c", "s"));
    assert_eq!(classify_pairs(&pairs(&[("state", "s"), ("x", "y"), ("code", "c")])), granted("c", "s"));
    assert_eq!(classify_pairs(&pairs(&[])), CallbackOutcome::Denied);
    assert_eq!(classify_pairs(&pairs(&[("x", "y")])), CallbackOutcome::Denied);
    assert_eq!(classify_pairs(&pairs(&[("code", "c")])), CallbackOutcome::Malformed);
    assert_eq!(classify_pairs(&pairs(&[("state", "s")])), CallbackOutcome::Malformed);
}

#[test]
fn each_outcome_has_its_answer() {
    assert_eq!(respond(&granted("abc", "xyz")), grant_redirect());
    assert_eq!(respond(&CallbackOutcome::Denied), denial_redirect());
    assert_eq!(respond(&CallbackOutcome::Malformed), denial_redirect());
    assert_eq!(respond(&CallbackOutcome::Unmatched), not_found());
}

#[test]
fn new_server_has_forwarded_nothing() {
    let server = CallbackServer::new(PATH);
    assert_eq!(server.path(), PATH);
    assert!(!server.forwarded());
}

#[test]
fn grant_is_forwarded_exactly_once() {
    let mut server = CallbackServer::new(PATH);
    let first = server.handle(PATH, Some("code=abc&state=xyz"));
    assert_eq!(
        first,
        Handled { response: grant_redirect(), forward: Some(granted("abc", "xyz")) }
    );
    assert!(server.forwarded());
    let again = server.handle(PATH, Some("code=abc&state=xyz"));
    assert_eq!(again, Handled { response: grant_redirect(), forward: None });
    assert!(server.forwarded());
}

#[test]
fn denial_is_forwarded_with_a_denial_redirect() {
    let mut server = CallbackServer::new(PATH);
    let handled = server.handle(PATH, None);
    assert_eq!(
        handled,
        Handled { response: denial_redirect(), forward: Some(CallbackOutcome::Denied) }
    );
    assert!(server.forwarded());
}

#[test]
fn malformed_redirect_is_forwarded() {
    let mut server = CallbackServer::new(PATH);
    let handled = server.handle(PATH, Some("state=xyz"));
    assert_eq!(
        handled,
        Handled { response: denial_redirect(), forward: Some(CallbackOutcome::Malformed) }
    );
    assert!(server.forwarded());
}

#[test]
fn stray_request_does_not_use_up_the_handoff() {
    let mut server = CallbackServer::new(PATH);
    let stray = server.handle("/favicon.ico", None);
    assert_eq!(stray, Handled { response: not_found(), forward: None });
    assert!(!server.forwarded());
    let probe = server.handle("/robots.txt", Some("code=abc&state=xyz"));
    assert_eq!(probe, Handled { response: not_found(), forward: None });
    assert!(!server.forwarded());
    let real = server.handle(PATH, Some("code=abc&state=xyz"));
    assert_eq!(real, Handled { response: grant_redirect(), forward: Some(granted("abc", "xyz")) });
    assert!(server.forwarded());
    assert_eq!(server.path(), PATH);
}

#[test]
fn only_the_first_outcome_is_forwarded() {
    let mut server = CallbackServer::new(PATH);
    let first = server.handle(PATH, Some("code=abc"));
    assert_eq!(first.forward, Some(CallbackOutcome::Malformed));
    let second = server.handle(PATH, Some("code=abc&state=xyz"));
    assert_eq!(second, Handled { response: grant_redirect(), forward: None });
    let third = server.handle(PATH, None);
    assert_eq!(third, Handled { response: denial_redirect(), forward: None });
    let stray = server.handle("/other", None);
    assert_eq!(stray, Handled { response: not_found(), forward: None });
    assert!(server.forwarded());
}

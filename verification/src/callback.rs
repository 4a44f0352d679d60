//! The redirect that ends the consent step: how a request to the local
//! listener is classified, answered, and handed on at most once.
//!
//! The query string is taken apart by `url::form_urlencoded`; the function
//! that calls it is marked as trusted.

use vstd::prelude::*;

use crate::text::same_text;

verus! {

/// Status of the answer that sends the browser on to another page.
pub const STATUS_REDIRECT: u16 = 308;

/// Status of the answer to a request for any other path.
pub const STATUS_NOT_FOUND: u16 = 404;

/// The page shown after consent was granted.
pub const GRANTED_PAGE: &'static str = "http://127.0.0.1:8787/wrangler-oauth-consent-granted";

/// The page shown after consent was denied.
pub const DENIED_PAGE: &'static str = "http://127.0.0.1:8787/wrangler-oauth-consent-denied";

/// What one request to the listener amounts to.
#[derive(Debug, PartialEq, Eq)]
pub enum CallbackOutcome {
    /// The redirect carries an authorization code and a state.
    Granted { code: String, state: String },
    /// The redirect carries neither: the user declined.
    Denied,
    /// The redirect carries only one of the two.
    Malformed,
    /// The request was for a path other than the registered one.
    Unmatched,
}

/// A [`CallbackOutcome`] with its texts as sequences of characters.
pub enum CallbackOutcomeView {
    Granted { code: Seq<char>, state: Seq<char> },
    Denied,
    Malformed,
    Unmatched,
}

impl View for CallbackOutcome {
    type V = CallbackOutcomeView;

    open spec fn view(&self) -> CallbackOutcomeView {
        match self {
            CallbackOutcome::Granted { code, state } => CallbackOutcomeView::Granted {
                code: code@,
                state: state@,
            },
            CallbackOutcome::Denied => CallbackOutcomeView::Denied,
            CallbackOutcome::Malformed => CallbackOutcomeView::Malformed,
            CallbackOutcome::Unmatched => CallbackOutcomeView::Unmatched,
        }
    }
}

/// The answer to the browser: a status and, for a redirect, where to.
#[derive(Debug, PartialEq, Eq)]
pub struct CallbackResponse {
    pub status: u16,
    pub location: Option<String>,
}

/// A [`CallbackResponse`] with its text as a sequence of characters.
pub struct CallbackResponseView {
    pub status: u16,
    pub location: Option<Seq<char>>,
}

impl View for CallbackResponse {
    type V = CallbackResponseView;

    open spec fn view(&self) -> CallbackResponseView {
        CallbackResponseView { status: self.status, location: self.location.deep_view() }
    }
}

/// The name and value pairs that `url::form_urlencoded::parse` reads from a
/// query string, in their order, percent-decoded.
pub uninterp spec fn query_pairs(query: Seq<char>) -> Seq<(Seq<char>, Seq<char>)>;

/// Calls `url::form_urlencoded::parse` on the bytes of `query` and collects
/// the pairs it yields as owned strings.
#[verifier::external_body]
fn parse_query(query: &str) -> (pairs: Vec<(String, String)>)
    ensures
        pairs.deep_view() == query_pairs(query@),
{
    url::form_urlencoded::parse(query.as_bytes()).into_owned().collect()
}

/// Some pair of `pairs` is named `name`.
pub open spec fn has_name(pairs: Seq<(Seq<char>, Seq<char>)>, name: Seq<char>) -> bool {
    exists|i: int| 0 <= i < pairs.len() && (#[trigger] pairs[i]).0 == name
}

/// `i` is the place of the first pair of `pairs` that is named `name`.
pub open spec fn is_first_named(pairs: Seq<(Seq<char>, Seq<char>)>, name: Seq<char>, i: int) -> bool {
    &&& 0 <= i < pairs.len()
    &&& pairs[i].0 == name
    &&& forall|j: int| 0 <= j < i ==> (#[trigger] pairs[j]).0 != name
}

/// The value of the first pair named `name`, if there is such a pair.
pub open spec fn value_named(pairs: Seq<(Seq<char>, Seq<char>)>, name: Seq<char>) -> Option<
    Seq<char>,
> {
    if has_name(pairs, name) {
        Some(pairs[choose|i: int| is_first_named(pairs, name, i)].1)
    } else {
        None
    }
}

/// What the parameters of a redirect to the registered path amount to:
/// a grant where both `code` and `state` are there, a denial where neither
/// is, and a malformed redirect where only one is.
pub open spec fn pairs_outcome(pairs: Seq<(Seq<char>, Seq<char>)>) -> CallbackOutcomeView {
    match (value_named(pairs, "code"@), value_named(pairs, "state"@)) {
        (Some(code), Some(state)) => CallbackOutcomeView::Granted { code, state },
        (None, None) => CallbackOutcomeView::Denied,
        _ => CallbackOutcomeView::Malformed,
    }
}

/// What a request amounts to. Only a request for the registered path is
/// looked into; a request without a query string has no parameters.
pub open spec fn classification(
    registered_path: Seq<char>,
    path: Seq<char>,
    query: Option<Seq<char>>,
) -> CallbackOutcomeView {
    if path != registered_path {
        CallbackOutcomeView::Unmatched
    } else {
        match query {
            Some(text) => pairs_outcome(query_pairs(text)),
            None => pairs_outcome(Seq::empty()),
        }
    }
}

/// The answer that goes with an outcome: on to the granted page after a
/// grant, on to the denied page after a denial or a malformed redirect, and
/// not found for any other path.
pub open spec fn response_for(outcome: CallbackOutcomeView) -> CallbackResponseView {
    match outcome {
        CallbackOutcomeView::Granted { .. } => CallbackResponseView {
            status: STATUS_REDIRECT,
            location: Some(GRANTED_PAGE@),
        },
        CallbackOutcomeView::Denied | CallbackOutcomeView::Malformed => CallbackResponseView {
            status: STATUS_REDIRECT,
            location: Some(DENIED_PAGE@),
        },
        CallbackOutcomeView::Unmatched => CallbackResponseView {
            status: STATUS_NOT_FOUND,
            location: None,
        },
    }
}

/// Whether an outcome is handed on to the login: every outcome of a request
/// for the registered path is, a request for another path is not.
pub open spec fn is_forwardable(outcome: CallbackOutcomeView) -> bool {
    !(outcome is Unmatched)
}

/// Only one place can be the first one of a given name.
pub proof fn lemma_first_named_is_unique(pairs: Seq<(Seq<char>, Seq<char>)>, name: Seq<char>, i: int)
    requires
        is_first_named(pairs, name, i),
    ensures
        value_named(pairs, name) == Some(pairs[i].1),
{
    let j = choose|j: int| is_first_named(pairs, name, j);
    assert(pairs[i].0 == name);
    assert(is_first_named(pairs, name, j));
    if j < i {
        assert(pairs[j].0 != name);
    } else if i < j {
        assert(pairs[i].0 != name);
    }
}

/// The value of the first parameter named `name`, if there is one.
pub fn parameter(pairs: &Vec<(String, String)>, name: &str) -> (value: Option<String>)
    ensures
        value.deep_view() == value_named(pairs.deep_view(), name@),
{
    let mut i: usize = 0;
    while i < pairs.len()
        invariant
            i <= pairs.len(),
            forall|j: int| 0 <= j < i ==> (#[trigger] pairs.deep_view()[j]).0 != name@,
        decreases pairs.len() - i,
    {
        assert(pairs.deep_view()[i as int] == (pairs@[i as int].0@, pairs@[i as int].1@));
        if same_text(pairs[i].0.as_str(), name) {
            proof {
                lemma_first_named_is_unique(pairs.deep_view(), name@, i as int);
            }
            return Some(pairs[i].1.clone());
        }
        i += 1;
    }
    None
}

/// Classifies the parameters of a redirect to the registered path.
pub fn classify_pairs(pairs: &Vec<(String, String)>) -> (outcome: CallbackOutcome)
    ensures
        outcome@ == pairs_outcome(pairs.deep_view()),
{
    let code = parameter(pairs, "code");
    let state = parameter(pairs, "state");
    match (code, state) {
        (Some(code), Some(state)) => CallbackOutcome::Granted { code, state },
        (None, None) => CallbackOutcome::Denied,
        _ => CallbackOutcome::Malformed,
    }
}

/// Classifies a request by its path and its query string.
pub fn classify_callback(registered_path: &str, path: &str, query: Option<&str>) -> (outcome:
    CallbackOutcome)
    ensures
        outcome@ == classification(registered_path@, path@, query.deep_view()),
{
    if !same_text(path, registered_path) {
        CallbackOutcome::Unmatched
    } else {
        match query {
            Some(text) => {
                let pairs = parse_query(text);
                classify_pairs(&pairs)
            },
            None => {
                let pairs: Vec<(String, String)> = Vec::new();
                assert(pairs.deep_view() =~= Seq::empty());
                classify_pairs(&pairs)
            },
        }
    }
}

/// The answer to the browser for an outcome.
pub fn respond(outcome: &CallbackOutcome) -> (response: CallbackResponse)
    ensures
        response@ == response_for(outcome@),
{
    match outcome {
        CallbackOutcome::Granted { .. } => CallbackResponse {
            status: STATUS_REDIRECT,
            location: Some(GRANTED_PAGE.to_owned()),
        },
        CallbackOutcome::Denied | CallbackOutcome::Malformed => CallbackResponse {
            status: STATUS_REDIRECT,
            location: Some(DENIED_PAGE.to_owned()),
        },
        CallbackOutcome::Unmatched => CallbackResponse { status: STATUS_NOT_FOUND, location: None },
    }
}

/// What the listener does with one request: the answer to the browser and,
/// if the request is the one the login waits for, its outcome.
#[derive(Debug, PartialEq, Eq)]
pub struct Handled {
    pub response: CallbackResponse,
    pub forward: Option<CallbackOutcome>,
}

/// A [`Handled`] with its texts as sequences of characters.
pub struct HandledView {
    pub response: CallbackResponseView,
    pub forward: Option<CallbackOutcomeView>,
}

impl View for Handled {
    type V = HandledView;

    open spec fn view(&self) -> HandledView {
        HandledView {
            response: self.response@,
            forward: match self.forward {
                Some(outcome) => Some(outcome@),
                None => None,
            },
        }
    }
}

/// What a listener for `registered_path` does with a request, given
/// whether it has handed an outcome on before. Every request is answered by
/// its own outcome; the outcome is handed on if it is forwardable and none
/// was handed on before.
pub open spec fn handling(
    registered_path: Seq<char>,
    forwarded: bool,
    path: Seq<char>,
    query: Option<Seq<char>>,
) -> HandledView {
    let outcome = classification(registered_path, path, query);
    HandledView {
        response: response_for(outcome),
        forward: if is_forwardable(outcome) && !forwarded {
            Some(outcome)
        } else {
            None
        },
    }
}

/// Whether a listener has handed an outcome on once it has dealt with a
/// request: it had before, or the request is the one it hands on.
pub open spec fn forwarded_after(
    registered_path: Seq<char>,
    forwarded: bool,
    path: Seq<char>,
    query: Option<Seq<char>>,
) -> bool {
    forwarded || is_forwardable(classification(registered_path, path, query))
}

/// The listener's side of the single-slot handoff: it classifies every
/// request and hands on the first outcome that belongs to the registered
/// path, and no other.
#[derive(Debug)]
pub struct CallbackServer {
    path: String,
    forwarded: bool,
}

impl CallbackServer {
    /// The path that redirects are expected on.
    pub closed spec fn registered_path(&self) -> Seq<char> {
        self.path@
    }

    /// Whether an outcome was handed on already.
    pub closed spec fn has_forwarded(&self) -> bool {
        self.forwarded
    }

    /// A listener for `path` that has handed on nothing yet.
    pub fn new(path: &str) -> (server: Self)
        ensures
            server.registered_path() == path@,
            !server.has_forwarded(),
    {
        CallbackServer { path: path.to_owned(), forwarded: false }
    }

    /// The path that redirects are expected on.
    pub fn path(&self) -> (path: &str)
        ensures
            path@ == self.registered_path(),
    {
        self.path.as_str()
    }

    /// Whether an outcome was handed on already.
    pub fn forwarded(&self) -> (forwarded: bool)
        ensures
            forwarded == self.has_forwarded(),
    {
        self.forwarded
    }

    /// Handles one request. A request for another path leaves the listener
    /// as it was; the first request for the registered path is handed on,
    /// and from then on none is.
    pub fn handle(&mut self, path: &str, query: Option<&str>) -> (handled: Handled)
        ensures
            handled@ == handling(
                old(self).registered_path(),
                old(self).has_forwarded(),
                path@,
                query.deep_view(),
            ),
            final(self).registered_path() == old(self).registered_path(),
            final(self).has_forwarded() == forwarded_after(
                old(self).registered_path(),
                old(self).has_forwarded(),
                path@,
                query.deep_view(),
            ),
    {
        let outcome = classify_callback(self.path.as_str(), path, query);
        let response = respond(&outcome);
        match outcome {
            CallbackOutcome::Unmatched => Handled { response, forward: None },
            outcome => {
                if self.forwarded {
                    Handled { response, forward: None }
                } else {
                    self.forwarded = true;
                    Handled { response, forward: Some(outcome) }
                }
            },
        }
    }
}

/// A request for a path other than the registered one is answered with
/// "not found" and never handed on, whatever its query string says and
/// whether or not an outcome was handed on before.
pub proof fn lemma_stray_request_is_not_forwarded(
    registered_path: Seq<char>,
    forwarded: bool,
    path: Seq<char>,
    query: Option<Seq<char>>,
)
    requires
        path != registered_path,
    ensures
        handling(registered_path, forwarded, path, query).forward is None,
        handling(registered_path, forwarded, path, query).response == (CallbackResponseView {
            status: STATUS_NOT_FOUND,
            location: None,
        }),
{
}

/// Requests for other paths do not use up the handoff: after one of them,
/// a listener that had handed on nothing still hands on the outcome of the
/// next request for the registered path.
pub proof fn lemma_stray_request_leaves_the_handoff_free(
    registered_path: Seq<char>,
    stray_path: Seq<char>,
    stray_query: Option<Seq<char>>,
    query: Option<Seq<char>>,
)
    requires
        stray_path != registered_path,
    ensures
        !forwarded_after(registered_path, false, stray_path, stray_query),
        handling(
            registered_path,
            forwarded_after(registered_path, false, stray_path, stray_query),
            registered_path,
            query,
        ).forward == Some(classification(registered_path, registered_path, query)),
{
}

/// A listener that has handed on nothing yet hands on the outcome of a
/// request for the registered path, and answers it by that outcome.
pub proof fn lemma_first_callback_is_forwarded(registered_path: Seq<char>, query: Option<Seq<char>>)
    ensures
        handling(registered_path, false, registered_path, query).forward == Some(
            classification(registered_path, registered_path, query),
        ),
        handling(registered_path, false, registered_path, query).response == response_for(
            classification(registered_path, registered_path, query),
        ),
        classification(registered_path, registered_path, query) !is Unmatched,
{
}

/// An outcome is handed on once: after a request for the registered path,
/// whatever the listener had done before, no later request is handed on.
pub proof fn lemma_nothing_is_forwarded_twice(
    registered_path: Seq<char>,
    forwarded: bool,
    query: Option<Seq<char>>,
    later_path: Seq<char>,
    later_query: Option<Seq<char>>,
)
    ensures
        forwarded_after(registered_path, forwarded, registered_path, query),
        handling(
            registered_path,
            forwarded_after(registered_path, forwarded, registered_path, query),
            later_path,
            later_query,
        ).forward is None,
{
}

/// Both parameters present make a grant that carries the two values; none
/// of them makes a denial; one alone makes a malformed redirect.
pub proof fn lemma_outcome_by_parameters(pairs: Seq<(Seq<char>, Seq<char>)>)
    ensures
        has_name(pairs, "code"@) && has_name(pairs, "state"@) ==> pairs_outcome(pairs)
            == (CallbackOutcomeView::Granted {
            code: value_named(pairs, "code"@)->0,
            state: value_named(pairs, "state"@)->0,
        }),
        !has_name(pairs, "code"@) && !has_name(pairs, "state"@) ==> pairs_outcome(pairs)
            == CallbackOutcomeView::Denied,
        has_name(pairs, "code"@) != has_name(pairs, "state"@) ==> pairs_outcome(pairs)
            == CallbackOutcomeView::Malformed,
{
}

} // verus!

//! Interactive OAuth2 login for a command-line tool: the Authorization Code
//! flow with PKCE, where the redirect lands on an ephemeral listener bound to
//! localhost.
//!
//! The crate holds the decisions of the flow and proves them: which scopes
//! are requested, how a redirect is classified and answered, when a state
//! token is accepted, and how the login moves from one stage to the next.
//! Sockets, the browser, the token endpoint and the credential store are the
//! caller's business; the caller performs what [`flow::LoginAction`] asks for
//! and reports back with a [`flow::LoginEvent`].

pub mod callback;
pub mod error;
pub mod flow;
pub mod scope;
pub mod session;
pub mod text;

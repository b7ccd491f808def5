//! The decisions of the Harmony client: where the server is, how a response
//! status is judged, and what the authentication check shows.

use vstd::prelude::*;
use crate::error::{classifies, message_of, ClientError, RequestFailure};
use crate::text::decimal;

verus! {

/// The server's address where none is configured.
pub open spec fn default_api_url() -> Seq<char> {
    "http://localhost:3000"@
}

/// The API base URL: the configured one (the `API_URL` environment
/// variable), else `http://localhost:3000`.
pub fn api_url(configured: Option<String>) -> (url: String)
    ensures
        url@ == (match configured {
            Some(u) => u@,
            None => default_api_url(),
        }),
{
    match configured {
        Some(u) => u,
        None => String::from_str("http://localhost:3000"),
    }
}

/// An HTTP status in the success class, 200 to 299.
pub open spec fn success_status(status: u16) -> bool {
    200 <= status <= 299
}

/// The success class is exactly the statuses 200 to 299: 199 and 300 lie
/// outside it, 200 and 299 inside.
pub proof fn lemma_success_status_range(status: u16)
    ensures
        success_status(status) <==> (200 <= status && status <= 299),
        !success_status(199u16) && success_status(200u16) && success_status(299u16) && !success_status(300u16),
        !success_status(401u16) && !success_status(404u16) && !success_status(500u16),
{
}

/// Whether an HTTP status is in the success class.
pub fn is_success(status: u16) -> (r: bool)
    ensures
        r == success_status(status),
        r == (200 <= status && status <= 299),
{
    200 <= status && status <= 299
}

/// The error for a response with status `status`, if its status is no
/// success: a server error with `context` as its text.
pub fn status_failure(status: u16, context: &str) -> (r: Option<ClientError>)
    ensures
        200 <= status <= 299 ==> r is None,
        !(200 <= status <= 299) ==> (r matches Some(ClientError::ServerError(code, text)) && code
            == status && text@ == context@),
{
    if is_success(status) {
        None
    } else {
        Some(ClientError::ServerError(status, String::from_str(context)))
    }
}

/// The message shown while the authentication status is being checked.
pub fn checking_message() -> (s: String)
    ensures
        s@ == "⏳ Checking authentication status..."@,
{
    String::from_str("⏳ Checking authentication status...")
}

/// What happened to the request for the authentication status.
#[derive(Debug, Clone)]
pub enum AuthCheck {
    /// The request failed before any response.
    Unreachable(RequestFailure),
    /// A response came with this HTTP status; its body is not read yet.
    Responded(u16),
    /// The body of a successful response could not be read; the reader's error text.
    Unreadable(String),
    /// The body says whether the session is authenticated.
    Answered(bool),
}

/// What the dashboard shows after an authentication check: the new
/// authentication flag (`None` to leave it as it was) and the response text.
#[derive(Debug, Clone)]
pub struct AuthStatusView {
    pub authenticated: Option<bool>,
    pub message: String,
}

/// The next step of an authentication check.
#[derive(Debug, Clone)]
pub enum AuthStep {
    /// Read the body of the response.
    ReadBody,
    /// The check is over: show this.
    Show(AuthStatusView),
}

/// The text of the server error shown for an unexpected response status.
pub open spec fn unexpected_status_text() -> Seq<char> {
    "Unexpected status code"@
}

/// The text shown when the server reports an authenticated session.
pub open spec fn authenticated_text() -> Seq<char> {
    "✅ Success!\n\nYou are authenticated with Spotify."@
}

/// The text shown when the server reports no authenticated session.
pub open spec fn not_authenticated_text() -> Seq<char> {
    "ℹ️ Not Authenticated\n\nClick 'Login with Spotify' to connect your account."@
}

/// The step after the authentication check came to `check`:
/// - an unreachable server clears the flag and shows the request's error;
/// - a response with a status outside the success class leaves the flag and
///   shows a server error with that status and "Unexpected status code";
/// - a successful response has its body read next;
/// - an unreadable body leaves the flag and shows a parse error with the reader's text;
/// - an answer sets the flag and says whether the session is authenticated.
pub fn check_auth_status(check: AuthCheck) -> (step: AuthStep)
    ensures
        match check {
            AuthCheck::Unreachable(f) => step matches AuthStep::Show(v) && v.authenticated == Some(
                false,
            ) && exists|e: ClientError| classifies(f, e) && v.message@ == #[trigger] message_of(e),
            AuthCheck::Responded(status) => if 200 <= status <= 299 {
                step is ReadBody
            } else {
                step matches AuthStep::Show(v) && v.authenticated is None && v.message@
                    == "⚠️ Server Error ("@ + decimal(status as nat) + ")\n\n"@
                    + unexpected_status_text()
            },
            AuthCheck::Unreadable(text) => step matches AuthStep::Show(v) && v.authenticated is None
                && v.message@ == "⚠️ Parse Error\n\n"@ + text@,
            AuthCheck::Answered(b) => step matches AuthStep::Show(v) && v.authenticated == Some(b)
                && v.message@ == (if b {
                authenticated_text()
            } else {
                not_authenticated_text()
            }),
        },
{
    match check {
        AuthCheck::Unreachable(f) => {
            let e = ClientError::from_reqwest(f);
            AuthStep::Show(AuthStatusView { authenticated: Some(false), message: e.display_message() })
        },
        AuthCheck::Responded(status) => {
            match status_failure(status, "Unexpected status code") {
                None => AuthStep::ReadBody,
                Some(e) => AuthStep::Show(AuthStatusView { authenticated: None, message: e.display_message() }),
            }
        },
        AuthCheck::Unreadable(text) => {
            let e = ClientError::ParseError(text);
            AuthStep::Show(AuthStatusView { authenticated: None, message: e.display_message() })
        },
        AuthCheck::Answered(b) => {
            let message = if b {
                String::from_str("✅ Success!\n\nYou are authenticated with Spotify.")
            } else {
                String::from_str(
                    "ℹ️ Not Authenticated\n\nClick 'Login with Spotify' to connect your account.",
                )
            };
            AuthStep::Show(AuthStatusView { authenticated: Some(b), message })
        },
    }
}

} // verus!

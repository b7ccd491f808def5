//! The decisions of the Harmony server's authentication routes.

use vstd::prelude::*;

verus! {

/// The body of the login route's answer.
#[derive(Debug, Clone)]
pub struct LoginResponse {
    pub auth_url: String,
}

/// The query parameters with which Spotify calls the OAuth callback.
#[derive(Debug, Clone)]
pub struct CallbackParams {
    pub code: Option<String>,
    pub error: Option<String>,
}

/// The body of the status route's answer.
#[derive(Debug, Clone)]
pub struct StatusResponse {
    pub authenticated: bool,
}

/// A route's refusal: an HTTP status and a message.
#[derive(Debug, Clone)]
pub struct RouteError {
    pub status: u16,
    pub message: String,
}

/// The client's address where none is configured.
pub open spec fn default_client_url() -> Seq<char> {
    "http://localhost:8080"@
}

/// The client URL for a configured value.
pub open spec fn client_url_of(configured: Option<String>) -> Seq<char> {
    match configured {
        Some(u) => u@,
        None => default_client_url(),
    }
}

/// Where the server sends the browser back to: the configured client URL
/// (the `CLIENT_URL` environment variable), else `http://localhost:8080`.
pub fn client_url(configured: Option<String>) -> (url: String)
    ensures
        url@ == client_url_of(configured),
{
    match configured {
        Some(u) => u,
        None => String::from_str("http://localhost:8080"),
    }
}

/// The authorization code of an OAuth callback. An error reported by Spotify
/// is refused with 401 and "Authorization failed: " before it; a callback
/// without a code is refused with 400.
pub fn callback_code(params: CallbackParams) -> (r: Result<String, RouteError>)
    ensures
        match params.error {
            Some(e) => r matches Err(err) && err.status == 401 && err.message@
                == "Authorization failed: "@ + e@,
            None => match params.code {
                Some(c) => r == Ok::<String, RouteError>(c),
                None => r matches Err(err) && err.status == 400 && err.message@
                    == "No code provided"@,
            },
        },
{
    if let Some(error) = params.error {
        let mut message = String::from_str("Authorization failed: ");
        message.append(error.as_str());
        return Err(RouteError { status: 401, message });
    }
    match params.code {
        Some(code) => Ok(code),
        None => Err(RouteError { status: 400, message: String::from_str("No code provided") }),
    }
}

/// A failure of the Spotify service inside a route: 500 with the failure's text.
pub fn service_failure(message: String) -> (err: RouteError)
    ensures
        err.status == 500,
        err.message == message,
{
    RouteError { status: 500, message }
}

/// What the login route does next.
#[derive(Debug, Clone)]
pub enum LoginStep {
    /// The session is authenticated already: send the browser to this URL.
    Redirect(String),
    /// Ask the Spotify service for its authorization URL.
    FetchAuthUrl,
}

/// The login route's first step: an authenticated session goes straight back
/// to the client (at the URL configured, if any), any other fetches the
/// authorization URL.
pub fn login_step(authenticated: bool, configured: Option<String>) -> (step: LoginStep)
    ensures
        authenticated ==> (step matches LoginStep::Redirect(url) && url@ == client_url_of(configured)),
        !authenticated ==> step is FetchAuthUrl,
{
    if authenticated {
        LoginStep::Redirect(client_url(configured))
    } else {
        LoginStep::FetchAuthUrl
    }
}

/// Where the login route sends the browser once the Spotify service has
/// answered: to the authorization URL, or a 500 with the service's failure.
pub fn login_target(auth_url: Result<String, String>) -> (r: Result<String, RouteError>)
    ensures
        match auth_url {
            Ok(url) => r == Ok::<String, RouteError>(url),
            Err(e) => r matches Err(err) && err.status == 500 && err.message == e,
        },
{
    match auth_url {
        Ok(url) => Ok(url),
        Err(e) => Err(service_failure(e)),
    }
}

/// Where the callback route sends the browser once the code was exchanged for
/// a token: back to the client (at the URL configured, if any), or a 500 with
/// the service's failure.
pub fn auth_result(outcome: Result<(), String>, configured: Option<String>) -> (r: Result<
    String,
    RouteError,
>)
    ensures
        match outcome {
            Ok(()) => r matches Ok(url) && url@ == client_url_of(configured),
            Err(e) => r matches Err(err) && err.status == 500 && err.message == e,
        },
{
    match outcome {
        Ok(()) => Ok(client_url(configured)),
        Err(e) => Err(service_failure(e)),
    }
}

/// The body of the test route's answer.
#[derive(Debug, Clone)]
pub struct TestApiResponse {
    pub message: String,
    pub authenticated: bool,
}

/// The test route's answer: for an authenticated session, the message
/// "Authentication is working!" with `authenticated` set; otherwise a refusal
/// with 401 and "Not authenticated with Spotify".
pub fn test_api_check(authenticated: bool) -> (r: Result<TestApiResponse, RouteError>)
    ensures
        authenticated ==> (r matches Ok(body) && body.message@ == "Authentication is working!"@
            && body.authenticated),
        !authenticated ==> (r matches Err(err) && err.status == 401 && err.message@
            == "Not authenticated with Spotify"@),
{
    if !authenticated {
        return Err(
            RouteError { status: 401, message: String::from_str("Not authenticated with Spotify") },
        );
    }
    Ok(TestApiResponse { message: String::from_str("Authentication is working!"), authenticated: true })
}

/// The answer of the status route.
pub fn status(authenticated: bool) -> (r: StatusResponse)
    ensures
        r.authenticated == authenticated,
{
    StatusResponse { authenticated }
}

} // verus!

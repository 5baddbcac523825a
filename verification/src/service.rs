//! The web routes: which HTTP status and which session cookie each answer gets.
use crate::generic_services::{is_consistent, ActionResult, WebUser};
use vstd::prelude::*;

verus! {

/// The HTTP statuses that the routes answer with.
#[derive(PartialEq, Eq, Structural, Clone, Copy, Debug)]
pub enum HttpStatus {
    Success,
    BadRequest,
    NotFound,
    InternalServerError,
}

/// The text that the health check route answers with.
pub fn health_check() -> (s: String)
    ensures
        s@ == "Snakesystem Report Designer"@,
{
    String::from_str("Snakesystem Report Designer")
}

/// What the login route does with the service's answer.
#[derive(PartialEq, Eq, Structural, Clone, Copy, Debug)]
pub enum LoginRouteStep {
    /// Answer at once with this status and the service's answer as body.
    Respond(HttpStatus),
    /// Make a session token for the user that the answer carries.
    CreateToken,
}

/// The cookie that carries a session token.
pub struct SessionCookie {
    pub name: String,
    pub value: String,
    pub path: String,
    pub http_only: bool,
    pub same_site_strict: bool,
    pub secure: bool,
}

/// The first decision of the login route: an answer with an error is a server
/// error (500); a successful answer with a user gets a token; any other answer
/// is a bad request (400).
pub open spec fn login_route_step(result: ActionResult<WebUser, String>) -> LoginRouteStep {
    if result.error is Some {
        LoginRouteStep::Respond(HttpStatus::InternalServerError)
    } else if result.result && result.data is Some {
        LoginRouteStep::CreateToken
    } else {
        LoginRouteStep::Respond(HttpStatus::BadRequest)
    }
}

/// The status of the login route's answer, given the service's answer and,
/// where a token was asked for, whether it could be made.
pub open spec fn login_route_status(result: ActionResult<WebUser, String>, token_made: bool) -> HttpStatus {
    match login_route_step(result) {
        LoginRouteStep::Respond(status) => status,
        LoginRouteStep::CreateToken => if token_made {
            HttpStatus::Success
        } else {
            HttpStatus::InternalServerError
        },
    }
}

/// `c` is the session cookie for `token`: named "token", for every path, not
/// readable by scripts, sent to this site only, and allowed over plain HTTP.
pub open spec fn is_session_cookie(c: SessionCookie, token: Seq<char>) -> bool {
    &&& c.name@ == "token"@
    &&& c.value@ == token
    &&& c.path@ == "/"@
    &&& c.http_only
    &&& c.same_site_strict
    &&& !c.secure
}

/// Decides what the login route does with the service's answer.
pub fn login_route(result: &ActionResult<WebUser, String>) -> (step: LoginRouteStep)
    ensures
        step == login_route_step(*result),
{
    if result.error.is_some() {
        LoginRouteStep::Respond(HttpStatus::InternalServerError)
    } else if result.result && result.data.is_some() {
        LoginRouteStep::CreateToken
    } else {
        LoginRouteStep::Respond(HttpStatus::BadRequest)
    }
}

/// The session cookie that carries `token`.
pub fn session_cookie(token: String) -> (c: SessionCookie)
    ensures
        is_session_cookie(c, token@),
{
    SessionCookie {
        name: String::from_str("token"),
        value: token,
        path: String::from_str("/"),
        http_only: true,
        same_site_strict: true,
        secure: false,
    }
}

/// Finishes the login route once a token was asked for: a token is answered
/// with 200 and the session cookie, a failure to make one with 500 and no cookie.
pub fn login_route_with_token(token: Result<String, String>) -> (answer: (HttpStatus, Option<SessionCookie>))
    ensures
        match token {
            Ok(t) => answer.0 == HttpStatus::Success && (answer.1 matches Some(c) && is_session_cookie(c, t@)),
            Err(_) => answer.0 == HttpStatus::InternalServerError && answer.1 is None,
        },
{
    match token {
        Ok(t) => (HttpStatus::Success, Some(session_cookie(t))),
        Err(_) => (HttpStatus::InternalServerError, None),
    }
}

/// Law: the login route answers 200 only for a successful answer of the
/// service that carries a user and no error, and only once a token was made.
pub proof fn law_login_route_success_needs_user(result: ActionResult<WebUser, String>, token_made: bool)
    ensures
        login_route_status(result, token_made) == HttpStatus::Success <==> (result.result
            && result.data is Some && result.error is None && token_made),
{
}

/// Law: every answer of the login service that carries an error becomes a
/// server error (500), whether or not a token could be made.
pub proof fn law_login_route_error_is_server_error(result: ActionResult<WebUser, String>, token_made: bool)
    requires
        result.error is Some,
    ensures
        login_route_status(result, token_made) == HttpStatus::InternalServerError,
{
}

/// Law: every successful answer that the login service can finish with (a
/// consistent one) makes the route issue a token, and every failed one
/// without an error is answered with 400.
pub proof fn law_service_answers_reach_token_or_bad_request(result: ActionResult<WebUser, String>)
    requires
        is_consistent(result),
    ensures
        result.result ==> login_route_step(result) == LoginRouteStep::CreateToken,
        !result.result && result.error is None ==> login_route_step(result) == LoginRouteStep::Respond(
            HttpStatus::BadRequest,
        ),
{
}
} // verus!

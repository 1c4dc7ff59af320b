//! The session resolver / auth guard: the per-request gate that turns the
//! `authorization` cookie of an inbound request into an authenticated
//! context or a well-defined rejection.
//!
//! The guard itself is policy-agnostic: it only classifies `NoToken`
//! against `InvalidToken`, and a store connectivity failure is an error of
//! its own, so operators can tell "not logged in" apart from "auth backend
//! is down". The boundary decides the HTTP consequence in [`route_reply`].

use vstd::prelude::*;

use crate::auth::{AuthUser, Ctx};
use crate::error::DbError;
use crate::store::{resolve_token, Users};

verus! {

/// The name of the cookie that carries the session token.
pub const AUTH_COOKIE: &'static str = "authorization";

/// Why the guard rejected a request. The distinction is for server-side
/// logging only; clients see the same consequence for both.
#[derive(Clone, Copy, Debug, PartialEq, Eq, Structural)]
pub enum Rejection {
    /// The cookie was absent or empty.
    NoToken,
    /// The cookie held a token no session is bound to.
    InvalidToken,
}

/// The guard's terminal states.
#[derive(Clone, Copy, Debug, PartialEq, Eq, Structural)]
pub enum GuardOutcome {
    Authenticated(Ctx),
    Rejected(Rejection),
}

/// The guard's verdict as a function of the session map, the store's
/// connectivity and the cookie: absent or empty cookie is `NoToken`; a
/// token the map does not know is `InvalidToken`; a known token
/// authenticates its owner; an unreachable store is a failure, not a
/// rejection.
pub open spec fn guard_decision(
    sessions: Map<Seq<char>, i32>,
    available: bool,
    cookie: Option<Seq<char>>,
) -> Result<GuardOutcome, DbError> {
    match cookie {
        None => Ok(GuardOutcome::Rejected(Rejection::NoToken)),
        Some(token) => if token.len() == 0 {
            Ok(GuardOutcome::Rejected(Rejection::NoToken))
        } else if !available {
            Err(DbError::Unreachable)
        } else {
            match resolve_token(sessions, token) {
                Some(uid) => Ok(GuardOutcome::Authenticated(Ctx { user_id: uid })),
                None => Ok(GuardOutcome::Rejected(Rejection::InvalidToken)),
            }
        },
    }
}

/// What the guard's first step extracts from the cookie: the token it
/// holds, unless the cookie is absent or empty.
pub open spec fn spec_token_from_cookie(cookie: Option<Seq<char>>) -> Option<Seq<char>> {
    match cookie {
        None => None,
        Some(value) => if value.len() == 0 {
            None
        } else {
            Some(value)
        },
    }
}

/// Step one of the guard: takes the `authorization` cookie's value, if
/// the request carried one, and hands back the session token it holds; an
/// absent or empty cookie holds none.
pub fn token_from_cookie(cookie: Option<&str>) -> (r: Option<String>)
    ensures
        r.deep_view() == spec_token_from_cookie(cookie.deep_view()),
{
    match cookie {
        None => None,
        Some(value) => {
            if value.is_empty() {
                None
            } else {
                Some(value.to_owned())
            }
        },
    }
}

/// Step two of the guard: classifies what session resolution returned. A
/// resolved id authenticates its owner; a miss is `InvalidToken`; a store
/// failure stays a failure.
pub fn classify_resolution(resolution: Result<Option<i32>, DbError>) -> (r: Result<
    GuardOutcome,
    DbError,
>)
    ensures
        r == match resolution {
            Ok(Some(uid)) => Ok::<GuardOutcome, DbError>(GuardOutcome::Authenticated(
                Ctx { user_id: uid },
            )),
            Ok(None) => Ok::<GuardOutcome, DbError>(GuardOutcome::Rejected(
                Rejection::InvalidToken,
            )),
            Err(e) => Err::<GuardOutcome, DbError>(e),
        },
{
    match resolution {
        Ok(Some(uid)) => Ok(GuardOutcome::Authenticated(Ctx { user_id: uid })),
        Ok(None) => Ok(GuardOutcome::Rejected(Rejection::InvalidToken)),
        Err(e) => Err(e),
    }
}

/// Runs the guard once for a request whose `authorization` cookie held
/// `cookie` (or `None` when the cookie was missing). The result equals
/// [`guard_decision`] of the store state and the cookie, so running the
/// guard twice in the same request context yields the same outcome.
pub fn authorize(store: &Users, cookie: Option<&str>) -> (r: Result<GuardOutcome, DbError>)
    requires
        store.wf(),
    ensures
        r == guard_decision(store.sessions_map(), store.is_available(), cookie.deep_view()),
{
    match token_from_cookie(cookie) {
        None => Ok(GuardOutcome::Rejected(Rejection::NoToken)),
        Some(token) => classify_resolution(store.resolve_session(token.as_str())),
    }
}

/// How a route declared it wants rejections answered.
#[derive(Clone, Copy, Debug, PartialEq, Eq, Structural)]
pub enum RejectionPolicy {
    /// Send the client to the login page.
    RedirectToLogin,
    /// Answer with a structured unauthorized error (a 401-equivalent).
    UnauthorizedBody,
}

/// What a protected route answers once the guard has spoken.
#[derive(Clone, Copy, Debug, PartialEq, Eq, Structural)]
pub enum RouteReply {
    /// Hand the authenticated context to the handler.
    Proceed(AuthUser),
    /// Send the client to the login page.
    RedirectToLogin,
    /// Answer with this status code.
    Failure(u16),
}

/// The route-level mapping of a guard result: either rejection gets the
/// route's declared fallback, so the two stay indistinguishable to the
/// client; a store failure is a 500-equivalent, never a redirect.
pub open spec fn spec_route_reply(
    verdict: Result<GuardOutcome, DbError>,
    policy: RejectionPolicy,
) -> RouteReply {
    match verdict {
        Ok(GuardOutcome::Authenticated(ctx)) => RouteReply::Proceed(AuthUser(ctx)),
        Ok(GuardOutcome::Rejected(_)) => match policy {
            RejectionPolicy::RedirectToLogin => RouteReply::RedirectToLogin,
            RejectionPolicy::UnauthorizedBody => RouteReply::Failure(401),
        },
        Err(_) => RouteReply::Failure(500),
    }
}

/// Applies the route's declared policy to a guard verdict.
pub fn route_reply(verdict: Result<GuardOutcome, DbError>, policy: RejectionPolicy) -> (r:
    RouteReply)
    ensures
        r == spec_route_reply(verdict, policy),
{
    match verdict {
        Ok(GuardOutcome::Authenticated(ctx)) => RouteReply::Proceed(AuthUser(ctx)),
        Ok(GuardOutcome::Rejected(_)) => match policy {
            RejectionPolicy::RedirectToLogin => RouteReply::RedirectToLogin,
            RejectionPolicy::UnauthorizedBody => RouteReply::Failure(401),
        },
        Err(_) => RouteReply::Failure(500),
    }
}

/// The path a rejected request is redirected to.
pub fn login_redirect_path() -> (r: &'static str)
    ensures
        r@ == "/login"@,
{
    "/login"
}

/// The `Set-Cookie` header value that hands a fresh session token to the
/// client. It carries no `HttpOnly`, `Secure` or `SameSite` attributes
/// yet; that is a known gap, kept as given.
pub fn auth_cookie_header(token: &str) -> (r: String)
    ensures
        r@ == "authorization="@ + token@,
{
    let mut header = String::from_str("authorization=");
    header.append(token);
    header
}

} // verus!

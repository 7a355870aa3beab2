use vstd::prelude::*;

use crate::handlers::accounts::{failure, failure_is, HandlerFailure};
use crate::middleware::auth::AuthUser;

verus! {

pub const UNAUTHORIZED: u16 = 401;

/// The authenticated caller's id, for the handlers.
pub struct AuthUserId(pub u128);

/// The authenticated caller, for the handlers.
pub struct AuthUserExtractor(pub AuthUser);

/// The refusal of a request without an authenticated caller: 401.
pub open spec fn unauthenticated(f: HandlerFailure) -> bool {
    failure_is(f, UNAUTHORIZED, "Usuario no autenticado"@, None)
}

fn refuse() -> (res: HandlerFailure)
    ensures
        unauthenticated(res),
{
    proof {
        reveal_strlit("Usuario no autenticado");
    }
    failure(UNAUTHORIZED, "Usuario no autenticado", None)
}

impl AuthUserId {
    /// The caller's id, from what the middleware attached to the request.
    pub fn from_request_parts(auth: &Option<AuthUser>) -> (res: Result<AuthUserId, HandlerFailure>)
        ensures
            match auth {
                Some(u) => res matches Ok(id) && id.0 == u.user_id,
                None => res matches Err(f) && unauthenticated(f),
            },
    {
        match auth {
            Some(u) => Ok(AuthUserId(u.user_id)),
            None => Err(refuse()),
        }
    }
}

impl AuthUserExtractor {
    /// The caller, from what the middleware attached to the request.
    pub fn from_request_parts(auth: &Option<AuthUser>) -> (res: Result<AuthUserExtractor, HandlerFailure>)
        ensures
            match auth {
                Some(u) => res matches Ok(x) && x.0.user_id == u.user_id && x.0.email == u.email,
                None => res matches Err(f) && unauthenticated(f),
            },
    {
        match auth {
            Some(u) => Ok(AuthUserExtractor(AuthUser { user_id: u.user_id, email: u.email.clone() })),
            None => Err(refuse()),
        }
    }
}

} // verus!

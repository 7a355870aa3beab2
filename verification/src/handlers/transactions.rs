use vstd::prelude::*;

use crate::handlers::accounts::{failure, failure_is, HandlerFailure, INTERNAL_SERVER_ERROR};
use crate::middleware::AuthUser;

verus! {

pub const UNAUTHORIZED: u16 = 401;

/// The caller whose history is asked for: the
/// authenticated user, else 401.
pub fn history_owner(auth: Option<AuthUser>) -> (res: Result<u128, HandlerFailure>)
    ensures
        match auth {
            Some(u) => res matches Ok(id) && id == u.user_id,
            None => res matches Err(f) && failure_is(
                f,
                UNAUTHORIZED,
                "No autorizado"@,
                Some("Token de autenticación requerido o inválido."@),
            ),
        },
{
    proof {
        reveal_strlit("No autorizado");
        reveal_strlit("Token de autenticación requerido o inválido.");
    }
    match auth {
        Some(u) => Ok(u.user_id),
        None => Err(failure(UNAUTHORIZED, "No autorizado", Some("Token de autenticación requerido o inválido.".to_string()))),
    }
}

/// The answer when the history could not be read: 500 with the message.
pub fn history_failure(message: String) -> (res: HandlerFailure)
    ensures
        failure_is(res, INTERNAL_SERVER_ERROR, "No se pudo obtener el historial"@, Some(message@)),
{
    proof {
        reveal_strlit("No se pudo obtener el historial");
    }
    failure(INTERNAL_SERVER_ERROR, "No se pudo obtener el historial", Some(message))
}

} // verus!

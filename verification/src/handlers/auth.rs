use vstd::prelude::*;

use crate::services::auth::{auth_error_text, AuthError};

verus! {

/// A failed authentication request: answered 500 with `Error: ` and the
/// failure's message.
pub struct AppError {
    pub message: String,
}

pub const INTERNAL_SERVER_ERROR: u16 = 500;

impl AppError {
    /// A failure with the given message.
    pub fn from(message: String) -> (res: AppError)
        ensures
            res.message == message,
    {
        AppError { message }
    }

    /// The failure of a registration, login, logout or renewal.
    pub fn from_auth(e: &AuthError) -> (res: AppError)
        ensures
            res.message@ == auth_error_text(*e),
    {
        AppError { message: e.message() }
    }

    /// The HTTP answer: status 500 and the text `Error: <message>`.
    pub fn into_response(self) -> (res: (u16, String))
        ensures
            res.0 == INTERNAL_SERVER_ERROR,
            res.1@ == "Error: "@ + self.message@,
    {
        let mut body = "Error: ".to_string();
        proof {
            reveal_strlit("Error: ");
        }
        body.append(self.message.as_str());
        (INTERNAL_SERVER_ERROR, body)
    }
}

/// A renewal is only for the caller: the request must name
/// the user the token was issued to.
pub fn check_refresh_owner(user_id: u128, requested_user_id: u128) -> (res: Result<(), AppError>)
    ensures
        res is Ok <==> user_id == requested_user_id,
        res matches Err(e) ==> e.message@ == "Token no coincide con usuario"@,
{
    proof {
        reveal_strlit("Token no coincide con usuario");
    }
    if user_id != requested_user_id {
        return Err(AppError::from("Token no coincide con usuario".to_string()));
    }
    Ok(())
}

} // verus!

use vstd::prelude::*;

verus! {

pub const BAD_REQUEST: u16 = 400;
pub const NOT_FOUND: u16 = 404;

/// The status of a failed profile operation: every failure is answered 404.
pub fn profile_failure_status() -> (res: u16)
    ensures
        res == NOT_FOUND,
{
    NOT_FOUND
}

/// The status of a profile change whose data break the rules.
pub fn invalid_profile_status() -> (res: u16)
    ensures
        res == BAD_REQUEST,
{
    BAD_REQUEST
}

/// The message answered after a deactivation.
pub fn deactivation_message() -> (res: String)
    ensures
        res@ == "Usuario desactivado exitosamente"@,
{
    proof {
        reveal_strlit("Usuario desactivado exitosamente");
    }
    "Usuario desactivado exitosamente".to_string()
}

} // verus!

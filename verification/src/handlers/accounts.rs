use vstd::prelude::*;

use crate::models::api::account::{movement_violations, DepositRequest, TransferRequest, WithdrawRequest};
use crate::models::validation::{validation_result, ValidationErrors};
use crate::services::accounts::{account_error_text, AccountError, AccountOperation};
use crate::text::{contains_str, contains_text};

verus! {

/// A refused request: the HTTP status and the JSON body's `error` and
/// `details` fields.
pub struct HandlerFailure {
    pub status: u16,
    pub error: String,
    pub details: Option<String>,
}

pub const BAD_REQUEST: u16 = 400;
pub const FORBIDDEN: u16 = 403;
pub const NOT_FOUND: u16 = 404;
pub const INTERNAL_SERVER_ERROR: u16 = 500;

/// The failure is `status` with the body `error` and `details`.
pub open spec fn failure_is(f: HandlerFailure, status: u16, error: Seq<char>, details: Option<Seq<char>>) -> bool {
    &&& f.status == status
    &&& f.error@ == error
    &&& match details {
        Some(d) => f.details matches Some(x) && x@ == d,
        None => f.details is None,
    }
}

/// A failure with the given parts.
pub fn failure(status: u16, error: &str, details: Option<String>) -> (res: HandlerFailure)
    ensures
        res.status == status,
        res.error@ == error@,
        res.details == details,
{
    HandlerFailure { status, error: error.to_string(), details }
}

/// The answer to a request whose data break the rules: 400 with the broken
/// rules as details.
pub fn invalid_input(details: String) -> (res: HandlerFailure)
    ensures
        failure_is(res, BAD_REQUEST, "Datos de entrada inválidos"@, Some(details@)),
{
    proof {
        reveal_strlit("Datos de entrada inválidos");
    }
    failure(BAD_REQUEST, "Datos de entrada inválidos", Some(details))
}

/// The status of a failed deposit: 404 when the message says something was
/// not found ("no encontrado"), else 500.
pub open spec fn deposit_status(m: Seq<char>) -> u16 {
    if contains_text(m, "no encontrado"@) {
        NOT_FOUND
    } else {
        INTERNAL_SERVER_ERROR
    }
}

/// The status of a failed withdrawal: 400 for insufficient funds, 404 when
/// something was not found, else 500.
pub open spec fn withdraw_status(m: Seq<char>) -> u16 {
    if contains_text(m, "Fondos insuficientes"@) {
        BAD_REQUEST
    } else if contains_text(m, "no encontrado"@) {
        NOT_FOUND
    } else {
        INTERNAL_SERVER_ERROR
    }
}

/// The status of a failed transfer: 400 for insufficient funds, 404 when
/// something was not found, 400 for a transfer to the same account, else
/// 500.
pub open spec fn transfer_status(m: Seq<char>) -> u16 {
    if contains_text(m, "Fondos insuficientes"@) {
        BAD_REQUEST
    } else if contains_text(m, "no encontrado"@) {
        NOT_FOUND
    } else if contains_text(m, "misma cuenta"@) {
        BAD_REQUEST
    } else {
        INTERNAL_SERVER_ERROR
    }
}

/// The answer to a failed balance query: 500.
pub fn get_balance_failure(e: &AccountError) -> (res: HandlerFailure)
    ensures
        failure_is(res, INTERNAL_SERVER_ERROR, "Error al obtener balance"@, Some(account_error_text(e@))),
{
    proof {
        reveal_strlit("Error al obtener balance");
    }
    failure(INTERNAL_SERVER_ERROR, "Error al obtener balance", Some(e.message()))
}

/// The answer to a failed account query: 500.
pub fn get_account_balance_failure(e: &AccountError) -> (res: HandlerFailure)
    ensures
        failure_is(res, INTERNAL_SERVER_ERROR, "Error al obtener información de cuenta"@, Some(account_error_text(e@))),
{
    proof {
        reveal_strlit("Error al obtener información de cuenta");
    }
    failure(INTERNAL_SERVER_ERROR, "Error al obtener información de cuenta", Some(e.message()))
}

/// What a request to move money leads to: the operation when its data keep
/// the rules, else exactly the rules it breaks (answered 400 before the
/// service is asked).
pub open spec fn movement_decision(
    amount_cents: i64,
    description: Option<String>,
    op: AccountOperation,
    res: Result<AccountOperation, ValidationErrors>,
) -> bool {
    if movement_violations(amount_cents, description).len() == 0 {
        res == Ok::<AccountOperation, ValidationErrors>(op)
    } else {
        res matches Err(e) && validation_result(Err(e)) == movement_violations(amount_cents, description)
    }
}

/// The deposit to carry out for the caller, or the rules the request breaks.
pub fn deposit_operation(user_id: u128, request: DepositRequest) -> (res: Result<AccountOperation, ValidationErrors>)
    ensures
        movement_decision(
            request.amount_cents,
            request.description,
            AccountOperation::Deposit { user_id, request },
            res,
        ),
{
    match request.validate() {
        Err(e) => Err(e),
        Ok(_) => Ok(AccountOperation::Deposit { user_id, request }),
    }
}

/// The withdrawal to carry out for the caller, or the rules the request
/// breaks.
pub fn withdraw_operation(user_id: u128, request: WithdrawRequest) -> (res: Result<AccountOperation, ValidationErrors>)
    ensures
        movement_decision(
            request.amount_cents,
            request.description,
            AccountOperation::Withdraw { user_id, request },
            res,
        ),
{
    match request.validate() {
        Err(e) => Err(e),
        Ok(_) => Ok(AccountOperation::Withdraw { user_id, request }),
    }
}

/// The transfer to carry out for the caller, or the rules the request
/// breaks.
pub fn transfer_operation(user_id: u128, request: TransferRequest) -> (res: Result<AccountOperation, ValidationErrors>)
    ensures
        movement_decision(
            request.amount_cents,
            request.description,
            AccountOperation::Transfer { from_user_id: user_id, request },
            res,
        ),
{
    match request.validate() {
        Err(e) => Err(e),
        Ok(_) => Ok(AccountOperation::Transfer { from_user_id: user_id, request }),
    }
}

/// The answer to a failed deposit.
pub fn deposit_failure(e: &AccountError) -> (res: HandlerFailure)
    ensures
        failure_is(
            res,
            deposit_status(account_error_text(e@)),
            "Error al realizar depósito"@,
            Some(account_error_text(e@)),
        ),
{
    proof {
        reveal_strlit("Error al realizar depósito");
    }
    let m = e.message();
    let status = if contains_str(m.as_str(), "no encontrado") {
        NOT_FOUND
    } else {
        INTERNAL_SERVER_ERROR
    };
    failure(status, "Error al realizar depósito", Some(m))
}

/// The answer to a failed withdrawal.
pub fn withdraw_failure(e: &AccountError) -> (res: HandlerFailure)
    ensures
        failure_is(
            res,
            withdraw_status(account_error_text(e@)),
            "Error al realizar retiro"@,
            Some(account_error_text(e@)),
        ),
{
    proof {
        reveal_strlit("Error al realizar retiro");
    }
    let m = e.message();
    let status = if contains_str(m.as_str(), "Fondos insuficientes") {
        BAD_REQUEST
    } else if contains_str(m.as_str(), "no encontrado") {
        NOT_FOUND
    } else {
        INTERNAL_SERVER_ERROR
    };
    failure(status, "Error al realizar retiro", Some(m))
}

/// The answer to a failed transfer.
pub fn transfer_failure(e: &AccountError) -> (res: HandlerFailure)
    ensures
        failure_is(
            res,
            transfer_status(account_error_text(e@)),
            "Error al realizar transferencia"@,
            Some(account_error_text(e@)),
        ),
{
    proof {
        reveal_strlit("Error al realizar transferencia");
    }
    let m = e.message();
    let status = if contains_str(m.as_str(), "Fondos insuficientes") {
        BAD_REQUEST
    } else if contains_str(m.as_str(), "no encontrado") {
        NOT_FOUND
    } else if contains_str(m.as_str(), "misma cuenta") {
        BAD_REQUEST
    } else {
        INTERNAL_SERVER_ERROR
    };
    failure(status, "Error al realizar transferencia", Some(m))
}

/// Whether the caller may see the account: only the
/// caller's own, else 403.
pub fn check_account_access(user_id: u128, account_id: u128) -> (res: Result<(), HandlerFailure>)
    ensures
        res is Ok <==> user_id == account_id,
        res matches Err(f) ==> failure_is(f, FORBIDDEN, "No autorizado para consultar esta cuenta"@, None),
{
    proof {
        reveal_strlit("No autorizado para consultar esta cuenta");
    }
    if user_id != account_id {
        return Err(failure(FORBIDDEN, "No autorizado para consultar esta cuenta", None));
    }
    Ok(())
}

/// The answer to a failed account query: 404 when something
/// was not found, else 500.
pub fn get_account_failure(e: &AccountError) -> (res: HandlerFailure)
    ensures
        failure_is(res, deposit_status(account_error_text(e@)), "Error al obtener cuenta"@, Some(account_error_text(e@))),
{
    proof {
        reveal_strlit("Error al obtener cuenta");
    }
    let m = e.message();
    let status = if contains_str(m.as_str(), "no encontrado") {
        NOT_FOUND
    } else {
        INTERNAL_SERVER_ERROR
    };
    failure(status, "Error al obtener cuenta", Some(m))
}

} // verus!

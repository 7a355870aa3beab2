use vstd::prelude::*;

use crate::clock::Timestamp;
use crate::models::validation::{
    length_violation, optional_length_violation, range_violation, email_is_valid, validation_result,
    Checker, Rule, ValidationErrors,
};

verus! {

/// A deposit into the caller's account (from the bank's account).
pub struct DepositRequest {
    /// Amount in cents.
    pub amount_cents: i64,
    pub description: Option<String>,
}

/// A withdrawal from the caller's account (into the bank's account).
pub struct WithdrawRequest {
    /// Amount in cents.
    pub amount_cents: i64,
    pub description: Option<String>,
}

/// A transfer from the caller's account to another ledger account.
pub struct TransferRequest {
    /// The ledger account that receives the money.
    pub to_account_id: u128,
    /// Amount in cents.
    pub amount_cents: i64,
    pub description: Option<String>,
}

/// The rules a movement of money keeps: at least one cent, and a description
/// of at most 255 characters.
pub open spec fn movement_violations(amount_cents: i64, description: Option<String>) -> Seq<(Seq<char>, Rule)> {
    range_violation("amount_cents"@, amount_cents, 1)
        + optional_length_violation("description"@, description, None, Some(255u64))
}

fn check_movement(amount_cents: i64, description: &Option<String>) -> (res: Result<(), ValidationErrors>)
    ensures
        validation_result(res) == movement_violations(amount_cents, *description),
        res is Ok <==> movement_violations(amount_cents, *description).len() == 0,
{
    let mut c = Checker::new();
    assert(c.seen() =~= Seq::<(Seq<char>, Rule)>::empty());
    c.range("amount_cents", amount_cents, 1);
    c.optional_length("description", description, None, Some(255));
    assert(c.seen() =~= movement_violations(amount_cents, *description));
    c.finish()
}

impl DepositRequest {
    /// The request's broken rules, if any.
    pub fn validate(&self) -> (res: Result<(), ValidationErrors>)
        ensures
            validation_result(res) == movement_violations(self.amount_cents, self.description),
            res is Ok <==> movement_violations(self.amount_cents, self.description).len() == 0,
    {
        check_movement(self.amount_cents, &self.description)
    }
}

impl WithdrawRequest {
    /// The request's broken rules, if any.
    pub fn validate(&self) -> (res: Result<(), ValidationErrors>)
        ensures
            validation_result(res) == movement_violations(self.amount_cents, self.description),
            res is Ok <==> movement_violations(self.amount_cents, self.description).len() == 0,
    {
        check_movement(self.amount_cents, &self.description)
    }
}

impl TransferRequest {
    /// The request's broken rules, if any.
    pub fn validate(&self) -> (res: Result<(), ValidationErrors>)
        ensures
            validation_result(res) == movement_violations(self.amount_cents, self.description),
            res is Ok <==> movement_violations(self.amount_cents, self.description).len() == 0,
    {
        check_movement(self.amount_cents, &self.description)
    }
}

/// The state of a ledger account after an operation.
#[derive(PartialEq, Eq, Structural, Clone, Copy, Debug)]
pub struct BalanceResponse {
    pub account_id: u128,
    /// Final balance in cents.
    pub balance: i64,
    /// The ledger (book) of the account.
    pub ledger: u32,
    /// Total credited (money in).
    pub credits_posted: i64,
    /// Total debited (money out).
    pub debits_posted: i64,
}

/// A user's account as shown to the user.
pub struct AccountResponse {
    pub id: u128,
    pub account_number: String,
    pub account_type: String,
    pub currency: String,
    pub current_balance: i64,
}

/// A user's account with its balances as shown to the user.
pub struct AccountBalanceResponse {
    pub account_id: u128,
    pub account_number: String,
    pub current_balance: i64,
    pub available_balance: i64,
    pub currency: String,
    pub last_updated: Timestamp,
}

/// An account as shown to the user, as plain values.
pub struct AccountResponseView {
    pub id: u128,
    pub account_number: Seq<char>,
    pub account_type: Seq<char>,
    pub currency: Seq<char>,
    pub current_balance: i64,
}

impl View for AccountResponse {
    type V = AccountResponseView;

    open spec fn view(&self) -> AccountResponseView {
        AccountResponseView {
            id: self.id,
            account_number: self.account_number@,
            account_type: self.account_type@,
            currency: self.currency@,
            current_balance: self.current_balance,
        }
    }
}

/// An account with its balances, as plain values.
pub struct AccountBalanceResponseView {
    pub account_id: u128,
    pub account_number: Seq<char>,
    pub current_balance: i64,
    pub available_balance: i64,
    pub currency: Seq<char>,
    pub last_updated: Timestamp,
}

impl View for AccountBalanceResponse {
    type V = AccountBalanceResponseView;

    open spec fn view(&self) -> AccountBalanceResponseView {
        AccountBalanceResponseView {
            account_id: self.account_id,
            account_number: self.account_number@,
            current_balance: self.current_balance,
            available_balance: self.available_balance,
            currency: self.currency@,
            last_updated: self.last_updated,
        }
    }
}

} // verus!

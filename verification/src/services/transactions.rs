use vstd::prelude::*;

use crate::clock::now;
use crate::ids::new_random_id;
use crate::models::database::TransactionHistory;
use crate::repositories::TransactionRepository;

verus! {

/// Keeps the history of the movements of money.
pub struct TransactionService {
    pub repo: TransactionRepository,
}

impl TransactionService {
    pub fn new() -> (res: TransactionService) {
        TransactionService { repo: TransactionRepository::new() }
    }

    /// The history entry for a movement, before it is stored: the given parties, amount, status and description, under a
    /// fresh random id and the current time.
    pub fn log_transaction(
        &self,
        user_id: u128,
        from_account_id: u128,
        to_account_id: u128,
        amount_cents: i64,
        status: &str,
        description: Option<String>,
    ) -> (res: TransactionHistory)
        ensures
            res.user_id == user_id,
            res.from_account_id == from_account_id,
            res.to_account_id == to_account_id,
            res.amount_cents == amount_cents,
            res.status@ == status@,
            res.description == description,
            res.timestamp.nanos < 1_000_000_000,
    {
        TransactionHistory {
            id: new_random_id(),
            user_id,
            from_account_id,
            to_account_id,
            amount_cents,
            description,
            status: status.to_string(),
            timestamp: now(),
        }
    }
}

} // verus!

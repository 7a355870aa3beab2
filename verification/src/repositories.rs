use vstd::prelude::*;

verus! {

/// Access to the `users` table. The queries themselves run outside the
/// library; this is the handle the services keep.
#[derive(Clone, Copy)]
pub struct UserRepository {}

impl UserRepository {
    pub fn new() -> (res: UserRepository) {
        UserRepository {  }
    }
}

/// Access to the `transaction_history` table. The queries themselves run
/// outside the library; this is the handle the services keep.
#[derive(Clone, Copy)]
pub struct TransactionRepository {}

impl TransactionRepository {
    pub fn new() -> (res: TransactionRepository) {
        TransactionRepository {  }
    }
}

} // verus!

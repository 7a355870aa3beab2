use vstd::prelude::*;

pub mod accounts;
pub mod auth;
pub mod health;
pub mod tigerbeetle_service;
pub mod transactions;
pub mod users;

pub use accounts::AccountService;
pub use auth::AuthService;
pub use tigerbeetle_service::TigerBeetleService;
pub use transactions::TransactionService;
pub use users::UserService;

verus! {

/// The services kept for the whole process.
pub struct AppServices {
    pub health: health::HealthService,
}

impl AppServices {
    pub fn new() -> (res: AppServices) {
        AppServices { health: health::HealthService::new() }
    }
}

} // verus!

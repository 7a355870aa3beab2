pub mod accounts;
pub mod auth;
pub mod health;
pub mod transactions;
pub mod users;

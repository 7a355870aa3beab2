pub mod api;
pub mod database;
pub mod validation;

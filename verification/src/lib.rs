use vstd::prelude::*;

pub mod bank_setup;
pub mod clock;
pub mod config;
pub mod handlers;
pub mod ids;
pub mod middleware;
pub mod models;
pub mod numparse;
pub mod passwords;
pub mod repositories;
pub mod services;
pub mod text;

pub mod auth;
pub mod extractors;

pub use auth::{AuthUser, Claims};
pub use extractors::{AuthUserExtractor, AuthUserId};

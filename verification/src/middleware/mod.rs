pub mod auth;
pub mod rate_limit;

pub use auth::AuthUser;

//! A verified user-account service: a users table with CRUD operations,
//! Argon2 password hashing, and a session-gated authentication flow.

pub mod auth;
pub mod errors;
pub mod fresh;
pub mod hashing;
pub mod handlers;
pub mod model;
pub mod store;

pub use auth::Session;
pub use errors::ApiError;
pub use model::User;
pub use model::UserMessage;

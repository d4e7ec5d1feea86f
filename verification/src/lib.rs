//! A verified core for a short-link service: slug-to-URL mappings with
//! owner-scoped mutation, anonymous links with scheduled expiry, session
//! authentication, argon2 password hashing, and a bounded dispatch bridge
//! that feeds a fixed pool of blocking storage workers.

pub mod articles;
pub mod bridge;
pub mod credentials;
mod errors;
pub mod gateway;
pub mod links;
pub mod registry;
pub mod session;
mod rng;
pub mod sweeper;
pub mod users;

pub use errors::ApiError;
pub use errors::StoreError;
pub use errors::ValidationError;

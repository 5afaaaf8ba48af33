//! Verified core of a game-subscription service: the name tables of its
//! enumerations, reference and password helpers, token claims, the records
//! that the storage layer writes and reads back, and the replies of its routes.

pub mod auth;
pub mod enums;
pub mod models;
pub mod routes;
pub mod utils;

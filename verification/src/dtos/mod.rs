pub mod auth;
pub mod user;

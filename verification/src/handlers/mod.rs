pub mod admin;
pub mod auth;

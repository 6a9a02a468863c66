pub mod api;
pub mod auth;
pub mod db;
pub mod error;
pub mod jwt;
pub mod response;
pub mod validation;

//! Token and session authority: claims, signed bearer tokens, scope checks and
//! the session records that make stateless tokens revocable.
//!
//! A token is self-verifying: `codec` signs claims into a token and reads
//! them back, one secret for each purpose. A session is stateful:
//! `database::token` keeps the record that says which tokens a login
//! currently owns, and `services::token` checks every presented token
//! against it, so that a revoked session refuses its tokens though their
//! signatures are still good. `middlewares::auth` decides who a request
//! authenticates and what the principal may do. What holds across these
//! operations is stated and proved in `laws`.
//!
//! The calls into `jsonwebtoken`, `serde_json`, `chrono`, `uuid` and `bcrypt`
//! stand behind small functions whose contracts are taken on trust; they are
//! in `codec`, `json`, `clock`, `ids` and `services::user`.

pub mod clock;
pub mod codec;
pub mod config;
pub mod database;
pub mod dtos;
pub mod email;
pub mod errors;
pub mod handlers;
pub mod ids;
pub mod json;
pub mod laws;
pub mod middlewares;
pub mod models;
pub mod services;
pub mod state;
pub mod text;

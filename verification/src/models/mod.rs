pub mod role;
pub mod token;
pub mod token_claims;
pub mod token_scope;
pub mod token_session;
pub mod token_status;
pub mod token_type;
pub mod user;

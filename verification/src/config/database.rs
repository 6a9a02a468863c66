//! Where the store's engine is reached and as whom.

use vstd::prelude::*;

verus! {

/// The address of the store's engine, the account that signs in, and the
/// namespace and database that are used.
#[derive(Debug, Clone)]
pub struct DatabaseConfig {
    pub surreal_url: String,
    pub surreal_root_username: String,
    pub surreal_root_password: String,
    pub surreal_root_ns: String,
    pub surreal_root_db: String,
}

impl DatabaseConfig {
    /// A configuration with the given values.
    pub fn new(
        surreal_url: String,
        surreal_root_username: String,
        surreal_root_password: String,
        surreal_root_ns: String,
        surreal_root_db: String,
    ) -> (config: Self)
        ensures
            config == (DatabaseConfig {
                surreal_url,
                surreal_root_username,
                surreal_root_password,
                surreal_root_ns,
                surreal_root_db,
            }),
    {
        DatabaseConfig {
            surreal_url,
            surreal_root_username,
            surreal_root_password,
            surreal_root_ns,
            surreal_root_db,
        }
    }
}

} // verus!

use crate::config::database::DatabaseConfig;
use crate::config::frontend::FrontendConfig;
use crate::config::server::ServerConfig;
use crate::config::token::TokenConfig;
use vstd::prelude::*;

pub mod database;
pub mod frontend;
pub mod server;
pub mod token;

verus! {

/// Everything the process is configured with. It is made once, at start,
/// and never changed.
#[derive(Debug, Clone)]
pub struct Config {
    pub server_config: ServerConfig,
    pub db_config: DatabaseConfig,
    pub frontend_config: FrontendConfig,
    pub token_config: TokenConfig,
}

impl Config {
    /// The configuration made of its four parts.
    pub fn new(
        server_config: ServerConfig,
        db_config: DatabaseConfig,
        frontend_config: FrontendConfig,
        token_config: TokenConfig,
    ) -> (config: Self)
        ensures
            config == (Config { server_config, db_config, frontend_config, token_config }),
    {
        Config { server_config, db_config, frontend_config, token_config }
    }
}

} // verus!

//! What every request handler works on.

use crate::config::Config;
use crate::services::token::TokenService;
use crate::services::user::UserService;
use vstd::prelude::*;

verus! {

/// The configuration of the process and its two services.
#[derive(Debug)]
pub struct AppState {
    pub env: Config,
    pub token_service: TokenService,
    pub user_service: UserService,
}

impl AppState {
    /// Both services are well formed.
    pub open spec fn well_formed(&self) -> bool {
        self.token_service.well_formed() && self.user_service.well_formed()
    }

    /// The state at the start of the process: no sessions and no accounts.
    pub fn new(env: Config) -> (state: Self)
        ensures
            state.env == env,
            state.token_service.config == env.token_config,
            state.token_service.token_repo@.len() == 0,
            state.user_service.user_repo@.len() == 0,
            state.token_service.token_repo.well_formed(),
            state.user_service.well_formed(),
    {
        let token_service = TokenService::new(env.token_config.clone());
        AppState { env, token_service, user_service: UserService::new() }
    }
}

} // verus!

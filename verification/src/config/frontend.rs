//! Where the web client is served from.

use vstd::prelude::*;

verus! {

/// The origin of the web client, which alone may call the API from a
/// browser.
#[derive(Debug, Clone)]
pub struct FrontendConfig {
    pub frontend_url: String,
}

impl FrontendConfig {
    /// A configuration with the given origin.
    pub fn new(frontend_url: String) -> (config: Self)
        ensures
            config == (FrontendConfig { frontend_url }),
    {
        FrontendConfig { frontend_url }
    }
}

} // verus!

//! The bodies of the service's answers, decoded, and the client's
//! configuration.

use vstd::prelude::*;
use vstd::string::StringExecFns;

verus! {

/// The answer to the initialize request.
#[derive(Debug, Clone, PartialEq, Eq)]
pub struct InitResponse {
    /// The address of the convert request, signature included.
    pub convert_url: String,
    /// The service's verdict; `"0"` is success.
    pub error: String,
}

/// The answer to a convert request, and to the request that follows a
/// redirect.
#[derive(Debug, Clone, PartialEq, Eq)]
pub struct ConvertResponse {
    /// The service's verdict; zero is success.
    pub error: i32,
    pub progress_url: String,
    /// Where the audio can be fetched; empty where there is none.
    pub download_url: String,
    /// Where to ask again, meaningful where `redirect` is one.
    pub redirect_url: String,
    pub redirect: i32,
    pub title: String,
}

impl ConvertResponse {
    /// The answer asks for one more request, and says where.
    pub open spec fn redirects(&self) -> bool {
        self.redirect == 1 && self.redirect_url@.len() > 0
    }

    /// Whether the answer asks for one more request.
    pub fn wants_redirect(&self) -> (yes: bool)
        ensures
            yes == self.redirects(),
    {
        self.redirect == 1 && !self.redirect_url.as_str().is_empty()
    }
}

/// What a client is made with.
#[derive(Debug, Clone, PartialEq, Eq)]
pub struct ApiConfig {
    /// The identifier this client goes by. The handshake does not send it:
    /// each initialize request carries a token derived from the landing page.
    pub user_id: String,
    /// The address under which the initialize endpoint lives.
    pub base_init_url: String,
}

impl Default for ApiConfig {
    fn default() -> (config: ApiConfig)
        ensures
            config.user_id@ == "uLYHx4FToXeloU3RJEEliN"@,
            config.base_init_url@ == "https://eta.etacloud.org/api/v1"@,
    {
        ApiConfig {
            user_id: String::from_str("uLYHx4FToXeloU3RJEEliN"),
            base_init_url: String::from_str("https://eta.etacloud.org/api/v1"),
        }
    }
}

} // verus!

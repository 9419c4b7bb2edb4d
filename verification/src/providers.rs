//! Provider-specific configuration.
//!
//! Each supported provider contributes its endpoint construction and the
//! shape of its authentication headers. The provider set is small and
//! closed, so behavior is selected by matching on [`crate::domain::Provider`]
//! rather than by open-ended polymorphism.

use vstd::prelude::*;

verus! {

/// A target server together with the TLS server name presented for it.
#[derive(Debug, Clone)]
pub struct ServerConfig {
    pub host: String,
    pub port: u16,
    pub server_name: &'static str,
}

/// Wise credentials and addressing for one attestation run.
#[derive(Debug, Clone)]
pub struct WiseConfig {
    pub profile_id: String,
    pub transaction_id: String,
    pub cookie: String,
    pub access_token: String,
    pub server_config: ServerConfig,
}

impl WiseConfig {
    /// Bundles the operator-supplied credentials with the server to
    /// contact. The credentials remain private in all proofs: they are
    /// sent but never part of any revealed range.
    pub fn new(
        profile_id: String,
        transaction_id: String,
        cookie: String,
        access_token: String,
        server_config: ServerConfig,
    ) -> (r: WiseConfig)
        ensures
            r.profile_id == profile_id,
            r.transaction_id == transaction_id,
            r.cookie == cookie,
            r.access_token == access_token,
            r.server_config.host@ == server_config.host@,
            r.server_config.port == server_config.port,
    {
        WiseConfig { profile_id, transaction_id, cookie, access_token, server_config }
    }

    /// The authentication headers of a Wise API request.
    pub fn auth_headers(&self) -> (r: Vec<(&str, &str)>)
        ensures
            r@.len() == 2,
            r@[0].0@ == "Cookie"@,
            r@[0].1@ == self.cookie@,
            r@[1].0@ == "X-Access-Token"@,
            r@[1].1@ == self.access_token@,
    {
        let mut v: Vec<(&str, &str)> = Vec::new();
        v.push(("Cookie", self.cookie.as_str()));
        v.push(("X-Access-Token", self.access_token.as_str()));
        v
    }

    /// The transaction-detail endpoint of this run's target transaction.
    pub fn transaction_endpoint(&self) -> (r: String)
        ensures
            r@ == "/gateway/v3/profiles/"@ + self.profile_id@ + "/transfers/"@
                + self.transaction_id@,
    {
        let mut s: String = "/gateway/v3/profiles/".to_owned();
        s.append(self.profile_id.as_str());
        s.append("/transfers/");
        s.append(self.transaction_id.as_str());
        s
    }
}

} // verus!

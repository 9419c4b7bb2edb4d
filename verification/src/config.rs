//! Application configuration.
//!
//! The configuration is an explicit immutable value threaded into each
//! component. Loading it from the process environment or from files
//! happens outside the library; the library defines the record and its
//! defaults.

use vstd::prelude::*;

use crate::domain::NotaryConfig;
use crate::domain::Provider;
use crate::domain::ServerConfig;

verus! {

/// The User-Agent header sent with provider requests.
pub const DEFAULT_USER_AGENT: &'static str =
    "Mozilla/5.0 (X11; Linux x86_64) AppleWebKit/537.36 (KHTML, like Gecko) Chrome/114.0.0.0 Safari/537.36";

/// Default cap on sent transcript bytes.
pub const DEFAULT_MAX_SENT_DATA: usize = 4096;

/// Default cap on received transcript bytes.
pub const DEFAULT_MAX_RECV_DATA: usize = 16384;

/// Everything the proving and verifying flows need to know about their
/// surroundings: provider endpoints, the notary, transcript size limits,
/// and the byte shown in place of unauthenticated transcript positions.
#[derive(Debug, Clone)]
pub struct AppConfig {
    pub user_agent: String,
    pub max_sent_data: usize,
    pub max_recv_data: usize,
    pub paypal: ServerConfig,
    pub wise: ServerConfig,
    pub notary: NotaryConfig,
    pub unauthed_bytes: String,
}

impl Default for AppConfig {
    /// The built-in configuration: production provider endpoints, a local
    /// notary without TLS, and the default transcript limits.
    fn default() -> (r: AppConfig)
        ensures
            r.user_agent@ == DEFAULT_USER_AGENT@,
            r.max_sent_data == DEFAULT_MAX_SENT_DATA,
            r.max_recv_data == DEFAULT_MAX_RECV_DATA,
            r.wise.host@ == "wise.com"@,
            r.wise.port == 443,
            r.paypal.host@ == "www.paypal.com"@,
            r.paypal.port == 443,
            r.notary.server.host@ == "127.0.0.1"@,
            r.notary.server.port == 7047,
            r.notary.tls_enabled == false,
            r.unauthed_bytes@ == "X"@,
    {
        AppConfig {
            user_agent: DEFAULT_USER_AGENT.to_owned(),
            max_sent_data: DEFAULT_MAX_SENT_DATA,
            max_recv_data: DEFAULT_MAX_RECV_DATA,
            paypal: ServerConfig { host: "www.paypal.com".to_owned(), port: 443 },
            wise: ServerConfig { host: "wise.com".to_owned(), port: 443 },
            notary: NotaryConfig {
                server: ServerConfig { host: "127.0.0.1".to_owned(), port: 7047 },
                tls_enabled: false,
            },
            unauthed_bytes: "X".to_owned(),
        }
    }
}

impl AppConfig {
    /// The server to contact for the given provider.
    pub fn server_config(&self, provider: Provider) -> (r: ServerConfig)
        ensures
            provider == Provider::Wise ==> r.host@ == self.wise.host@ && r.port == self.wise.port,
            provider == Provider::PayPal ==> r.host@ == self.paypal.host@ && r.port
                == self.paypal.port,
    {
        match provider {
            Provider::Wise => ServerConfig { host: self.wise.host.clone(), port: self.wise.port },
            Provider::PayPal => ServerConfig {
                host: self.paypal.host.clone(),
                port: self.paypal.port,
            },
        }
    }
}

} // verus!

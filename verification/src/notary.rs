//! Notary connection settings.
//!
//! The notary's address and TLS flag are read from the process
//! environment outside the library; the decision of what a raw flag value
//! means lives here, where it is checked.

use vstd::prelude::*;

verus! {

/// Where the notary listens and whether the connection to it uses TLS.
#[derive(Debug, Clone)]
pub struct NotaryConfig {
    pub host: String,
    pub port: u16,
    pub tls_enabled: bool,
}

/// The meaning of a raw notary TLS flag: TLS stays enabled unless the
/// flag reads exactly `false` — an unreadable value falls back to the
/// safe default, which is enabled.
pub fn tls_flag_from_text(raw: &str) -> (r: bool)
    ensures
        r == (raw@ != "false"@),
{
    let s: String = raw.to_owned();
    let f: String = "false".to_owned();
    !(s == f)
}

} // verus!

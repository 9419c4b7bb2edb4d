//! Core domain values: operation modes, the closed provider set, and the
//! configuration records that the proving and verifying flows thread
//! through their components.

use vstd::prelude::*;

verus! {

/// What the current invocation is asked to do.
#[derive(Debug, Clone, Copy, PartialEq, Eq, Structural)]
pub enum Mode {
    /// Run a live session and persist attestation and secrets.
    Prove,
    /// Build a presentation from previously persisted artifacts.
    Present,
    /// Run a live session and build the presentation in one go.
    ProveToPresent,
}

impl Mode {
    /// The mode selected by a numeric code handed across a language
    /// boundary: 0 proves, 1 presents, 2 does both, and anything else is
    /// rejected.
    pub fn from_code(code: i32) -> (r: Option<Mode>)
        ensures
            r == (if code == 0 {
                Some(Mode::Prove)
            } else if code == 1 {
                Some(Mode::Present)
            } else if code == 2 {
                Some(Mode::ProveToPresent)
            } else {
                None::<Mode>
            }),
    {
        if code == 0 {
            Some(Mode::Prove)
        } else if code == 1 {
            Some(Mode::Present)
        } else if code == 2 {
            Some(Mode::ProveToPresent)
        } else {
            None
        }
    }
}

/// The steps an invocation performs, decided by its mode alone.
#[derive(Debug, Clone, Copy, PartialEq, Eq, Structural)]
pub struct ModeSteps {
    /// Run a live MPC-TLS session and notarize its transcript.
    pub run_live_session: bool,
    /// Load attestation and secrets from persisted artifacts instead.
    pub load_persisted: bool,
    /// Persist attestation and secrets when the session completes.
    pub save_artifacts: bool,
    /// Build and persist the selective-disclosure presentation.
    pub build_presentation: bool,
}

impl Mode {
    /// What this mode does: proving runs a live session and saves its
    /// artifacts; presenting loads persisted artifacts and builds the
    /// presentation; the combined mode runs the session and presents
    /// without an intermediate save.
    pub fn steps(&self) -> (r: ModeSteps)
        ensures
            r.run_live_session == (*self != Mode::Present),
            r.load_persisted == (*self == Mode::Present),
            r.save_artifacts == (*self == Mode::Prove),
            r.build_presentation == (*self != Mode::Prove),
    {
        ModeSteps {
            run_live_session: !matches!(self, Mode::Present),
            load_persisted: matches!(self, Mode::Present),
            save_artifacts: matches!(self, Mode::Prove),
            build_presentation: !matches!(self, Mode::Prove),
        }
    }
}

/// The closed set of supported payment providers.
#[derive(Debug, Clone, Copy, PartialEq, Eq, Structural)]
pub enum Provider {
    Wise,
    PayPal,
}

impl Provider {
    /// The lower-case provider name used in operator output and in
    /// persisted artifact file names.
    pub fn name(&self) -> (r: String)
        ensures
            *self == Provider::Wise ==> r@ == "wise"@,
            *self == Provider::PayPal ==> r@ == "paypal"@,
    {
        match self {
            Provider::Wise => "wise".to_owned(),
            Provider::PayPal => "paypal".to_owned(),
        }
    }
}

/// Per-invocation provider credentials and target transaction.
#[derive(Debug, Clone)]
pub struct ProviderConfig {
    pub provider_type: Provider,
    pub transaction_id: String,
    pub cookie: String,
    pub access_token: String,
}

impl ProviderConfig {
    pub fn new(
        provider_type: Provider,
        transaction_id: String,
        cookie: String,
        access_token: String,
    ) -> (r: ProviderConfig)
        ensures
            r.provider_type == provider_type,
            r.transaction_id == transaction_id,
            r.cookie == cookie,
            r.access_token == access_token,
    {
        ProviderConfig { provider_type, transaction_id, cookie, access_token }
    }

    /// The authentication headers of a provider request: the session cookie
    /// and the access token, which must never appear in any revealed range.
    pub fn auth_headers(&self) -> (r: Vec<(&str, &str)>)
        ensures
            r@.len() == 2,
            r@[0].0@ == "Cookie"@,
            r@[0].1@ == self.cookie@,
            r@[1].0@ == "X-Access-Token"@,
            r@[1].1@ == self.access_token@,
    {
        let mut v: Vec<(&str, &str)> = Vec::new();
        v.push(("Cookie", self.cookie.as_str()));
        v.push(("X-Access-Token", self.access_token.as_str()));
        v
    }
}

/// Address of a server to connect to.
#[derive(Debug, Clone)]
pub struct ServerConfig {
    pub host: String,
    pub port: u16,
}

/// Address of the notary and whether the connection to it uses TLS.
#[derive(Debug, Clone)]
pub struct NotaryConfig {
    pub server: ServerConfig,
    pub tls_enabled: bool,
}

/// Arguments of the proving flow.
#[derive(Debug, Clone)]
pub struct ProveArgs {
    pub mode: Mode,
    pub url: String,
    pub transaction_id: String,
    pub cookie: Option<String>,
    pub access_token: Option<String>,
}

/// Arguments of the verifying flow.
#[derive(Debug, Clone)]
pub struct VerifyArgs {
    pub url: String,
    pub transaction_id: String,
}

/// Raw authentication arguments as handed in by an operator.
#[derive(Debug, Clone)]
pub struct AuthArgs {
    pub provider: String,
    pub profile_id: Option<String>,
    pub transaction_id: String,
    pub cookie: String,
    pub access_token: String,
}

} // verus!

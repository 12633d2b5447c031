//! Client for driving domain-validated certificate issuance through a
//! provisioning service that creates DNS-01 records on the caller's behalf.
//!
//! The crate holds the issuance state machine (phase types consumed by each
//! forward transition), the wire client for the provisioning endpoints, and
//! the retry and polling policies.  Network transport, request signing and
//! the certificate-authority engine live outside; the functions here decide,
//! on plain values handed in by the embedding application, what each exchange
//! must contain and what every response means.

pub mod error;
pub mod status;
pub mod states;
pub mod wire;

use vstd::prelude::*;

use crate::error::{LocalcertError, LocalcertResult};
use crate::states::RegisteredState;
use crate::status::AccountInfo;
use crate::wire::client::{
    spec_canonical_base, spec_trimmed_base, spec_valid_base_url, LocalcertClient,
};

verus! {

/// Default base URL of the provisioning service.
pub fn default_server_url() -> (s: &'static str)
    ensures
        s@ == "https://localcert.dev"@,
{
    "https://localcert.dev"
}

/// Default interval, in milliseconds, between two queries of an order whose
/// status has not changed yet.
pub const DEFAULT_ACME_POLLING_INTERVAL_MS: u64 = 5000;

/// Gathers the configuration of one issuance session: the provisioning
/// service's base URL and the polling interval.  The embedding application
/// supplies the HTTP transport and the authority account separately.
pub struct ConfigBuilder {
    pub server_url: Option<String>,
    pub acme_polling_interval_ms: u64,
}

/// The base URL a builder will hand to the wire client: the one set by the
/// caller, or the default.
pub open spec fn spec_effective_server_url(b: ConfigBuilder) -> Seq<char> {
    match b.server_url {
        Some(u) => u@,
        None => "https://localcert.dev"@,
    }
}

impl ConfigBuilder {
    pub fn new() -> (r: Self)
        ensures
            r.server_url is None,
            r.acme_polling_interval_ms == DEFAULT_ACME_POLLING_INTERVAL_MS,
    {
        ConfigBuilder { server_url: None, acme_polling_interval_ms: DEFAULT_ACME_POLLING_INTERVAL_MS }
    }

    pub fn localcert_server_url(&mut self, server_url: String)
        ensures
            final(self).server_url == Some(server_url),
            final(self).acme_polling_interval_ms == old(self).acme_polling_interval_ms,
    {
        self.server_url = Some(server_url);
    }

    pub fn acme_polling_interval(&mut self, interval_ms: u64)
        ensures
            final(self).acme_polling_interval_ms == interval_ms,
            final(self).server_url == old(self).server_url,
    {
        self.acme_polling_interval_ms = interval_ms;
    }

    /// Builds the session's registered phase around an account the authority
    /// engine has already established.  Fails only when the configured base
    /// URL cannot serve as a base to join endpoint names onto.
    pub fn build_with_account(self, account: AccountInfo) -> (r: LocalcertResult<RegisteredState>)
        ensures
            r is Ok <==> spec_valid_base_url(spec_effective_server_url(self)),
            r matches Ok(st) ==> ({
                &&& st.client.base_url@ == spec_canonical_base(
                    spec_trimmed_base(spec_effective_server_url(self)),
                )
                &&& st.client.wf()
                &&& st.account == account
                &&& st.acme_polling_interval_ms == self.acme_polling_interval_ms
            }),
            r matches Err(e) ==> (e matches LocalcertError::InvalidBaseUrl(m) && m@
                == spec_effective_server_url(self)),
    {
        let base: &str = match &self.server_url {
            Some(u) => u.as_str(),
            None => default_server_url(),
        };
        let client = LocalcertClient::new(base)?;
        Ok(RegisteredState {
            client,
            account,
            acme_polling_interval_ms: self.acme_polling_interval_ms,
        })
    }
}

} // verus!

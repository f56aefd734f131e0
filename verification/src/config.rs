//! Construction of a [`Client`]: required configuration, and a builder
//! for the optional parameters.

use vstd::prelude::*;

use crate::client::Client;
use crate::retry::RetryPolicy;

verus! {

/// The overall per-request timeout applied to every HTTP exchange, in
/// milliseconds.
pub const REQUEST_TIMEOUT_MS: u64 = 60_000;

/// The vendor endpoint used when none is configured.
pub open spec fn default_vendor_endpoint_spec() -> Seq<char> {
    "https://api.frontegg.com"@
}

/// Returns the default vendor endpoint.
pub fn default_vendor_endpoint() -> (r: String)
    ensures
        r@ == default_vendor_endpoint_spec(),
{
    "https://api.frontegg.com".to_owned()
}

/// The retry policy used when none is configured: up to five retries,
/// backing off between a tenth of a second and three seconds.
pub open spec fn default_retry_policy_spec() -> RetryPolicy {
    RetryPolicy { max_retries: 5, min_backoff_ms: 100, max_backoff_ms: 3_000 }
}

/// Configures the required parameters of a [`Client`].
#[derive(Debug, Clone, PartialEq)]
pub struct ClientConfig {
    /// The client ID for the vendor to authenticate as.
    pub client_id: String,
    /// The secret key for the vendor to authenticate as.
    pub secret_key: String,
}

/// A builder for a [`Client`].
#[derive(Debug, Clone, PartialEq)]
pub struct ClientBuilder {
    /// The vendor endpoint the built client will target.
    pub vendor_endpoint: String,
    /// The retry policy of the built client, if any.
    pub retry_policy: Option<RetryPolicy>,
}

impl Default for ClientBuilder {
    /// The builder before any customization: the default endpoint and
    /// the default retry policy.
    fn default() -> (b: ClientBuilder)
        ensures
            b.vendor_endpoint@ == default_vendor_endpoint_spec(),
            b.retry_policy == Some(default_retry_policy_spec()),
    {
        ClientBuilder {
            vendor_endpoint: default_vendor_endpoint(),
            retry_policy: Some(
                RetryPolicy { max_retries: 5, min_backoff_ms: 100, max_backoff_ms: 3_000 },
            ),
        }
    }
}

impl ClientBuilder {
    /// Sets the policy for retrying failed read-only API calls.
    ///
    /// Note that the created [`Client`] will retry only read-only API
    /// calls, like getting a tenant, but not mutating API calls, like
    /// creating a user.
    pub fn with_retry_policy(self, policy: RetryPolicy) -> (b: Self)
        requires
            policy.wf(),
        ensures
            b.retry_policy == Some(policy),
            b.vendor_endpoint == self.vendor_endpoint,
    {
        ClientBuilder { retry_policy: Some(policy), ..self }
    }

    /// Sets the vendor endpoint.
    pub fn with_vendor_endpoint(self, endpoint: String) -> (b: Self)
        ensures
            b.vendor_endpoint == endpoint,
            b.retry_policy == self.retry_policy,
    {
        ClientBuilder { vendor_endpoint: endpoint, ..self }
    }

    /// Creates a [`Client`] that incorporates the optional parameters
    /// configured on the builder and the specified required parameters.
    ///
    /// A builder without a retry policy yields a client that never
    /// retries.
    pub fn build(self, config: ClientConfig) -> (c: Client)
        requires
            self.retry_policy is Some ==> self.retry_policy->0.wf(),
        ensures
            c.client_id == config.client_id,
            c.secret_key == config.secret_key,
            c.vendor_endpoint == self.vendor_endpoint,
            self.retry_policy is Some ==> c.retry_policy == self.retry_policy->0,
            self.retry_policy is None ==> c.retry_policy == (RetryPolicy {
                max_retries: 0,
                min_backoff_ms: 0,
                max_backoff_ms: 0,
            }),
            c.retry_policy.wf(),
            c.timeout_ms == REQUEST_TIMEOUT_MS,
    {
        let retry_policy = match self.retry_policy {
            Some(policy) => policy,
            None => RetryPolicy { max_retries: 0, min_backoff_ms: 0, max_backoff_ms: 0 },
        };
        Client {
            client_id: config.client_id,
            secret_key: config.secret_key,
            vendor_endpoint: self.vendor_endpoint,
            retry_policy,
            timeout_ms: REQUEST_TIMEOUT_MS,
        }
    }
}

} // verus!

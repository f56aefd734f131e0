//! The client core: the immutable configuration a client carries,
//! request building, and the shared token cache with its refresh rules.

use vstd::prelude::*;

use crate::config::ClientBuilder;
use crate::config::ClientConfig;
use crate::request::AuthRequest;
use crate::request::Method;
use crate::request::RequestBody;
use crate::request::RequestDescriptor;
use crate::request::transport_for;
use crate::retry::RetryPolicy;
use crate::util::segments_view;

pub mod roles;
pub mod tenants;
pub mod users;

verus! {

/// The path of the vendor authentication endpoint.
pub open spec fn auth_vendor_path_spec() -> Seq<Seq<char>> {
    seq!["auth"@, "vendor"@]
}

/// Builds the path of the vendor authentication endpoint.
pub fn auth_vendor_path() -> (r: Vec<String>)
    ensures
        segments_view(r@) == auth_vendor_path_spec(),
{
    let r: Vec<String> = vec!["auth".to_owned(), "vendor".to_owned()];
    proof {
        assert(segments_view(r@) =~= auth_vendor_path_spec());
    }
    r
}

/// The pure core of an API client for Frontegg.
///
/// It holds what never changes after construction — the credentials, the
/// vendor endpoint, the retry policy and the request timeout — and builds
/// the request descriptors that a driver performs. The driver shares one
/// `Client` among any number of concurrent callers, together with one
/// exclusively locked token slot (an `Option<Auth>`).
#[derive(Debug, Clone, PartialEq)]
pub struct Client {
    /// The client ID for the vendor to authenticate as.
    pub client_id: String,
    /// The secret key for the vendor to authenticate as.
    pub secret_key: String,
    /// The base URL of the vendor endpoint.
    pub vendor_endpoint: String,
    /// The policy for retrying read-only calls.
    pub retry_policy: RetryPolicy,
    /// The overall per-request timeout, in milliseconds.
    pub timeout_ms: u64,
}

impl Client {
    /// Creates a new `Client` from its required configuration parameters.
    pub fn new(config: ClientConfig) -> (c: Client)
        ensures
            c.client_id == config.client_id,
            c.secret_key == config.secret_key,
            c.vendor_endpoint@ == crate::config::default_vendor_endpoint_spec(),
            c.retry_policy == crate::config::default_retry_policy_spec(),
            c.retry_policy.wf(),
            c.timeout_ms == crate::config::REQUEST_TIMEOUT_MS,
    {
        ClientBuilder::default().build(config)
    }

    /// Creates a builder for a `Client` that allows for customization of
    /// optional parameters.
    pub fn builder() -> (b: ClientBuilder)
        ensures
            b.vendor_endpoint@ == crate::config::default_vendor_endpoint_spec(),
            b.retry_policy == Some(crate::config::default_retry_policy_spec()),
    {
        ClientBuilder::default()
    }

    /// Builds a bare request descriptor: the given method and path, the
    /// transport selected by the method, a bearer token required, and
    /// nothing else attached yet.
    pub fn build_request(&self, method: Method, path: Vec<String>) -> (r: RequestDescriptor)
        ensures
            r.method == method,
            r.path == path,
            r.tenant_id is None,
            r.query is None,
            r.body is None,
            r.transport == crate::request::transport_spec(method),
            r.requires_auth,
    {
        let transport = transport_for(method);
        RequestDescriptor {
            method,
            path,
            tenant_id: None,
            query: None,
            body: None,
            transport,
            requires_auth: true,
        }
    }

    /// Builds the vendor authentication request: a POST of the stored
    /// credentials to the authentication endpoint.
    ///
    /// It is sent without a bearer token — it is the call that produces
    /// the token — and over the non-retryable transport, like every other
    /// write-style call: re-authenticating on every transient blip is as
    /// undesirable as blindly retrying a mutation.
    pub fn auth_request(&self) -> (r: RequestDescriptor)
        ensures
            r.method == Method::Post,
            segments_view(r.path@) == auth_vendor_path_spec(),
            r.tenant_id is None,
            r.query is None,
            r.body == Some(
                RequestBody::Auth(
                    AuthRequest { client_id: self.client_id, secret: self.secret_key },
                ),
            ),
            r.transport == crate::request::Transport::NonRetryable,
            !r.requires_auth,
    {
        let mut r = self.build_request(Method::Post, auth_vendor_path());
        r.requires_auth = false;
        r.body = Some(
            RequestBody::Auth(
                AuthRequest { client_id: self.client_id.clone(), secret: self.secret_key.clone() },
            ),
        );
        r
    }
}

/// A cached bearer token together with the time at which it must be
/// refreshed.
#[derive(Debug, Clone, PartialEq)]
pub struct Auth {
    /// The bearer token.
    pub token: String,
    /// The time from which the token is no longer used, as a Unix
    /// timestamp in milliseconds. It is set to half the token's reported
    /// lifetime, so refresh happens well before real expiry.
    pub refresh_at: u64,
}

/// Whether the cached token may still be used at time `now_ms`.
pub open spec fn token_fresh(auth: Option<Auth>, now_ms: u64) -> bool {
    auth is Some && now_ms < auth->0.refresh_at
}

/// Returns the cached token if it is still fresh at `now_ms`, and
/// nothing when a refresh is required.
pub fn token_if_fresh(auth: &Option<Auth>, now_ms: u64) -> (r: Option<String>)
    ensures
        (r is Some) == token_fresh(*auth, now_ms),
        r is Some ==> r->0 == auth->0.token,
{
    match auth {
        Some(a) if now_ms < a.refresh_at => Some(a.token.clone()),
        _ => None,
    }
}

/// Stores a token that the authentication endpoint just reported valid
/// for `expires_in_secs` seconds, replacing whatever was cached.
///
/// The refresh time is set to half the reported lifetime from now —
/// refresh twice as frequently as needed, to be safe.
pub fn store_token(auth: &mut Option<Auth>, now_ms: u64, token: String, expires_in_secs: u64)
    requires
        now_ms + expires_in_secs * 500 <= u64::MAX,
    ensures
        *final(auth) == Some(Auth { token, refresh_at: (now_ms + expires_in_secs * 500) as u64 }),
{
    let refresh_at = now_ms + expires_in_secs * 500;
    *auth = Some(Auth { token, refresh_at });
}

/// Law: for a token stored at time `t` with a reported lifetime of
/// `expires_in_secs`, a call strictly before `t` plus half the lifetime
/// finds the cache fresh and triggers no authentication, while a call at
/// or after that moment finds it stale and must refresh.
pub proof fn lemma_refresh_timing(
    token: String,
    t: u64,
    expires_in_secs: u64,
    now_ms: u64,
    auth: Option<Auth>,
)
    requires
        t + expires_in_secs * 500 <= u64::MAX,
        auth == Some(Auth { token, refresh_at: (t + expires_in_secs * 500) as u64 }),
    ensures
        now_ms < t + expires_in_secs * 500 ==> token_fresh(auth, now_ms),
        now_ms >= t + expires_in_secs * 500 ==> !token_fresh(auth, now_ms),
{
}

/// Law: once one caller has refreshed the cache, every caller that
/// arrives before the stored refresh time finds the token fresh — and
/// observes exactly the refreshed token — so it triggers no
/// authentication call of its own. Together with the exclusive lock the
/// driver holds around the check-and-refresh step, this serializes
/// concurrent refreshes down to a single authentication call.
pub proof fn lemma_refresh_serialization(
    auth: Option<Auth>,
    stored_at: u64,
    expires_in_secs: u64,
    token: String,
)
    requires
        stored_at + expires_in_secs * 500 <= u64::MAX,
        auth == Some(
            Auth { token, refresh_at: (stored_at + expires_in_secs * 500) as u64 },
        ),
    ensures
        forall|now_ms: u64|
            now_ms < stored_at + expires_in_secs * 500 ==> token_fresh(auth, now_ms),
        auth->0.token == token,
{
}

} // verus!

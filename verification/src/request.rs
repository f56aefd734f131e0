//! Logical request descriptors: what a call sends, over which transport,
//! before any HTTP machinery is involved.

use vstd::prelude::*;

use crate::client::tenants::TenantRequest;
use crate::client::users::UserRequest;
use crate::json::JsonValue;

verus! {

/// An HTTP method, as far as the client distinguishes them.
#[derive(Debug, Clone, Copy, PartialEq, Eq, Structural)]
pub enum Method {
    /// A GET request.
    Get,
    /// A HEAD request.
    Head,
    /// A POST request.
    Post,
    /// A PUT request.
    Put,
    /// A DELETE request.
    Delete,
    /// A PATCH request.
    Patch,
}

/// The transport class a request is sent over.
#[derive(Debug, Clone, Copy, PartialEq, Eq, Structural)]
pub enum Transport {
    /// The transport that retries transient failures.
    Retryable,
    /// The transport that attempts a request exactly once.
    NonRetryable,
}

/// The transport a method is routed to: only GET and HEAD go over the
/// retryable transport.
pub open spec fn transport_spec(method: Method) -> Transport {
    if method == Method::Get || method == Method::Head {
        Transport::Retryable
    } else {
        Transport::NonRetryable
    }
}

/// Selects the transport for a method.
///
/// GET and HEAD requests are idempotent and can be retried without fear
/// of duplicating data; all other requests are assumed to be mutating,
/// and retrying them is left to the caller.
pub fn transport_for(method: Method) -> (t: Transport)
    ensures
        t == transport_spec(method),
        (t == Transport::Retryable) <==> (method == Method::Get || method == Method::Head),
{
    match method {
        Method::Get | Method::Head => Transport::Retryable,
        _ => Transport::NonRetryable,
    }
}

/// The paging parameters of a listing request: the `_limit` and
/// `_offset` query parameters.
#[derive(Debug, Clone, Copy, PartialEq, Eq, Structural)]
pub struct PageQuery {
    /// The number of items requested per page.
    pub limit: u64,
    /// The item offset at which the page starts.
    pub offset: u64,
}

/// The body of the vendor authentication call.
#[derive(Debug, Clone, PartialEq)]
pub struct AuthRequest {
    /// The client ID to authenticate as.
    pub client_id: String,
    /// The secret key for that client ID.
    pub secret: String,
}

/// A JSON request body, as a typed value.
#[derive(Debug, PartialEq)]
pub enum RequestBody {
    /// The body of an authentication call.
    Auth(AuthRequest),
    /// The body of a tenant-creation call.
    Tenant(TenantRequest),
    /// The body of a user-creation call.
    User(UserRequest),
    /// A body of the form `{"metadata": ...}`, as sent by the metadata
    /// update call.
    Metadata(JsonValue),
}

/// Everything the driver needs to perform one HTTP exchange: the method,
/// the path to append to the configured base endpoint, the optional
/// tenant-scope header, the optional paging query, the optional body,
/// the transport to send it over, and whether a bearer token must be
/// attached first.
#[derive(Debug, PartialEq)]
pub struct RequestDescriptor {
    /// The HTTP method.
    pub method: Method,
    /// The path segments, replacing the base endpoint's path.
    pub path: Vec<String>,
    /// The tenant the request is scoped to, carried as the
    /// `Frontegg-Tenant-Id` header.
    pub tenant_id: Option<u128>,
    /// The paging parameters, for listing requests.
    pub query: Option<PageQuery>,
    /// The JSON body.
    pub body: Option<RequestBody>,
    /// The transport the request goes over.
    pub transport: Transport,
    /// Whether a bearer token is attached before sending.
    pub requires_auth: bool,
}

} // verus!

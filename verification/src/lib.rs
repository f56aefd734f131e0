//! A typed client core for the Frontegg identity and tenant-management HTTP
//! API, with its request, authentication, retry and pagination logic stated
//! in contracts and verified.
//!
//! The crate is the pure heart of such a client: it decides what to send,
//! which transport may retry, when a cached token is still fresh, how a
//! paged listing advances, and how responses are classified. Performing the
//! HTTP exchanges themselves is left to a thin asynchronous driver around
//! this library.

mod client;
mod config;
mod error;
mod json;
mod paginate;
mod request;
mod retry;
mod util;

pub use client::roles::{Permission, Role};
pub use client::tenants::{tenant_from_list, Tenant, TenantRequest};
pub use client::users::{
    CreatedUser, TenantBinding, User, UserListConfig, UserRequest, WebhookTenantBinding,
    WebhookUser,
};
pub use client::{store_token, token_if_fresh, Auth, Client};
pub use config::{default_vendor_endpoint, ClientBuilder, ClientConfig};
pub use error::{
    aggregate_error, classify_response, is_success_status, ApiError, Error, ErrorResponse,
    TransportError,
};
pub use json::JsonValue;
pub use paginate::{Paginated, PaginationMetadata, Paginator};
pub use request::{transport_for, AuthRequest, Method, PageQuery, RequestBody, RequestDescriptor,
    Transport};
pub use retry::{backoff_ms, is_transient_status, RetryDecision, RetryPolicy, RetrySession};
pub use util::StrIteratorExt;

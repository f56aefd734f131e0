//! User records and the user operations of the client.

use vstd::prelude::*;

use crate::client::roles::{Permission, Role};
use crate::client::Client;
use crate::json::JsonValue;
use crate::request::Method;
use crate::request::PageQuery;
use crate::request::RequestBody;
use crate::request::RequestDescriptor;
use crate::request::Transport;
use crate::util::segments_view;
use crate::util::uuid_segment;
use crate::util::uuid_text;
use crate::util::StrIteratorExt;

verus! {

/// The path of the user collection.
pub open spec fn user_path_spec() -> Seq<Seq<char>> {
    seq!["identity"@, "resources"@, "users"@, "v1"@]
}

/// Builds the path of the user collection.
pub fn user_path() -> (r: Vec<String>)
    ensures
        segments_view(r@) == user_path_spec(),
{
    let r: Vec<String> = vec![
        "identity".to_owned(),
        "resources".to_owned(),
        "users".to_owned(),
        "v1".to_owned(),
    ];
    proof {
        assert(segments_view(r@) =~= user_path_spec());
    }
    r
}

/// The path of the vendor-only user collection, which serves single
/// users by ID.
pub open spec fn vendor_user_path_spec() -> Seq<Seq<char>> {
    seq!["identity"@, "resources"@, "vendor-only"@, "users"@, "v1"@]
}

/// Builds the path of the vendor-only user collection.
pub fn vendor_user_path() -> (r: Vec<String>)
    ensures
        segments_view(r@) == vendor_user_path_spec(),
{
    let r: Vec<String> = vec![
        "identity".to_owned(),
        "resources".to_owned(),
        "vendor-only".to_owned(),
        "users".to_owned(),
        "v1".to_owned(),
    ];
    proof {
        assert(segments_view(r@) =~= vendor_user_path_spec());
    }
    r
}

/// Configuration for the user-listing operation.
#[derive(Debug, Clone, PartialEq)]
pub struct UserListConfig {
    /// The tenant to restrict the listing to, if any.
    pub tenant_id: Option<u128>,
    /// The number of items requested per page.
    pub page_size: u64,
}

impl Default for UserListConfig {
    /// The default listing: all tenants, fifty items to a page.
    fn default() -> (r: UserListConfig)
        ensures
            r.tenant_id is None,
            r.page_size == 50,
    {
        UserListConfig { tenant_id: None, page_size: 50 }
    }
}

impl UserListConfig {
    /// Sets the tenant ID to filter users to.
    ///
    /// If this method is not called, users for all tenants are returned.
    pub fn tenant_id(self, tenant_id: u128) -> (r: Self)
        ensures
            r.tenant_id == Some(tenant_id),
            r.page_size == self.page_size,
    {
        UserListConfig { tenant_id: Some(tenant_id), ..self }
    }

    /// Sets the page size.
    pub fn page_size(self, page_size: u64) -> (r: Self)
        ensures
            r.page_size == page_size,
            r.tenant_id == self.tenant_id,
    {
        UserListConfig { page_size, ..self }
    }
}

/// The subset of [`User`] used in create requests.
#[derive(Debug, PartialEq)]
pub struct UserRequest {
    /// The ID of the tenant to which the user will belong.
    pub tenant_id: u128,
    /// The name of the user.
    pub name: String,
    /// The email for the user.
    pub email: String,
    /// Arbitrary metadata to attach to the user.
    pub metadata: JsonValue,
    /// Whether to skip sending an invitation email to the user.
    pub skip_invite_email: bool,
}

/// The subset of a [`User`] returned when a user is created.
#[derive(Debug, PartialEq)]
pub struct CreatedUser {
    /// The ID of the user.
    pub id: u128,
    /// The name of the user.
    pub name: String,
    /// The email for the user.
    pub email: String,
    /// Arbitrary metadata that is attached to the user.
    pub metadata: JsonValue,
    /// The roles to which this user belongs.
    pub roles: Vec<Role>,
    /// The permissions which this user holds.
    pub permissions: Vec<Permission>,
    /// The time at which the user was created, as a Unix timestamp in
    /// seconds.
    pub created_at: i64,
}

/// The subset of a [`User`] carried by a user webhook event.
#[derive(Debug, PartialEq)]
pub struct WebhookUser {
    /// The ID of the user.
    pub id: u128,
    /// The name of the user.
    pub name: Option<String>,
    /// The email for the user.
    pub email: String,
    /// Arbitrary metadata that is attached to the user.
    pub metadata: JsonValue,
    /// The roles to which this user belongs.
    pub roles: Vec<Role>,
    /// The permissions which this user holds.
    pub permissions: Vec<Permission>,
    /// The time at which the user was created, as a Unix timestamp in
    /// seconds.
    pub created_at: i64,
    /// The activation status of the user for the tenant.
    pub activated_for_tenant: Option<bool>,
    /// The locked status of the user.
    pub is_locked: Option<bool>,
    /// The entity managing the user.
    pub managed_by: String,
    /// The MFA enrollment status of the user.
    pub mfa_enrolled: bool,
    /// The MFA bypass status of the user.
    pub mfa_bypass: Option<bool>,
    /// The phone number of the user.
    pub phone_number: Option<String>,
    /// The profile picture URL of the user.
    pub profile_picture_url: Option<String>,
    /// The provider of the user.
    pub provider: String,
    /// The sub of the user.
    pub sub: u128,
    /// The ID of the tenant of the user.
    pub tenant_id: u128,
    /// The IDs of all tenants for the user, when the event carries them.
    pub tenant_ids: Option<Vec<u128>>,
    /// The tenants to which this user belongs, when the event carries
    /// them.
    pub tenants: Option<Vec<WebhookTenantBinding>>,
    /// The verified status of the user.
    pub verified: Option<bool>,
}

/// A Frontegg user.
#[derive(Debug, PartialEq)]
pub struct User {
    /// The ID of the user.
    pub id: u128,
    /// The name of the user.
    pub name: String,
    /// The email for the user.
    pub email: String,
    /// Arbitrary metadata that is attached to the user.
    pub metadata: JsonValue,
    /// The tenants to which this user belongs.
    pub tenants: Vec<TenantBinding>,
    /// The time at which the user was created, as a Unix timestamp in
    /// seconds.
    pub created_at: i64,
}

/// Binds a [`User`] to a tenant for a user webhook event.
#[derive(Debug, Clone, PartialEq)]
pub struct WebhookTenantBinding {
    /// The ID of the tenant.
    pub tenant_id: u128,
    /// The roles to which the user belongs in this tenant, when the event
    /// carries them.
    pub roles: Option<Vec<Role>>,
}

/// Binds a [`User`] to a tenant.
#[derive(Debug, Clone, PartialEq)]
pub struct TenantBinding {
    /// The ID of the tenant.
    pub tenant_id: u128,
    /// The roles to which the user belongs in this tenant.
    pub roles: Vec<Role>,
}

impl Client {
    /// Builds the request that fetches one page of the user listing, for
    /// all tenants or scoped to the configured tenant.
    ///
    /// A full listing is a scan of a [`Paginator`] over these requests:
    /// the paginator hands out the paging parameters page by page.
    ///
    /// [`Paginator`]: crate::paginate::Paginator
    pub fn list_users_request(
        &self,
        config: &UserListConfig,
        query: PageQuery,
    ) -> (r: RequestDescriptor)
        ensures
            r.method == Method::Get,
            segments_view(r.path@) == user_path_spec(),
            r.tenant_id == config.tenant_id,
            r.query == Some(query),
            r.body is None,
            r.transport == Transport::Retryable,
            r.requires_auth,
    {
        let mut r = self.build_request(Method::Get, user_path());
        r.tenant_id = config.tenant_id;
        r.query = Some(query);
        r
    }

    /// Builds the request that creates a new user, carrying the
    /// caller-supplied fields unchanged as its body and scoped to the
    /// user's tenant.
    ///
    /// Only partial information about the created user is returned by
    /// the server; fetching the user by ID yields the full record.
    pub fn create_user_request(&self, user: UserRequest) -> (r: RequestDescriptor)
        ensures
            r.method == Method::Post,
            segments_view(r.path@) == user_path_spec(),
            r.tenant_id == Some(user.tenant_id),
            r.query is None,
            r.body == Some(RequestBody::User(user)),
            r.transport == Transport::NonRetryable,
            r.requires_auth,
    {
        let tenant_id = user.tenant_id;
        let mut r = self.build_request(Method::Post, user_path());
        r.tenant_id = Some(tenant_id);
        r.body = Some(RequestBody::User(user));
        r
    }

    /// Builds the request that fetches a user by ID, through the
    /// vendor-only endpoint.
    pub fn get_user_request(&self, id: u128) -> (r: RequestDescriptor)
        ensures
            r.method == Method::Get,
            segments_view(r.path@) == vendor_user_path_spec() + seq![uuid_text(id)],
            r.tenant_id is None,
            r.query is None,
            r.body is None,
            r.transport == Transport::Retryable,
            r.requires_auth,
    {
        self.build_request(Method::Get, vendor_user_path().chain_one(uuid_segment(id)))
    }

    /// Builds the request that deletes a user by ID.
    pub fn delete_user_request(&self, id: u128) -> (r: RequestDescriptor)
        ensures
            r.method == Method::Delete,
            segments_view(r.path@) == user_path_spec() + seq![uuid_text(id)],
            r.tenant_id is None,
            r.query is None,
            r.body is None,
            r.transport == Transport::NonRetryable,
            r.requires_auth,
    {
        self.build_request(Method::Delete, user_path().chain_one(uuid_segment(id)))
    }
}

} // verus!

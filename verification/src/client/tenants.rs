//! Tenant records and the tenant operations of the client.

use vstd::prelude::*;

use crate::client::Client;
use crate::error::ApiError;
use crate::error::Error;
use crate::json::JsonValue;
use crate::request::Method;
use crate::request::RequestBody;
use crate::request::RequestDescriptor;
use crate::request::Transport;
use crate::util::segments_view;
use crate::util::uuid_segment;
use crate::util::uuid_text;
use crate::util::StrIteratorExt;

verus! {

/// The path of the tenant collection.
pub open spec fn tenant_path_spec() -> Seq<Seq<char>> {
    seq!["tenants"@, "resources"@, "tenants"@, "v1"@]
}

/// Builds the path of the tenant collection.
pub fn tenant_path() -> (r: Vec<String>)
    ensures
        segments_view(r@) == tenant_path_spec(),
{
    let r: Vec<String> = vec![
        "tenants".to_owned(),
        "resources".to_owned(),
        "tenants".to_owned(),
        "v1".to_owned(),
    ];
    proof {
        assert(segments_view(r@) =~= tenant_path_spec());
    }
    r
}

/// The subset of [`Tenant`] used in create requests.
#[derive(Debug, PartialEq)]
pub struct TenantRequest {
    /// The ID of the tenant.
    pub id: u128,
    /// The name of the tenant.
    pub name: String,
    /// Arbitrary metadata to attach to the tenant.
    pub metadata: JsonValue,
    /// The name of the person who created the tenant.
    pub creator_name: Option<String>,
    /// The email of the person who created the tenant.
    pub creator_email: Option<String>,
}

/// A Frontegg tenant.
#[derive(Debug, PartialEq)]
pub struct Tenant {
    /// The ID of the tenant.
    pub id: u128,
    /// The name of the tenant.
    pub name: String,
    /// Arbitrary metadata that is attached to the tenant.
    pub metadata: JsonValue,
    /// The name of the person who created the tenant.
    pub creator_name: Option<String>,
    /// The email of the person who created the tenant.
    pub creator_email: Option<String>,
    /// The time at which the tenant was created, as a Unix timestamp in
    /// seconds.
    pub created_at: i64,
    /// The time at which the tenant was updated, as a Unix timestamp in
    /// seconds.
    pub updated_at: i64,
    /// The time at which the tenant was deleted, as a Unix timestamp in
    /// seconds, if it was.
    pub deleted_at: Option<i64>,
}

impl Client {
    /// Builds the request that lists all tenants in the workspace.
    ///
    /// The server returns the listing sorted by tenant ID.
    pub fn list_tenants_request(&self) -> (r: RequestDescriptor)
        ensures
            r.method == Method::Get,
            segments_view(r.path@) == tenant_path_spec(),
            r.tenant_id is None,
            r.query is None,
            r.body is None,
            r.transport == Transport::Retryable,
            r.requires_auth,
    {
        self.build_request(Method::Get, tenant_path())
    }

    /// Builds the request that creates a new tenant, carrying the
    /// caller-supplied fields unchanged as its body.
    pub fn create_tenant_request(&self, tenant: TenantRequest) -> (r: RequestDescriptor)
        ensures
            r.method == Method::Post,
            segments_view(r.path@) == tenant_path_spec(),
            r.tenant_id is None,
            r.query is None,
            r.body == Some(RequestBody::Tenant(tenant)),
            r.transport == Transport::NonRetryable,
            r.requires_auth,
    {
        let mut r = self.build_request(Method::Post, tenant_path());
        r.body = Some(RequestBody::Tenant(tenant));
        r
    }

    /// Builds the request that fetches a tenant by ID.
    ///
    /// The endpoint answers with a listing filtered to the one ID;
    /// [`tenant_from_list`] turns that listing into the tenant or a
    /// not-found error.
    pub fn get_tenant_request(&self, id: u128) -> (r: RequestDescriptor)
        ensures
            r.method == Method::Get,
            segments_view(r.path@) == tenant_path_spec() + seq![uuid_text(id)],
            r.tenant_id is None,
            r.query is None,
            r.body is None,
            r.transport == Transport::Retryable,
            r.requires_auth,
    {
        self.build_request(Method::Get, tenant_path().chain_one(uuid_segment(id)))
    }

    /// Builds the request that deletes a tenant by ID.
    pub fn delete_tenant_request(&self, id: u128) -> (r: RequestDescriptor)
        ensures
            r.method == Method::Delete,
            segments_view(r.path@) == tenant_path_spec() + seq![uuid_text(id)],
            r.tenant_id is None,
            r.query is None,
            r.body is None,
            r.transport == Transport::NonRetryable,
            r.requires_auth,
    {
        self.build_request(Method::Delete, tenant_path().chain_one(uuid_segment(id)))
    }

    /// Builds the request that sets a tenant's metadata, carrying the
    /// new metadata unchanged in a body of the form `{"metadata": ...}`.
    ///
    /// This does not remove existing keys from the object if omitted.
    pub fn set_tenant_metadata_request(
        &self,
        id: u128,
        metadata: JsonValue,
    ) -> (r: RequestDescriptor)
        ensures
            r.method == Method::Post,
            segments_view(r.path@) == tenant_path_spec() + seq![uuid_text(id), "metadata"@],
            r.tenant_id is None,
            r.query is None,
            r.body == Some(RequestBody::Metadata(metadata)),
            r.transport == Transport::NonRetryable,
            r.requires_auth,
    {
        let path = tenant_path().chain_one(uuid_segment(id)).chain_one("metadata".to_owned());
        let mut r = self.build_request(Method::Post, path);
        r.body = Some(RequestBody::Metadata(metadata));
        proof {
            assert(segments_view(r.path@) =~= tenant_path_spec() + seq![
                uuid_text(id),
                "metadata"@,
            ]);
        }
        r
    }

    /// Builds the request that removes one key from a tenant's metadata.
    pub fn delete_tenant_metadata_request(&self, id: u128, key: String) -> (r: RequestDescriptor)
        ensures
            r.method == Method::Delete,
            segments_view(r.path@) == tenant_path_spec() + seq![uuid_text(id), "metadata"@, key@],
            r.tenant_id is None,
            r.query is None,
            r.body is None,
            r.transport == Transport::NonRetryable,
            r.requires_auth,
    {
        let path = tenant_path().chain_one(uuid_segment(id)).chain_one(
            "metadata".to_owned(),
        ).chain_one(key);
        let r = self.build_request(Method::Delete, path);
        proof {
            assert(segments_view(r.path@) =~= tenant_path_spec() + seq![
                uuid_text(id),
                "metadata"@,
                key@,
            ]);
        }
        r
    }
}

/// Turns the listing that the get-by-ID endpoint returns into the tenant
/// itself: the last listed tenant, or — when the listing is empty — a
/// synthesized not-found API error, never an empty success.
pub fn tenant_from_list(list: Vec<Tenant>) -> (r: Result<Tenant, Error>)
    ensures
        list@.len() > 0 ==> (r matches Ok(t) && t == list@.last()),
        list@.len() == 0 ==> (r matches Err(Error::Api(a)) && a.status_code == 404
            && a.messages@.len() == 1 && a.messages@[0]@ == "Tenant not found"@),
{
    let mut list = list;
    match list.pop() {
        Some(t) => Ok(t),
        None => {
            let messages: Vec<String> = vec!["Tenant not found".to_owned()];
            Err(Error::Api(ApiError { status_code: 404, messages }))
        }
    }
}

} // verus!

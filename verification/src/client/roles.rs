//! Roles and permissions as returned by the API.

use vstd::prelude::*;

verus! {

/// A Frontegg role.
#[derive(Debug, Clone, PartialEq)]
pub struct Role {
    /// The ID of the role.
    pub id: u128,
    /// The machine-readable name for the role.
    pub key: String,
    /// The human-readable name for the role.
    pub name: String,
    /// A description of the role.
    pub description: Option<String>,
    /// The level of the role.
    pub level: i64,
    /// Whether the role is a default role assigned to new users.
    pub is_default: bool,
    /// The IDs of the permissions granted by the role.
    pub permission_ids: Vec<u128>,
    /// The time at which the role was created, as a Unix timestamp in
    /// seconds.
    pub created_at: i64,
}

/// A Frontegg permission.
#[derive(Debug, Clone, PartialEq)]
pub struct Permission {
    /// The ID of the permission.
    pub id: u128,
    /// The ID of the category to which the permission belongs.
    pub category_id: String,
    /// The machine-readable name for the permission.
    pub key: String,
    /// The human-readable name for the permission.
    pub name: String,
    /// A description of the permission.
    pub description: Option<String>,
    /// The time at which the permission was created, as a Unix timestamp
    /// in seconds.
    pub created_at: i64,
    /// The time at which the permission was updated, as a Unix timestamp
    /// in seconds.
    pub updated_at: i64,
}

} // verus!

//! Organizations: the role lattice and the request shapes of the
//! organization surface. The role predicates are the authorization rules the
//! handlers consult.

use vstd::prelude::*;

verus! {

/// A member's role within an organization.
#[derive(Debug, Clone, Copy, PartialEq, Eq, Structural)]
pub enum OrganizationRole {
    Owner,
    Admin,
    Member,
    Viewer,
}

impl OrganizationRole {
    /// Owners and admins may invite new members.
    pub fn can_invite(&self) -> (r: bool)
        ensures
            r == (*self == OrganizationRole::Owner || *self == OrganizationRole::Admin),
    {
        matches!(self, OrganizationRole::Owner | OrganizationRole::Admin)
    }

    /// Owners and admins may manage the member list.
    pub fn can_manage_members(&self) -> (r: bool)
        ensures
            r == (*self == OrganizationRole::Owner || *self == OrganizationRole::Admin),
    {
        matches!(self, OrganizationRole::Owner | OrganizationRole::Admin)
    }

    /// Everyone but a viewer may publish packages.
    pub fn can_publish_crates(&self) -> (r: bool)
        ensures
            r == (*self != OrganizationRole::Viewer),
    {
        matches!(
            self,
            OrganizationRole::Owner | OrganizationRole::Admin | OrganizationRole::Member
        )
    }

    /// Only the owner may delete the organization.
    pub fn can_delete_organization(&self) -> (r: bool)
        ensures
            r == (*self == OrganizationRole::Owner),
    {
        matches!(self, OrganizationRole::Owner)
    }

    /// Only the owner may transfer ownership.
    pub fn can_transfer_ownership(&self) -> (r: bool)
        ensures
            r == (*self == OrganizationRole::Owner),
    {
        matches!(self, OrganizationRole::Owner)
    }
}

/// Request body for creating an organization.
#[derive(Debug)]
pub struct CreateOrganizationRequest {
    pub name: String,
    pub display_name: String,
    pub description: Option<String>,
    pub website: Option<String>,
}

/// Request body for updating an organization.
#[derive(Debug)]
pub struct UpdateOrganizationRequest {
    pub display_name: Option<String>,
    pub description: Option<String>,
    pub website: Option<String>,
    pub avatar_url: Option<String>,
}

/// Request body for inviting a user into an organization.
#[derive(Debug)]
pub struct InviteUserRequest {
    pub email: String,
    pub role: OrganizationRole,
}

} // verus!

//! Account records and roles: the identities the middleware resolves and admits.

use vstd::prelude::*;

verus! {

/// The role attached to an account record. Roles are compared by plain set
/// membership against a route's allow-list: there is no hierarchy among
/// them and no implicit escalation.
#[derive(Clone, Copy, Debug, PartialEq, Eq, Structural)]
pub enum UserRole {
    Admin,
    Editor,
    Viewer,
}

/// The authoritative, currently-persisted identity: what the identity store
/// returns for a subject. It is looked up fresh on every gated request, so
/// an account deleted after token issuance is rejected immediately.
#[derive(Clone, Copy, Debug, PartialEq, Eq, Structural)]
pub struct Account {
    /// The 128-bit value of the account's unique identifier.
    pub id: u128,
    /// The role the route's allow-list is matched against.
    pub role: UserRole,
}

} // verus!

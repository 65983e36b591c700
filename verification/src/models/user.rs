//! Users and their roles.
use vstd::prelude::*;
use crate::text::{text_eq, dup_opt_text};

verus! {

/// The role of a user, which decides what the user may do.
#[derive(Debug, Clone, Copy, PartialEq, Eq, Structural)]
pub enum Role {
    Storeman,
    CQMS,
    Officer,
    Inspector,
    Admin,
}

/// Roles that may receive, issue, return, transfer and count stock.
pub open spec fn role_can_transact(r: Role) -> bool {
    r is Storeman || r is CQMS || r is Admin
}

/// Roles that may approve adjustments.
pub open spec fn role_can_approve(r: Role) -> bool {
    r is CQMS || r is Admin
}

/// Roles that may export reports.
pub open spec fn role_can_export(r: Role) -> bool {
    r is CQMS || r is Officer || r is Inspector || r is Admin
}

/// Roles that may administer users and locations.
pub open spec fn role_can_admin(r: Role) -> bool {
    r is Admin
}

/// Roles that may view controlled items.
pub open spec fn role_can_view_controlled(r: Role) -> bool {
    r is CQMS || r is Admin || r is Inspector
}

/// The text a role is displayed and stored as.
pub open spec fn role_text(r: Role) -> Seq<char> {
    match r {
        Role::Storeman => "Storeman"@,
        Role::CQMS => "CQMS"@,
        Role::Officer => "Officer"@,
        Role::Inspector => "Inspector"@,
        Role::Admin => "Admin"@,
    }
}

/// The role `parse_role` reads from `s`: any text that names no other role is `Admin`.
pub open spec fn role_from_text(s: Seq<char>) -> Role {
    if s == "Storeman"@ {
        Role::Storeman
    } else if s == "CQMS"@ {
        Role::CQMS
    } else if s == "Officer"@ {
        Role::Officer
    } else if s == "Inspector"@ {
        Role::Inspector
    } else {
        Role::Admin
    }
}

impl Role {
    pub fn can_transact(&self) -> (r: bool)
        ensures
            r == role_can_transact(*self),
    {
        matches!(self, Role::Storeman | Role::CQMS | Role::Admin)
    }

    pub fn can_approve(&self) -> (r: bool)
        ensures
            r == role_can_approve(*self),
    {
        matches!(self, Role::CQMS | Role::Admin)
    }

    pub fn can_export(&self) -> (r: bool)
        ensures
            r == role_can_export(*self),
    {
        matches!(self, Role::CQMS | Role::Officer | Role::Inspector | Role::Admin)
    }

    pub fn can_admin(&self) -> (r: bool)
        ensures
            r == role_can_admin(*self),
    {
        matches!(self, Role::Admin)
    }

    pub fn can_view_controlled(&self) -> (r: bool)
        ensures
            r == role_can_view_controlled(*self),
    {
        matches!(self, Role::CQMS | Role::Admin | Role::Inspector)
    }

    /// The display text of the role.
    pub fn to_string(&self) -> (r: String)
        ensures
            r@ == role_text(*self),
    {
        role_to_str(self).to_string()
    }
}

/// The text a role is stored as.
pub fn role_to_str(r: &Role) -> (s: &'static str)
    ensures
        s@ == role_text(*r),
{
    match r {
        Role::Storeman => "Storeman",
        Role::CQMS => "CQMS",
        Role::Officer => "Officer",
        Role::Inspector => "Inspector",
        Role::Admin => "Admin",
    }
}

/// Reads a stored role; any text that names no other role reads as `Admin`.
pub fn parse_role(s: &str) -> (r: Role)
    ensures
        r == role_from_text(s@),
{
    if text_eq(s, "Storeman") {
        Role::Storeman
    } else if text_eq(s, "CQMS") {
        Role::CQMS
    } else if text_eq(s, "Officer") {
        Role::Officer
    } else if text_eq(s, "Inspector") {
        Role::Inspector
    } else {
        Role::Admin
    }
}

/// Reading the stored text of a role gives the role back.
pub proof fn lemma_role_round_trip(r: Role)
    ensures
        role_from_text(role_text(r)) == r,
{
    reveal_strlit("Storeman");
    reveal_strlit("CQMS");
    reveal_strlit("Officer");
    reveal_strlit("Inspector");
    reveal_strlit("Admin");
    assert("Storeman"@.len() == 8);
    assert("CQMS"@.len() == 4);
    assert("Officer"@.len() == 7);
    assert("Inspector"@.len() == 9);
    assert("Admin"@.len() == 5);
}

/// Every role that may approve may also transact and export; only the admin role
/// may administer, and the admin role may do everything.
pub proof fn lemma_role_permissions_nest(r: Role)
    ensures
        role_can_approve(r) ==> role_can_transact(r) && role_can_export(r)
            && role_can_view_controlled(r),
        role_can_admin(r) <==> r == Role::Admin,
        role_can_admin(r) ==> role_can_transact(r) && role_can_approve(r) && role_can_export(r)
            && role_can_view_controlled(r),
{
}

/// The roles and permissions table: Storeman may transact only; CQMS may transact,
/// approve, export and view controlled items; Officer may export only; Inspector may
/// export and view controlled items; Admin may do everything.
pub proof fn law_role_permission_table()
    ensures
        role_can_transact(Role::Storeman) && !role_can_approve(Role::Storeman) && !role_can_export(Role::Storeman)
            && !role_can_view_controlled(Role::Storeman) && !role_can_admin(Role::Storeman),
        role_can_transact(Role::CQMS) && role_can_approve(Role::CQMS) && role_can_export(Role::CQMS)
            && role_can_view_controlled(Role::CQMS) && !role_can_admin(Role::CQMS),
        !role_can_transact(Role::Officer) && !role_can_approve(Role::Officer) && role_can_export(Role::Officer)
            && !role_can_view_controlled(Role::Officer) && !role_can_admin(Role::Officer),
        !role_can_transact(Role::Inspector) && !role_can_approve(Role::Inspector) && role_can_export(
            Role::Inspector) && role_can_view_controlled(Role::Inspector) && !role_can_admin(Role::Inspector),
        role_can_transact(Role::Admin) && role_can_approve(Role::Admin) && role_can_export(Role::Admin)
            && role_can_view_controlled(Role::Admin) && role_can_admin(Role::Admin),
{
}

/// Only the Storeman, CQMS and Admin roles may perform transactions.
pub proof fn law_transacting_roles(r: Role)
    ensures
        role_can_transact(r) <==> (r == Role::Storeman || r == Role::CQMS || r == Role::Admin),
{
}

/// A user of the application.
#[derive(Debug, Clone)]
pub struct User {
    pub id: u128,
    pub username: String,
    pub display_name: String,
    pub role: Role,
    pub rank: String,
    pub active: bool,
    pub created_at: String,
    pub last_login: Option<String>,
}

impl User {
    /// A copy of the user.
    pub fn duplicate(&self) -> (r: User)
        ensures
            r == *self,
    {
        User {
            id: self.id,
            username: self.username.clone(),
            display_name: self.display_name.clone(),
            role: self.role,
            rank: self.rank.clone(),
            active: self.active,
            created_at: self.created_at.clone(),
            last_login: dup_opt_text(&self.last_login),
        }
    }
}

} // verus!

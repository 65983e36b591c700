//! Guards that refuse users whose role lacks a permission.
use vstd::prelude::*;
use crate::error::StoremanError;
use crate::models::user::{User, Role, role_text, role_can_transact, role_can_approve,
    role_can_export, role_can_admin, role_can_view_controlled};

verus! {

/// `r` is the refusal of `role` with the given reason after the role's name.
pub open spec fn refused(r: std::result::Result<(), StoremanError>, role: Role, reason: Seq<char>) -> bool {
    r matches Err(StoremanError::Unauthorized(m)) && m@ == role_text(role) + reason
}

fn refusal(role: Role, reason: &str) -> (r: std::result::Result<(), StoremanError>)
    ensures
        refused(r, role, reason@),
{
    let mut m = role.to_string();
    m.append(reason);
    Err(StoremanError::Unauthorized(m))
}

/// Succeeds when the user's role may perform transactions.
pub fn require_can_transact(user: &User) -> (r: std::result::Result<(), StoremanError>)
    ensures
        r is Ok <==> role_can_transact(user.role),
        r is Err ==> refused(r, user.role, " cannot perform transactions"@),
{
    if user.role.can_transact() { Ok(()) } else { refusal(user.role, " cannot perform transactions") }
}

/// Succeeds when the user's role may approve transactions.
pub fn require_can_approve(user: &User) -> (r: std::result::Result<(), StoremanError>)
    ensures
        r is Ok <==> role_can_approve(user.role),
        r is Err ==> refused(r, user.role, " cannot approve transactions"@),
{
    if user.role.can_approve() { Ok(()) } else { refusal(user.role, " cannot approve transactions") }
}

/// Succeeds when the user's role may export reports.
pub fn require_can_export(user: &User) -> (r: std::result::Result<(), StoremanError>)
    ensures
        r is Ok <==> role_can_export(user.role),
        r is Err ==> refused(r, user.role, " cannot export reports"@),
{
    if user.role.can_export() { Ok(()) } else { refusal(user.role, " cannot export reports") }
}

/// Succeeds when the user's role may administer the application.
pub fn require_can_admin(user: &User) -> (r: std::result::Result<(), StoremanError>)
    ensures
        r is Ok <==> role_can_admin(user.role),
        r is Err ==> refused(r, user.role, " does not have admin access"@),
{
    if user.role.can_admin() { Ok(()) } else { refusal(user.role, " does not have admin access") }
}

/// Succeeds when the user's role may view controlled items.
pub fn require_can_view_controlled(user: &User) -> (r: std::result::Result<(), StoremanError>)
    ensures
        r is Ok <==> role_can_view_controlled(user.role),
        r is Err ==> refused(r, user.role, " cannot view controlled items"@),
{
    if user.role.can_view_controlled() {
        Ok(())
    } else {
        refusal(user.role, " cannot view controlled items")
    }
}

} // verus!

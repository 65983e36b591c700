//! The reports screen: the limits typed for the exports and the audit listing.
use vstd::prelude::*;
use crate::forms::{read_usize, typed_usize};
use crate::models::user::{User, role_can_export};

verus! {

/// What the reports screen holds.
pub struct ReportsState {
    pub status_msg: Option<String>,
    pub audit_limit: String,
    pub tx_limit: String,
}

impl Default for ReportsState {
    fn default() -> (r: Self)
        ensures
            r.status_msg is None,
            r.audit_limit@ == "100"@,
            r.tx_limit@ == "500"@,
    {
        ReportsState { status_msg: None, audit_limit: "100".to_string(), tx_limit: "500".to_string() }
    }
}

impl ReportsState {
    /// How many transactions to export: the typed count, or 500.
    pub fn transaction_limit(&self) -> (r: usize)
        ensures
            r == typed_usize(self.tx_limit@, 500),
    {
        read_usize(self.tx_limit.as_str(), 500)
    }

    /// How many audit entries to list: the typed count, or 100.
    pub fn audit_entry_limit(&self) -> (r: usize)
        ensures
            r == typed_usize(self.audit_limit@, 100),
    {
        read_usize(self.audit_limit.as_str(), 100)
    }
}

/// The notice shown instead of the reports to a user whose role may not export.
pub fn export_notice(user: &User) -> (r: Option<String>)
    ensures
        r is Some <==> !role_can_export(user.role),
        r matches Some(m) ==> m@ == "⚠ You do not have permission to export reports."@,
{
    if user.role.can_export() {
        None
    } else {
        Some("⚠ You do not have permission to export reports.".to_string())
    }
}

} // verus!

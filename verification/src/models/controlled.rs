//! Governance profiles for controlled categories.
use vstd::prelude::*;
use crate::models::item::ControlledCategory;

verus! {

/// The rules that apply to items of one controlled category.
#[derive(Debug, Clone)]
pub struct ControlledProfile {
    pub id: u128,
    pub category: ControlledCategory,
    pub requires_dual_approval: bool,
    pub restricted_export: bool,
    pub watermark_text: String,
    pub mandatory_custody_fields: bool,
    pub audit_all_views: bool,
    pub description: String,
}

} // verus!

//! The master equipment reference: equipment items, their variants and
//! NATO codification references.
use vstd::prelude::*;
use crate::text::{text_eq, dup_opt_text};

verus! {

/// High-level category of a piece of equipment.
#[derive(Debug, Clone, Copy, PartialEq, Eq, Structural)]
pub enum EquipmentCategory {
    Weapon,
    Vehicle,
    Optic,
    CES,
    Comms,
    Tool,
    Clothing,
    Ammunition,
    Other,
}

/// The text an equipment category is displayed and stored as.
pub open spec fn equipment_category_text(c: EquipmentCategory) -> Seq<char> {
    match c {
        EquipmentCategory::Weapon => "Weapon"@,
        EquipmentCategory::Vehicle => "Vehicle"@,
        EquipmentCategory::Optic => "Optic"@,
        EquipmentCategory::CES => "CES"@,
        EquipmentCategory::Comms => "Comms"@,
        EquipmentCategory::Tool => "Tool"@,
        EquipmentCategory::Clothing => "Clothing"@,
        EquipmentCategory::Ammunition => "Ammunition"@,
        EquipmentCategory::Other => "Other"@,
    }
}

/// The category `parse_equipment_category` reads from `s`: unknown text reads as `Other`.
pub open spec fn equipment_category_from_text(s: Seq<char>) -> EquipmentCategory {
    if s == "Weapon"@ {
        EquipmentCategory::Weapon
    } else if s == "Vehicle"@ {
        EquipmentCategory::Vehicle
    } else if s == "Optic"@ {
        EquipmentCategory::Optic
    } else if s == "CES"@ {
        EquipmentCategory::CES
    } else if s == "Comms"@ {
        EquipmentCategory::Comms
    } else if s == "Tool"@ {
        EquipmentCategory::Tool
    } else if s == "Clothing"@ {
        EquipmentCategory::Clothing
    } else if s == "Ammunition"@ {
        EquipmentCategory::Ammunition
    } else {
        EquipmentCategory::Other
    }
}

impl EquipmentCategory {
    /// The display text of the category.
    pub fn to_string(&self) -> (r: String)
        ensures
            r@ == equipment_category_text(*self),
    {
        match self {
            EquipmentCategory::Weapon => "Weapon".to_string(),
            EquipmentCategory::Vehicle => "Vehicle".to_string(),
            EquipmentCategory::Optic => "Optic".to_string(),
            EquipmentCategory::CES => "CES".to_string(),
            EquipmentCategory::Comms => "Comms".to_string(),
            EquipmentCategory::Tool => "Tool".to_string(),
            EquipmentCategory::Clothing => "Clothing".to_string(),
            EquipmentCategory::Ammunition => "Ammunition".to_string(),
            EquipmentCategory::Other => "Other".to_string(),
        }
    }
}

/// Reads an equipment category; unknown text reads as `Other`.
pub fn parse_equipment_category(s: &str) -> (r: EquipmentCategory)
    ensures
        r == equipment_category_from_text(s@),
{
    if text_eq(s, "Weapon") {
        EquipmentCategory::Weapon
    } else if text_eq(s, "Vehicle") {
        EquipmentCategory::Vehicle
    } else if text_eq(s, "Optic") {
        EquipmentCategory::Optic
    } else if text_eq(s, "CES") {
        EquipmentCategory::CES
    } else if text_eq(s, "Comms") {
        EquipmentCategory::Comms
    } else if text_eq(s, "Tool") {
        EquipmentCategory::Tool
    } else if text_eq(s, "Clothing") {
        EquipmentCategory::Clothing
    } else if text_eq(s, "Ammunition") {
        EquipmentCategory::Ammunition
    } else {
        EquipmentCategory::Other
    }
}

/// Reading the stored text of an equipment category gives the category back.
pub proof fn lemma_equipment_category_round_trip(c: EquipmentCategory)
    ensures
        equipment_category_from_text(equipment_category_text(c)) == c,
{
    reveal_strlit("Weapon");
    reveal_strlit("Vehicle");
    reveal_strlit("Optic");
    reveal_strlit("CES");
    reveal_strlit("Comms");
    reveal_strlit("Tool");
    reveal_strlit("Clothing");
    reveal_strlit("Ammunition");
    reveal_strlit("Other");
    assert("Weapon"@.len() == 6);
    assert("Vehicle"@.len() == 7);
    assert("Optic"@.len() == 5);
    assert("CES"@.len() == 3);
    assert("Comms"@.len() == 5);
    assert("Tool"@.len() == 4);
    assert("Clothing"@.len() == 8);
    assert("Ammunition"@.len() == 10);
    assert("Other"@.len() == 5);
    assert("Optic"@[0] != "Comms"@[0]);
    assert("Optic"@[1] != "Other"@[1]);
    assert("Comms"@[0] != "Other"@[0]);
}

/// Service branch associated with a piece of equipment.
#[derive(Debug, Clone, Copy, PartialEq, Eq, Structural)]
pub enum ServiceBranch {
    Army,
    RCAF,
    RCN,
    Joint,
}

/// The text a service branch is displayed and stored as.
pub open spec fn service_branch_text(b: ServiceBranch) -> Seq<char> {
    match b {
        ServiceBranch::Army => "Army"@,
        ServiceBranch::RCAF => "RCAF"@,
        ServiceBranch::RCN => "RCN"@,
        ServiceBranch::Joint => "Joint"@,
    }
}

/// The branch `parse_service_branch` reads from `s`: unknown text reads as `Joint`.
pub open spec fn service_branch_from_text(s: Seq<char>) -> ServiceBranch {
    if s == "Army"@ {
        ServiceBranch::Army
    } else if s == "RCAF"@ {
        ServiceBranch::RCAF
    } else if s == "RCN"@ {
        ServiceBranch::RCN
    } else {
        ServiceBranch::Joint
    }
}

impl ServiceBranch {
    /// The display text of the branch.
    pub fn to_string(&self) -> (r: String)
        ensures
            r@ == service_branch_text(*self),
    {
        match self {
            ServiceBranch::Army => "Army".to_string(),
            ServiceBranch::RCAF => "RCAF".to_string(),
            ServiceBranch::RCN => "RCN".to_string(),
            ServiceBranch::Joint => "Joint".to_string(),
        }
    }
}

/// Reads a service branch; unknown text reads as `Joint`.
pub fn parse_service_branch(s: &str) -> (r: ServiceBranch)
    ensures
        r == service_branch_from_text(s@),
{
    if text_eq(s, "Army") {
        ServiceBranch::Army
    } else if text_eq(s, "RCAF") {
        ServiceBranch::RCAF
    } else if text_eq(s, "RCN") {
        ServiceBranch::RCN
    } else {
        ServiceBranch::Joint
    }
}

/// Reading the stored text of a service branch gives the branch back.
pub proof fn lemma_service_branch_round_trip(b: ServiceBranch)
    ensures
        service_branch_from_text(service_branch_text(b)) == b,
{
    reveal_strlit("Army");
    reveal_strlit("RCAF");
    reveal_strlit("RCN");
    reveal_strlit("Joint");
    assert("Army"@.len() == 4);
    assert("RCAF"@.len() == 4);
    assert("RCN"@.len() == 3);
    assert("Joint"@.len() == 5);
    assert("Army"@[0] != "RCAF"@[0]);
}

/// In-service status of an equipment item.
#[derive(Debug, Clone, Copy, PartialEq, Eq, Structural)]
pub enum EquipmentStatus {
    InService,
    Limited,
    Legacy,
}

/// The text an equipment status is displayed and stored as.
pub open spec fn equipment_status_text(s: EquipmentStatus) -> Seq<char> {
    match s {
        EquipmentStatus::InService => "In Service"@,
        EquipmentStatus::Limited => "Limited"@,
        EquipmentStatus::Legacy => "Legacy"@,
    }
}

/// The status `parse_equipment_status` reads from `s`: unknown text reads as in service.
pub open spec fn equipment_status_from_text(s: Seq<char>) -> EquipmentStatus {
    if s == "In Service"@ {
        EquipmentStatus::InService
    } else if s == "Limited"@ {
        EquipmentStatus::Limited
    } else if s == "Legacy"@ {
        EquipmentStatus::Legacy
    } else {
        EquipmentStatus::InService
    }
}

impl EquipmentStatus {
    /// The display text of the status.
    pub fn to_string(&self) -> (r: String)
        ensures
            r@ == equipment_status_text(*self),
    {
        match self {
            EquipmentStatus::InService => "In Service".to_string(),
            EquipmentStatus::Limited => "Limited".to_string(),
            EquipmentStatus::Legacy => "Legacy".to_string(),
        }
    }
}

/// Reads an equipment status; unknown text reads as in service.
pub fn parse_equipment_status(s: &str) -> (r: EquipmentStatus)
    ensures
        r == equipment_status_from_text(s@),
{
    if text_eq(s, "In Service") {
        EquipmentStatus::InService
    } else if text_eq(s, "Limited") {
        EquipmentStatus::Limited
    } else if text_eq(s, "Legacy") {
        EquipmentStatus::Legacy
    } else {
        EquipmentStatus::InService
    }
}

/// Reading the stored text of an equipment status gives the status back.
pub proof fn lemma_equipment_status_round_trip(s: EquipmentStatus)
    ensures
        equipment_status_from_text(equipment_status_text(s)) == s,
{
    reveal_strlit("In Service");
    reveal_strlit("Limited");
    reveal_strlit("Legacy");
    assert("In Service"@.len() == 10);
    assert("Limited"@.len() == 7);
    assert("Legacy"@.len() == 6);
}

/// Master equipment reference entry: what exists in service, with no unit holdings.
#[derive(Debug, Clone)]
pub struct EquipmentItem {
    pub id: u128,
    /// Short, common name used by soldiers.
    pub common_name: String,
    /// Official designation.
    pub official_designation: String,
    pub equipment_category: EquipmentCategory,
    /// Optional NATO category code.
    pub nato_category_code: Option<String>,
    pub manufacturer: Option<String>,
    pub country_of_origin: Option<String>,
    pub service_branch: ServiceBranch,
    pub status: EquipmentStatus,
    /// Year the item entered service.
    pub introduction_year: Option<i32>,
    pub notes: String,
    pub active: bool,
}

impl EquipmentItem {
    /// A copy of the equipment item.
    pub fn duplicate(&self) -> (r: EquipmentItem)
        ensures
            r == *self,
    {
        EquipmentItem {
            id: self.id,
            common_name: self.common_name.clone(),
            official_designation: self.official_designation.clone(),
            equipment_category: self.equipment_category,
            nato_category_code: dup_opt_text(&self.nato_category_code),
            manufacturer: dup_opt_text(&self.manufacturer),
            country_of_origin: dup_opt_text(&self.country_of_origin),
            service_branch: self.service_branch,
            status: self.status,
            introduction_year: self.introduction_year,
            notes: self.notes.clone(),
            active: self.active,
        }
    }
}

/// A configuration variant of a master equipment item.
#[derive(Debug, Clone)]
pub struct EquipmentVariant {
    pub id: u128,
    pub equipment_id: u128,
    /// Human-readable variant name.
    pub variant_name: String,
    /// Calibre, specification, or key technical parameter.
    pub calibre_or_spec: Option<String>,
    /// Comma-separated list of compatible accessories.
    pub compatible_accessories: Option<String>,
    pub notes: String,
}

impl EquipmentVariant {
    /// A copy of the variant.
    pub fn duplicate(&self) -> (r: EquipmentVariant)
        ensures
            r == *self,
    {
        EquipmentVariant {
            id: self.id,
            equipment_id: self.equipment_id,
            variant_name: self.variant_name.clone(),
            calibre_or_spec: dup_opt_text(&self.calibre_or_spec),
            compatible_accessories: dup_opt_text(&self.compatible_accessories),
            notes: self.notes.clone(),
        }
    }
}

/// Optional NATO codification of an equipment variant.
#[derive(Debug, Clone)]
pub struct NatoReference {
    pub id: u128,
    pub variant_id: u128,
    /// NATO stock number, where publicly available.
    pub nsn: Option<String>,
    /// NATO reporting name where applicable.
    pub nato_reporting_name: Option<String>,
}

impl NatoReference {
    /// A copy of the reference.
    pub fn duplicate(&self) -> (r: NatoReference)
        ensures
            r == *self,
    {
        NatoReference {
            id: self.id,
            variant_id: self.variant_id,
            nsn: dup_opt_text(&self.nsn),
            nato_reporting_name: dup_opt_text(&self.nato_reporting_name),
        }
    }
}

} // verus!

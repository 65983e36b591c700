//! Serial-numbered equipment.
use vstd::prelude::*;
use crate::models::balance::ConditionCode;
use crate::text::dup_opt_text;

verus! {

/// One serial-numbered piece of an item.
#[derive(Debug, Clone)]
pub struct SerialRecord {
    pub id: u128,
    pub item_id: u128,
    pub serial_number: String,
    pub condition: ConditionCode,
    pub location_id: Option<u128>,
    pub custodian_id: Option<u128>,
    pub inspection_due: Option<String>,
    pub notes: String,
    pub active: bool,
    pub created_at: String,
    pub updated_at: String,
}

impl SerialRecord {
    /// A copy of the record.
    pub fn duplicate(&self) -> (r: SerialRecord)
        ensures
            r == *self,
    {
        SerialRecord {
            id: self.id,
            item_id: self.item_id,
            serial_number: self.serial_number.clone(),
            condition: self.condition.duplicate(),
            location_id: self.location_id,
            custodian_id: self.custodian_id,
            inspection_due: dup_opt_text(&self.inspection_due),
            notes: self.notes.clone(),
            active: self.active,
            created_at: self.created_at.clone(),
            updated_at: self.updated_at.clone(),
        }
    }
}

} // verus!

//! Custody records: who holds what.
use vstd::prelude::*;
use crate::text::{text_eq, dup_opt_text};

verus! {

/// State of a custody record.
#[derive(Debug, Clone, Copy, PartialEq, Eq, Structural)]
pub enum CustodyStatus {
    Active,
    Returned,
    Lost,
    Disposed,
}

/// The text a custody status is displayed and stored as.
pub open spec fn custody_status_text(s: CustodyStatus) -> Seq<char> {
    match s {
        CustodyStatus::Active => "Active"@,
        CustodyStatus::Returned => "Returned"@,
        CustodyStatus::Lost => "Lost"@,
        CustodyStatus::Disposed => "Disposed"@,
    }
}

/// The status `parse_custody_status` reads from `s`: unknown text reads as disposed.
pub open spec fn custody_status_from_text(s: Seq<char>) -> CustodyStatus {
    if s == "Active"@ {
        CustodyStatus::Active
    } else if s == "Returned"@ {
        CustodyStatus::Returned
    } else if s == "Lost"@ {
        CustodyStatus::Lost
    } else {
        CustodyStatus::Disposed
    }
}

impl CustodyStatus {
    /// The display text of the status.
    pub fn to_string(&self) -> (r: String)
        ensures
            r@ == custody_status_text(*self),
    {
        match self {
            CustodyStatus::Active => "Active".to_string(),
            CustodyStatus::Returned => "Returned".to_string(),
            CustodyStatus::Lost => "Lost".to_string(),
            CustodyStatus::Disposed => "Disposed".to_string(),
        }
    }
}

/// Reads a stored custody status; unknown text reads as disposed.
pub fn parse_custody_status(s: &str) -> (r: CustodyStatus)
    ensures
        r == custody_status_from_text(s@),
{
    if text_eq(s, "Active") {
        CustodyStatus::Active
    } else if text_eq(s, "Returned") {
        CustodyStatus::Returned
    } else if text_eq(s, "Lost") {
        CustodyStatus::Lost
    } else {
        CustodyStatus::Disposed
    }
}

/// Reading the stored text of a custody status gives the status back.
pub proof fn lemma_custody_status_round_trip(s: CustodyStatus)
    ensures
        custody_status_from_text(custody_status_text(s)) == s,
{
    reveal_strlit("Active");
    reveal_strlit("Returned");
    reveal_strlit("Lost");
    reveal_strlit("Disposed");
    assert("Active"@.len() == 6);
    assert("Returned"@.len() == 8);
    assert("Lost"@.len() == 4);
    assert("Disposed"@.len() == 8);
    assert("Returned"@[0] != "Disposed"@[0]);
}

/// A record of stock signed out to a custodian.
#[derive(Debug, Clone)]
pub struct CustodyRecord {
    pub id: u128,
    pub item_id: u128,
    pub serial_id: Option<u128>,
    pub lot_id: Option<u128>,
    pub custodian_id: u128,
    pub custodian_name: String,
    pub rank: String,
    pub unit: String,
    pub quantity: i64,
    pub issued_at: String,
    pub returned_at: Option<String>,
    pub transaction_id: u128,
    pub status: CustodyStatus,
    pub notes: String,
}

impl CustodyRecord {
    /// A copy of the record.
    pub fn duplicate(&self) -> (r: CustodyRecord)
        ensures
            r == *self,
    {
        CustodyRecord {
            id: self.id,
            item_id: self.item_id,
            serial_id: self.serial_id,
            lot_id: self.lot_id,
            custodian_id: self.custodian_id,
            custodian_name: self.custodian_name.clone(),
            rank: self.rank.clone(),
            unit: self.unit.clone(),
            quantity: self.quantity,
            issued_at: self.issued_at.clone(),
            returned_at: dup_opt_text(&self.returned_at),
            transaction_id: self.transaction_id,
            status: self.status,
            notes: self.notes.clone(),
        }
    }
}

} // verus!

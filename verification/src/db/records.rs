//! Writing rows: transactions, custody records, lots, serial records and audit
//! entries, each refused when its key is taken or a row it refers to is missing.
use vstd::prelude::*;
use crate::audit::{AuditEntry, chain_tip};
use crate::db::{Database, DatabaseView, has_item, has_location, has_user, has_lot, has_serial,
    has_custody, has_transaction, has_audit_entry, refused_by_store, foreign_key_failed};
use crate::error::StoremanError;
use crate::models::balance::{normalize_condition, normalized_condition};
use crate::models::custody::{CustodyRecord, CustodyStatus};
use crate::models::lot::LotRecord;
use crate::models::serial::SerialRecord;
use crate::models::transaction::{Transaction, TransactionView};
use crate::clock::current_timestamp;

verus! {

/// An optional reference to a location that is absent or names an existing one.
pub open spec fn location_ref_ok(v: DatabaseView, id: Option<u128>) -> bool {
    match id { Some(x) => has_location(v, x), None => true }
}

/// An optional reference to a user that is absent or names an existing one.
pub open spec fn user_ref_ok(v: DatabaseView, id: Option<u128>) -> bool {
    match id { Some(x) => has_user(v, x), None => true }
}

/// An optional reference to a lot that is absent or names an existing one.
pub open spec fn lot_ref_ok(v: DatabaseView, id: Option<u128>) -> bool {
    match id { Some(x) => has_lot(v, x), None => true }
}

/// An optional reference to a serial record that is absent or names an existing one.
pub open spec fn serial_ref_ok(v: DatabaseView, id: Option<u128>) -> bool {
    match id { Some(x) => has_serial(v, x), None => true }
}

/// The rows a transaction refers to exist.
pub open spec fn transaction_refs_ok(v: DatabaseView, t: TransactionView) -> bool {
    &&& has_item(v, t.item_id)
    &&& location_ref_ok(v, t.from_location_id)
    &&& location_ref_ok(v, t.to_location_id)
    &&& lot_ref_ok(v, t.lot_id)
    &&& has_user(v, t.user_id)
    &&& user_ref_ok(v, t.approved_by_id)
}

/// The outcome of writing the transaction `t`.
pub open spec fn save_transaction_outcome(old: DatabaseView, new: DatabaseView, t: TransactionView,
    r: std::result::Result<(), StoremanError>) -> bool {
    if has_transaction(old, t.id) {
        refused_by_store(r, "UNIQUE constraint failed: transactions.id"@) && new == old
    } else if !transaction_refs_ok(old, t) {
        refused_by_store(r, foreign_key_failed()) && new == old
    } else {
        r is Ok && new == DatabaseView { transactions: old.transactions.push(t), ..old }
    }
}

/// The rows a custody record refers to exist.
pub open spec fn custody_refs_ok(v: DatabaseView, c: CustodyRecord) -> bool {
    &&& has_item(v, c.item_id)
    &&& serial_ref_ok(v, c.serial_id)
    &&& lot_ref_ok(v, c.lot_id)
    &&& has_user(v, c.custodian_id)
}

/// The outcome of writing the custody record `c`.
pub open spec fn create_custody_outcome(old: DatabaseView, new: DatabaseView, c: CustodyRecord,
    r: std::result::Result<(), StoremanError>) -> bool {
    if has_custody(old, c.id) {
        refused_by_store(r, "UNIQUE constraint failed: custody_records.id"@) && new == old
    } else if !custody_refs_ok(old, c) {
        refused_by_store(r, foreign_key_failed()) && new == old
    } else {
        r is Ok && new == DatabaseView { custody: old.custody.push(c), ..old }
    }
}

/// The outcome of writing the lot `l`.
pub open spec fn create_lot_outcome(old: DatabaseView, new: DatabaseView, l: LotRecord,
    r: std::result::Result<(), StoremanError>) -> bool {
    if has_lot(old, l.id) {
        refused_by_store(r, "UNIQUE constraint failed: lot_records.id"@) && new == old
    } else if !has_item(old, l.item_id) || !location_ref_ok(old, l.location_id) {
        refused_by_store(r, foreign_key_failed()) && new == old
    } else {
        r is Ok && new == DatabaseView { lots: old.lots.push(l), ..old }
    }
}

/// The serial record `s` as the store keeps it: its condition read back from its text.
pub open spec fn serial_as_stored(s: SerialRecord) -> SerialRecord {
    SerialRecord { condition: normalized_condition(s.condition), ..s }
}

/// The outcome of writing the serial record `s`.
pub open spec fn create_serial_outcome(old: DatabaseView, new: DatabaseView, s: SerialRecord,
    r: std::result::Result<(), StoremanError>) -> bool {
    if has_serial(old, s.id) {
        refused_by_store(r, "UNIQUE constraint failed: serial_records.id"@) && new == old
    } else if !has_item(old, s.item_id) || !location_ref_ok(old, s.location_id) || !user_ref_ok(
        old,
        s.custodian_id,
    ) {
        refused_by_store(r, foreign_key_failed()) && new == old
    } else {
        r is Ok && new == DatabaseView { serials: old.serials.push(serial_as_stored(s)), ..old }
    }
}

/// The outcome of writing the audit entry `e`.
pub open spec fn save_audit_outcome(old: DatabaseView, new: DatabaseView, e: AuditEntry,
    r: std::result::Result<(), StoremanError>) -> bool {
    if has_audit_entry(old, e.entry_id) {
        refused_by_store(r, "UNIQUE constraint failed: audit_log.entry_id"@) && new == old
    } else {
        r is Ok && new == DatabaseView { audit_log: old.audit_log.push(e), ..old }
    }
}

/// The outcome of closing custody record `id` at `now`: every record with that
/// identifier becomes returned at `now`.
pub open spec fn close_custody_outcome(old: DatabaseView, new: DatabaseView, id: u128, now: String) -> bool {
    &&& new.custody.len() == old.custody.len()
    &&& forall|i: int| 0 <= i < old.custody.len() ==> #[trigger] new.custody[i] == if old.custody[i].id == id {
        CustodyRecord { status: CustodyStatus::Returned, returned_at: Some(now), ..old.custody[i] }
    } else {
        old.custody[i]
    }
    &&& new == DatabaseView { custody: new.custody, ..old }
}

impl Database {
    fn location_ref_exists(&self, id: Option<u128>) -> (r: bool)
        ensures
            r == location_ref_ok(self@, id),
    {
        match id {
            Some(x) => self.find_location(x).is_some(),
            None => true,
        }
    }

    fn user_ref_exists(&self, id: Option<u128>) -> (r: bool)
        ensures
            r == user_ref_ok(self@, id),
    {
        match id {
            Some(x) => self.find_user(x).is_some(),
            None => true,
        }
    }

    fn lot_ref_exists(&self, id: Option<u128>) -> (r: bool)
        ensures
            r == lot_ref_ok(self@, id),
    {
        match id {
            Some(x) => self.lot_exists(x),
            None => true,
        }
    }

    fn serial_ref_exists(&self, id: Option<u128>) -> (r: bool)
        ensures
            r == serial_ref_ok(self@, id),
    {
        match id {
            Some(x) => self.serial_exists(x),
            None => true,
        }
    }

    /// Records a transaction.
    pub fn save_transaction(&mut self, tx: &Transaction) -> (r: crate::error::Result<()>)
        requires
            old(self).wf(),
        ensures
            final(self).wf(),
            save_transaction_outcome(old(self)@, final(self)@, tx@, r),
    {
        if self.transaction_exists(tx.id) {
            return Err(StoremanError::Database("UNIQUE constraint failed: transactions.id".to_string()));
        }
        if self.find_item(tx.item_id).is_none() || !self.location_ref_exists(tx.from_location_id)
            || !self.location_ref_exists(tx.to_location_id) || !self.lot_ref_exists(tx.lot_id)
            || self.find_user(tx.user_id).is_none() || !self.user_ref_exists(tx.approved_by_id) {
            return Err(StoremanError::Database("FOREIGN KEY constraint failed".to_string()));
        }
        let t = tx.duplicate();
        self.transactions.push(t);
        assert(self@.transactions =~= old(self)@.transactions.push(tx@));
        Ok(())
    }

    /// Records a custody record.
    pub fn create_custody(&mut self, c: &CustodyRecord) -> (r: crate::error::Result<()>)
        requires
            old(self).wf(),
        ensures
            final(self).wf(),
            create_custody_outcome(old(self)@, final(self)@, *c, r),
    {
        if self.custody_exists(c.id) {
            return Err(StoremanError::Database("UNIQUE constraint failed: custody_records.id".to_string()));
        }
        if self.find_item(c.item_id).is_none() || !self.serial_ref_exists(c.serial_id)
            || !self.lot_ref_exists(c.lot_id) || self.find_user(c.custodian_id).is_none() {
            return Err(StoremanError::Database("FOREIGN KEY constraint failed".to_string()));
        }
        self.custody.push(c.duplicate());
        Ok(())
    }

    /// Marks custody record `custody_id` returned at `now`.
    pub fn close_custody_at(&mut self, custody_id: u128, now: &String) -> (r: crate::error::Result<()>)
        requires
            old(self).wf(),
        ensures
            final(self).wf(),
            r is Ok,
            close_custody_outcome(old(self)@, final(self)@, custody_id, *now),
    {
        let n = self.custody.len();
        for i in 0..n
            invariant
                n == self.custody@.len() == old(self)@.custody.len(),
                forall|j: int| 0 <= j < n ==> #[trigger] self.custody@[j] == if j < i && old(self)@.custody[j].id
                    == custody_id {
                    CustodyRecord {
                        status: CustodyStatus::Returned,
                        returned_at: Some(*now),
                        ..old(self)@.custody[j]
                    }
                } else {
                    old(self)@.custody[j]
                },
                self@ == (DatabaseView { custody: self@.custody, ..old(self)@ }),
        {
            if self.custody[i].id == custody_id {
                let c = self.custody[i].duplicate();
                let updated = CustodyRecord {
                    status: CustodyStatus::Returned,
                    returned_at: Some(now.clone()),
                    ..c
                };
                self.custody.set(i, updated);
            }
        }
        Ok(())
    }

    /// Marks custody record `custody_id` returned now.
    pub fn close_custody(&mut self, custody_id: u128) -> (r: crate::error::Result<()>)
        requires
            old(self).wf(),
        ensures
            final(self).wf(),
            r is Ok,
            exists|now: String| close_custody_outcome(old(self)@, final(self)@, custody_id, now),
    {
        let now = current_timestamp();
        self.close_custody_at(custody_id, &now)
    }

    /// Records a lot.
    pub fn create_lot(&mut self, lot: &LotRecord) -> (r: crate::error::Result<()>)
        requires
            old(self).wf(),
        ensures
            final(self).wf(),
            create_lot_outcome(old(self)@, final(self)@, *lot, r),
    {
        if self.lot_exists(lot.id) {
            return Err(StoremanError::Database("UNIQUE constraint failed: lot_records.id".to_string()));
        }
        if self.find_item(lot.item_id).is_none() || !self.location_ref_exists(lot.location_id) {
            return Err(StoremanError::Database("FOREIGN KEY constraint failed".to_string()));
        }
        self.lots.push(lot.duplicate());
        Ok(())
    }

    /// Records a serial record; its condition is kept as its text reads back.
    pub fn create_serial(&mut self, s: &SerialRecord) -> (r: crate::error::Result<()>)
        requires
            old(self).wf(),
        ensures
            final(self).wf(),
            create_serial_outcome(old(self)@, final(self)@, *s, r),
    {
        if self.serial_exists(s.id) {
            return Err(StoremanError::Database("UNIQUE constraint failed: serial_records.id".to_string()));
        }
        if self.find_item(s.item_id).is_none() || !self.location_ref_exists(s.location_id)
            || !self.user_ref_exists(s.custodian_id) {
            return Err(StoremanError::Database("FOREIGN KEY constraint failed".to_string()));
        }
        let stored = SerialRecord { condition: normalize_condition(&s.condition), ..s.duplicate() };
        self.serials.push(stored);
        Ok(())
    }

    /// Appends an entry to the audit log.
    pub fn save_audit_entry(&mut self, entry: &AuditEntry) -> (r: crate::error::Result<()>)
        requires
            old(self).wf(),
        ensures
            final(self).wf(),
            save_audit_outcome(old(self)@, final(self)@, *entry, r),
    {
        if self.audit_entry_exists(entry.entry_id) {
            return Err(StoremanError::Database("UNIQUE constraint failed: audit_log.entry_id".to_string()));
        }
        self.audit_log.push(entry.duplicate());
        Ok(())
    }

    /// The hash of the last audit entry, or the genesis hash when the log is empty.
    pub fn get_last_audit_hash(&self) -> (r: crate::error::Result<String>)
        ensures
            r matches Ok(h) && h@ == chain_tip(self@.audit_log),
    {
        let n = self.audit_log.len();
        if n == 0 {
            Ok("GENESIS".to_string())
        } else {
            Ok(self.audit_log[n - 1].entry_hash.clone())
        }
    }
}

} // verus!

//! The store: the tables of users, items, locations, stock balances, serials,
//! lots, custody records, transactions, the audit log and the equipment
//! reference, with the keys and references that the schema enforces.
use vstd::prelude::*;
use crate::audit::AuditEntry;
use crate::models::balance::{StockBalance, condition_text};
use crate::models::custody::{CustodyRecord, CustodyStatus};
use crate::models::equipment::{EquipmentItem, EquipmentVariant, NatoReference};
use crate::models::item::Item;
use crate::models::location::Location;
use crate::models::lot::LotRecord;
use crate::models::serial::SerialRecord;
use crate::models::transaction::{Transaction, TransactionView};
use crate::models::user::User;

pub mod balances;
pub mod catalog;
pub mod catalogue;
pub mod equipment;
pub mod listings;
pub mod records;
pub mod reports;
pub mod seed;
pub mod rows;
pub mod tables;

verus! {

/// A user together with the hash of the user's password.
#[derive(Debug, Clone)]
pub struct UserRecord {
    pub user: User,
    pub password_hash: String,
}

/// The tables of the store.
pub struct Database {
    pub(crate) users: Vec<UserRecord>,
    pub(crate) items: Vec<Item>,
    pub(crate) locations: Vec<Location>,
    pub(crate) balances: Vec<StockBalance>,
    pub(crate) serials: Vec<SerialRecord>,
    pub(crate) lots: Vec<LotRecord>,
    pub(crate) custody: Vec<CustodyRecord>,
    pub(crate) transactions: Vec<Transaction>,
    pub(crate) audit_log: Vec<AuditEntry>,
    pub(crate) equipment_items: Vec<EquipmentItem>,
    pub(crate) equipment_variants: Vec<EquipmentVariant>,
    pub(crate) nato_references: Vec<NatoReference>,
}

/// The contents of the store, table by table, rows in the order they were written.
pub ghost struct DatabaseView {
    pub users: Seq<UserRecord>,
    pub items: Seq<Item>,
    pub locations: Seq<Location>,
    pub balances: Seq<StockBalance>,
    pub serials: Seq<SerialRecord>,
    pub lots: Seq<LotRecord>,
    pub custody: Seq<CustodyRecord>,
    pub transactions: Seq<TransactionView>,
    pub audit_log: Seq<AuditEntry>,
    pub equipment_items: Seq<EquipmentItem>,
    pub equipment_variants: Seq<EquipmentVariant>,
    pub nato_references: Seq<NatoReference>,
}

impl View for Database {
    type V = DatabaseView;

    open(crate) spec fn view(&self) -> DatabaseView {
        DatabaseView {
            users: self.users@,
            items: self.items@,
            locations: self.locations@,
            balances: self.balances@,
            serials: self.serials@,
            lots: self.lots@,
            custody: self.custody@,
            transactions: self.transactions@.map_values(|t: Transaction| t@),
            audit_log: self.audit_log@,
            equipment_items: self.equipment_items@,
            equipment_variants: self.equipment_variants@,
            nato_references: self.nato_references@,
        }
    }
}

/// Whether the balance row is the one for the item, location and condition text.
pub open spec fn balance_key_matches(b: StockBalance, item_id: u128, location_id: u128, condition: Seq<char>) -> bool {
    b.item_id == item_id && b.location_id == location_id && condition_text(b.condition) == condition
}

/// Index of the last balance row for the key, or -1.
pub open spec fn balance_index(rows: Seq<StockBalance>, item_id: u128, location_id: u128, condition: Seq<char>) -> int
    decreases rows.len(),
{
    if rows.len() == 0 {
        -1
    } else if balance_key_matches(rows.last(), item_id, location_id, condition) {
        rows.len() - 1
    } else {
        balance_index(rows.drop_last(), item_id, location_id, condition)
    }
}

/// The quantity held for the key: that of its balance row, or zero when there is none.
pub open spec fn balance_of(rows: Seq<StockBalance>, item_id: u128, location_id: u128, condition: Seq<char>) -> int {
    let i = balance_index(rows, item_id, location_id, condition);
    if i >= 0 { rows[i].quantity as int } else { 0 }
}

/// Well-formedness of the store: no stock balance is negative.
pub open spec fn balances_nonnegative(rows: Seq<StockBalance>) -> bool {
    forall|i: int| 0 <= i < rows.len() ==> #[trigger] rows[i].quantity >= 0
}

/// `r` is the store's refusal with the message `msg`.
pub open spec fn refused_by_store<T>(r: std::result::Result<T, crate::error::StoremanError>, msg: Seq<char>) -> bool {
    r matches Err(crate::error::StoremanError::Database(m)) && m@ == msg
}

/// The message of a write that breaks a reference to a missing row.
pub open spec fn foreign_key_failed() -> Seq<char> {
    "FOREIGN KEY constraint failed"@
}

/// Some user has the identifier.
pub open spec fn has_user(v: DatabaseView, id: u128) -> bool {
    exists|i: int| 0 <= i < v.users.len() && #[trigger] v.users[i].user.id == id
}

/// Some item has the identifier.
pub open spec fn has_item(v: DatabaseView, id: u128) -> bool {
    exists|i: int| 0 <= i < v.items.len() && #[trigger] v.items[i].id == id
}

/// Some location has the identifier.
pub open spec fn has_location(v: DatabaseView, id: u128) -> bool {
    exists|i: int| 0 <= i < v.locations.len() && #[trigger] v.locations[i].id == id
}

/// Some serial record has the identifier.
pub open spec fn has_serial(v: DatabaseView, id: u128) -> bool {
    exists|i: int| 0 <= i < v.serials.len() && #[trigger] v.serials[i].id == id
}

/// Some lot has the identifier.
pub open spec fn has_lot(v: DatabaseView, id: u128) -> bool {
    exists|i: int| 0 <= i < v.lots.len() && #[trigger] v.lots[i].id == id
}

/// Some custody record has the identifier.
pub open spec fn has_custody(v: DatabaseView, id: u128) -> bool {
    exists|i: int| 0 <= i < v.custody.len() && #[trigger] v.custody[i].id == id
}

/// Some custody record with the identifier is still active.
pub open spec fn has_active_custody(v: DatabaseView, id: u128) -> bool {
    exists|i: int| 0 <= i < v.custody.len() && #[trigger] v.custody[i].id == id
        && v.custody[i].status == CustodyStatus::Active
}

/// Some transaction has the identifier.
pub open spec fn has_transaction(v: DatabaseView, id: u128) -> bool {
    exists|i: int| 0 <= i < v.transactions.len() && #[trigger] v.transactions[i].id == id
}

/// Some balance row has the identifier.
pub open spec fn has_balance_row(v: DatabaseView, id: u128) -> bool {
    exists|i: int| 0 <= i < v.balances.len() && #[trigger] v.balances[i].id == id
}

/// Some audit entry has the identifier.
pub open spec fn has_audit_entry(v: DatabaseView, id: u128) -> bool {
    exists|i: int| 0 <= i < v.audit_log.len() && #[trigger] v.audit_log[i].entry_id == id
}

/// Some equipment item has the identifier.
pub open spec fn has_equipment_item(v: DatabaseView, id: u128) -> bool {
    exists|i: int| 0 <= i < v.equipment_items.len() && #[trigger] v.equipment_items[i].id == id
}

/// Some equipment variant has the identifier.
pub open spec fn has_equipment_variant(v: DatabaseView, id: u128) -> bool {
    exists|i: int| 0 <= i < v.equipment_variants.len() && #[trigger] v.equipment_variants[i].id == id
}

/// The store with no rows.
pub open spec fn empty_store() -> DatabaseView {
    DatabaseView {
        users: Seq::empty(),
        items: Seq::empty(),
        locations: Seq::empty(),
        balances: Seq::empty(),
        serials: Seq::empty(),
        lots: Seq::empty(),
        custody: Seq::empty(),
        transactions: Seq::empty(),
        audit_log: Seq::empty(),
        equipment_items: Seq::empty(),
        equipment_variants: Seq::empty(),
        nato_references: Seq::empty(),
    }
}

impl Database {
    /// The invariant the store keeps: every stock balance is at least zero.
    pub open spec fn wf(&self) -> bool {
        balances_nonnegative(self@.balances)
    }

    /// An empty store.
    pub fn new() -> (r: Database)
        ensures
            r.wf(),
            r@ == empty_store(),
            r@.users.len() == 0,
            r@.items.len() == 0,
            r@.locations.len() == 0,
            r@.balances.len() == 0,
            r@.serials.len() == 0,
            r@.lots.len() == 0,
            r@.custody.len() == 0,
            r@.transactions.len() == 0,
            r@.audit_log.len() == 0,
            r@.equipment_items.len() == 0,
            r@.equipment_variants.len() == 0,
            r@.nato_references.len() == 0,
    {
        let r = Database {
            users: Vec::new(),
            items: Vec::new(),
            locations: Vec::new(),
            balances: Vec::new(),
            serials: Vec::new(),
            lots: Vec::new(),
            custody: Vec::new(),
            transactions: Vec::new(),
            audit_log: Vec::new(),
            equipment_items: Vec::new(),
            equipment_variants: Vec::new(),
            nato_references: Vec::new(),
        };
        assert(r@.transactions =~= Seq::<TransactionView>::empty());
        assert(r@ =~= empty_store());
        r
    }
}

impl Database {
    /// Position of the first user with the identifier.
    pub(crate) fn find_user(&self, id: u128) -> (r: Option<usize>)
        ensures
            match r {
                Some(i) => i < self@.users.len() && self@.users[i as int].user.id == id
                    && forall|j: int| 0 <= j < i ==> self@.users[j].user.id != id,
                None => !has_user(self@, id),
            },
    {
        let n = self.users.len();
        for i in 0..n
            invariant
                n == self.users@.len(),
                forall|j: int| 0 <= j < i ==> self.users@[j].user.id != id,
        {
            if self.users[i].user.id == id {
                return Some(i);
            }
        }
        None
    }

    /// Position of the first item with the identifier.
    pub(crate) fn find_item(&self, id: u128) -> (r: Option<usize>)
        ensures
            match r {
                Some(i) => i < self@.items.len() && self@.items[i as int].id == id
                    && forall|j: int| 0 <= j < i ==> self@.items[j].id != id,
                None => !has_item(self@, id),
            },
    {
        let n = self.items.len();
        for i in 0..n
            invariant
                n == self.items@.len(),
                forall|j: int| 0 <= j < i ==> self.items@[j].id != id,
        {
            if self.items[i].id == id {
                return Some(i);
            }
        }
        None
    }

    /// Position of the first location with the identifier.
    pub(crate) fn find_location(&self, id: u128) -> (r: Option<usize>)
        ensures
            match r {
                Some(i) => i < self@.locations.len() && self@.locations[i as int].id == id
                    && forall|j: int| 0 <= j < i ==> self@.locations[j].id != id,
                None => !has_location(self@, id),
            },
    {
        let n = self.locations.len();
        for i in 0..n
            invariant
                n == self.locations@.len(),
                forall|j: int| 0 <= j < i ==> self.locations@[j].id != id,
        {
            if self.locations[i].id == id {
                return Some(i);
            }
        }
        None
    }

    /// Whether some serial record has the identifier.
    pub(crate) fn serial_exists(&self, id: u128) -> (r: bool)
        ensures
            r == has_serial(self@, id),
    {
        let n = self.serials.len();
        for i in 0..n
            invariant
                n == self.serials@.len(),
                forall|j: int| 0 <= j < i ==> self.serials@[j].id != id,
        {
            if self.serials[i].id == id {
                return true;
            }
        }
        false
    }

    /// Whether some lot has the identifier.
    pub(crate) fn lot_exists(&self, id: u128) -> (r: bool)
        ensures
            r == has_lot(self@, id),
    {
        let n = self.lots.len();
        for i in 0..n
            invariant
                n == self.lots@.len(),
                forall|j: int| 0 <= j < i ==> self.lots@[j].id != id,
        {
            if self.lots[i].id == id {
                return true;
            }
        }
        false
    }

    /// Whether an active custody record has the identifier.
    pub(crate) fn active_custody_exists(&self, id: u128) -> (r: bool)
        ensures
            r == has_active_custody(self@, id),
    {
        let n = self.custody.len();
        for i in 0..n
            invariant
                n == self.custody@.len(),
                forall|j: int| 0 <= j < i ==> !(self.custody@[j].id == id
                    && self.custody@[j].status == CustodyStatus::Active),
        {
            if self.custody[i].id == id && self.custody[i].status == CustodyStatus::Active {
                return true;
            }
        }
        false
    }

    /// Whether a custody record has the identifier.
    pub(crate) fn custody_exists(&self, id: u128) -> (r: bool)
        ensures
            r == has_custody(self@, id),
    {
        let n = self.custody.len();
        for i in 0..n
            invariant
                n == self.custody@.len(),
                forall|j: int| 0 <= j < i ==> self.custody@[j].id != id,
        {
            if self.custody[i].id == id {
                return true;
            }
        }
        false
    }

    /// Whether some transaction has the identifier.
    pub(crate) fn transaction_exists(&self, id: u128) -> (r: bool)
        ensures
            r == has_transaction(self@, id),
    {
        let n = self.transactions.len();
        for i in 0..n
            invariant
                n == self.transactions@.len(),
                forall|j: int| 0 <= j < i ==> self.transactions@[j].id != id,
        {
            assert(self@.transactions.len() == n);
            if self.transactions[i].id == id {
                assert(self@.transactions[i as int].id == id);
                return true;
            }
        }
        false
    }

    /// Whether some balance row has the identifier.
    pub(crate) fn balance_row_exists(&self, id: u128) -> (r: bool)
        ensures
            r == has_balance_row(self@, id),
    {
        let n = self.balances.len();
        for i in 0..n
            invariant
                n == self.balances@.len(),
                forall|j: int| 0 <= j < i ==> self.balances@[j].id != id,
        {
            if self.balances[i].id == id {
                return true;
            }
        }
        false
    }

    /// Whether some audit entry has the identifier.
    pub(crate) fn audit_entry_exists(&self, id: u128) -> (r: bool)
        ensures
            r == has_audit_entry(self@, id),
    {
        let n = self.audit_log.len();
        for i in 0..n
            invariant
                n == self.audit_log@.len(),
                forall|j: int| 0 <= j < i ==> self.audit_log@[j].entry_id != id,
        {
            if self.audit_log[i].entry_id == id {
                assert(self@.audit_log[i as int].entry_id == id);
                return true;
            }
        }
        false
    }

    /// Position of the first equipment item with the identifier.
    pub(crate) fn find_equipment_item(&self, id: u128) -> (r: Option<usize>)
        ensures
            match r {
                Some(i) => i < self@.equipment_items.len() && self@.equipment_items[i as int].id == id
                    && forall|j: int| 0 <= j < i ==> self@.equipment_items[j].id != id,
                None => !has_equipment_item(self@, id),
            },
    {
        let n = self.equipment_items.len();
        for i in 0..n
            invariant
                n == self.equipment_items@.len(),
                forall|j: int| 0 <= j < i ==> self.equipment_items@[j].id != id,
        {
            if self.equipment_items[i].id == id {
                return Some(i);
            }
        }
        None
    }

    /// Position of the first equipment variant with the identifier.
    pub(crate) fn find_equipment_variant(&self, id: u128) -> (r: Option<usize>)
        ensures
            match r {
                Some(i) => i < self@.equipment_variants.len() && self@.equipment_variants[i as int].id == id
                    && forall|j: int| 0 <= j < i ==> self@.equipment_variants[j].id != id,
                None => !has_equipment_variant(self@, id),
            },
    {
        let n = self.equipment_variants.len();
        for i in 0..n
            invariant
                n == self.equipment_variants@.len(),
                forall|j: int| 0 <= j < i ==> self.equipment_variants@[j].id != id,
        {
            if self.equipment_variants[i].id == id {
                return Some(i);
            }
        }
        None
    }
}

} // verus!

//! The store's tables as plain rows, for saving a store and loading it back.
use vstd::prelude::*;
use crate::audit::AuditEntry;
use crate::db::{Database, DatabaseView, UserRecord, balances_nonnegative};
use crate::error::StoremanError;
use crate::models::balance::StockBalance;
use crate::models::custody::CustodyRecord;
use crate::models::equipment::{EquipmentItem, EquipmentVariant, NatoReference};
use crate::models::item::Item;
use crate::models::location::Location;
use crate::models::lot::LotRecord;
use crate::models::serial::SerialRecord;
use crate::models::transaction::Transaction;

verus! {

/// Every table of a store, rows in the order they were written.
pub struct DatabaseTables {
    pub users: Vec<UserRecord>,
    pub items: Vec<Item>,
    pub locations: Vec<Location>,
    pub balances: Vec<StockBalance>,
    pub serials: Vec<SerialRecord>,
    pub lots: Vec<LotRecord>,
    pub custody: Vec<CustodyRecord>,
    pub transactions: Vec<Transaction>,
    pub audit_log: Vec<AuditEntry>,
    pub equipment_items: Vec<EquipmentItem>,
    pub equipment_variants: Vec<EquipmentVariant>,
    pub nato_references: Vec<NatoReference>,
}

/// The contents the tables hold.
pub open spec fn tables_view(t: DatabaseTables) -> DatabaseView {
    DatabaseView {
        users: t.users@,
        items: t.items@,
        locations: t.locations@,
        balances: t.balances@,
        serials: t.serials@,
        lots: t.lots@,
        custody: t.custody@,
        transactions: t.transactions@.map_values(|x: Transaction| x@),
        audit_log: t.audit_log@,
        equipment_items: t.equipment_items@,
        equipment_variants: t.equipment_variants@,
        nato_references: t.nato_references@,
    }
}

impl Database {
    /// A copy of the items table.
    fn copy_items(&self) -> (r: Vec<Item>)
        ensures
            r@ == self@.items,
    {
        let mut r: Vec<Item> = Vec::new();
        for i in 0..self.items.len()
            invariant
                r@ == self@.items.take(i as int),
        {
            r.push(self.items[i].duplicate());
            assert(self@.items.take(i + 1) =~= self@.items.take(i as int).push(self@.items[i as int]));
        }
        assert(self@.items.take(self@.items.len() as int) =~= self@.items);
        r
    }

    /// A copy of the locations table.
    fn copy_locations(&self) -> (r: Vec<Location>)
        ensures
            r@ == self@.locations,
    {
        let mut r: Vec<Location> = Vec::new();
        for i in 0..self.locations.len()
            invariant
                r@ == self@.locations.take(i as int),
        {
            r.push(self.locations[i].duplicate());
            assert(self@.locations.take(i + 1) =~= self@.locations.take(i as int).push(self@.locations[i as int]));
        }
        assert(self@.locations.take(self@.locations.len() as int) =~= self@.locations);
        r
    }

    /// A copy of the balances table.
    fn copy_balances(&self) -> (r: Vec<StockBalance>)
        ensures
            r@ == self@.balances,
    {
        let mut r: Vec<StockBalance> = Vec::new();
        for i in 0..self.balances.len()
            invariant
                r@ == self@.balances.take(i as int),
        {
            r.push(self.balances[i].duplicate());
            assert(self@.balances.take(i + 1) =~= self@.balances.take(i as int).push(self@.balances[i as int]));
        }
        assert(self@.balances.take(self@.balances.len() as int) =~= self@.balances);
        r
    }

    /// A copy of the serials table.
    fn copy_serials(&self) -> (r: Vec<SerialRecord>)
        ensures
            r@ == self@.serials,
    {
        let mut r: Vec<SerialRecord> = Vec::new();
        for i in 0..self.serials.len()
            invariant
                r@ == self@.serials.take(i as int),
        {
            r.push(self.serials[i].duplicate());
            assert(self@.serials.take(i + 1) =~= self@.serials.take(i as int).push(self@.serials[i as int]));
        }
        assert(self@.serials.take(self@.serials.len() as int) =~= self@.serials);
        r
    }

    /// A copy of the lots table.
    fn copy_lots(&self) -> (r: Vec<LotRecord>)
        ensures
            r@ == self@.lots,
    {
        let mut r: Vec<LotRecord> = Vec::new();
        for i in 0..self.lots.len()
            invariant
                r@ == self@.lots.take(i as int),
        {
            r.push(self.lots[i].duplicate());
            assert(self@.lots.take(i + 1) =~= self@.lots.take(i as int).push(self@.lots[i as int]));
        }
        assert(self@.lots.take(self@.lots.len() as int) =~= self@.lots);
        r
    }

    /// A copy of the custody table.
    fn copy_custody(&self) -> (r: Vec<CustodyRecord>)
        ensures
            r@ == self@.custody,
    {
        let mut r: Vec<CustodyRecord> = Vec::new();
        for i in 0..self.custody.len()
            invariant
                r@ == self@.custody.take(i as int),
        {
            r.push(self.custody[i].duplicate());
            assert(self@.custody.take(i + 1) =~= self@.custody.take(i as int).push(self@.custody[i as int]));
        }
        assert(self@.custody.take(self@.custody.len() as int) =~= self@.custody);
        r
    }

    /// A copy of the audit log table.
    fn copy_audit_log(&self) -> (r: Vec<AuditEntry>)
        ensures
            r@ == self@.audit_log,
    {
        let mut r: Vec<AuditEntry> = Vec::new();
        for i in 0..self.audit_log.len()
            invariant
                r@ == self@.audit_log.take(i as int),
        {
            r.push(self.audit_log[i].duplicate());
            assert(self@.audit_log.take(i + 1) =~= self@.audit_log.take(i as int).push(self@.audit_log[i as int]));
        }
        assert(self@.audit_log.take(self@.audit_log.len() as int) =~= self@.audit_log);
        r
    }

    /// A copy of the equipment items table.
    fn copy_equipment_items(&self) -> (r: Vec<EquipmentItem>)
        ensures
            r@ == self@.equipment_items,
    {
        let mut r: Vec<EquipmentItem> = Vec::new();
        for i in 0..self.equipment_items.len()
            invariant
                r@ == self@.equipment_items.take(i as int),
        {
            r.push(self.equipment_items[i].duplicate());
            assert(self@.equipment_items.take(i + 1) =~= self@.equipment_items.take(i as int).push(self@.equipment_items[i as int]));
        }
        assert(self@.equipment_items.take(self@.equipment_items.len() as int) =~= self@.equipment_items);
        r
    }

    /// A copy of the equipment variants table.
    fn copy_equipment_variants(&self) -> (r: Vec<EquipmentVariant>)
        ensures
            r@ == self@.equipment_variants,
    {
        let mut r: Vec<EquipmentVariant> = Vec::new();
        for i in 0..self.equipment_variants.len()
            invariant
                r@ == self@.equipment_variants.take(i as int),
        {
            r.push(self.equipment_variants[i].duplicate());
            assert(self@.equipment_variants.take(i + 1) =~= self@.equipment_variants.take(i as int).push(self@.equipment_variants[i as int]));
        }
        assert(self@.equipment_variants.take(self@.equipment_variants.len() as int) =~= self@.equipment_variants);
        r
    }

    /// A copy of the nato references table.
    fn copy_nato_references(&self) -> (r: Vec<NatoReference>)
        ensures
            r@ == self@.nato_references,
    {
        let mut r: Vec<NatoReference> = Vec::new();
        for i in 0..self.nato_references.len()
            invariant
                r@ == self@.nato_references.take(i as int),
        {
            r.push(self.nato_references[i].duplicate());
            assert(self@.nato_references.take(i + 1) =~= self@.nato_references.take(i as int).push(self@.nato_references[i as int]));
        }
        assert(self@.nato_references.take(self@.nato_references.len() as int) =~= self@.nato_references);
        r
    }

    /// A copy of the transactions table.
    fn copy_transactions(&self) -> (r: Vec<Transaction>)
        ensures
            r@.map_values(|x: Transaction| x@) == self@.transactions,
    {
        let mut r: Vec<Transaction> = Vec::new();
        for i in 0..self.transactions.len()
            invariant
                r@.map_values(|x: Transaction| x@) == self@.transactions.take(i as int),
        {
            let ghost before = r@;
            r.push(self.transactions[i].duplicate());
            assert(r@.map_values(|x: Transaction| x@) =~= before.map_values(|x: Transaction| x@).push(self@.transactions[i as int]));
            assert(self@.transactions.take(i + 1) =~= self@.transactions.take(i as int).push(self@.transactions[i as int]));
        }
        assert(self@.transactions.take(self@.transactions.len() as int) =~= self@.transactions);
        r
    }

    /// A store holding the given tables; refused when a balance is below zero.
    pub fn from_tables(t: DatabaseTables) -> (r: crate::error::Result<Database>)
        ensures
            match r {
                Ok(db) => db.wf() && db@ == tables_view(t),
                Err(e) => !balances_nonnegative(t.balances@) && (e matches StoremanError::InvalidInput(m)
                    && m@ == "negative stock balance"@),
            },
    {
        let n = t.balances.len();
        for i in 0..n
            invariant
                n == t.balances@.len(),
                forall|j: int| 0 <= j < i ==> #[trigger] t.balances@[j].quantity >= 0,
        {
            if t.balances[i].quantity < 0 {
                return Err(StoremanError::InvalidInput("negative stock balance".to_string()));
            }
        }
        let db = Database {
            users: t.users,
            items: t.items,
            locations: t.locations,
            balances: t.balances,
            serials: t.serials,
            lots: t.lots,
            custody: t.custody,
            transactions: t.transactions,
            audit_log: t.audit_log,
            equipment_items: t.equipment_items,
            equipment_variants: t.equipment_variants,
            nato_references: t.nato_references,
        };
        Ok(db)
    }

    /// The tables of the store, as copies.
    pub fn to_tables(&self) -> (r: DatabaseTables)
        ensures
            tables_view(r) == self@,
    {
        let mut users: Vec<UserRecord> = Vec::new();
        for i in 0..self.users.len()
            invariant
                users@ == self@.users.take(i as int),
        {
            users.push(self.users[i].duplicate_record());
            assert(self@.users.take(i + 1) =~= self@.users.take(i as int).push(self@.users[i as int]));
        }
        assert(self@.users.take(self@.users.len() as int) =~= self@.users);
        let r = DatabaseTables {
            users,
            items: self.copy_items(),
            locations: self.copy_locations(),
            balances: self.copy_balances(),
            serials: self.copy_serials(),
            lots: self.copy_lots(),
            custody: self.copy_custody(),
            transactions: self.copy_transactions(),
            audit_log: self.copy_audit_log(),
            equipment_items: self.copy_equipment_items(),
            equipment_variants: self.copy_equipment_variants(),
            nato_references: self.copy_nato_references(),
        };
        assert(tables_view(r).transactions =~= self@.transactions);
        r
    }
}

} // verus!

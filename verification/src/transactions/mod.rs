//! The transaction engine: receive, issue, return, transfer, adjust and
//! stocktake. Each checks the user's role, changes stock, records the
//! transaction and appends a sealed entry to the audit log.
use vstd::prelude::*;
use crate::audit::{AuditEntry, AuditLog, chain_tip, entry_sealed};
use crate::db::{Database, DatabaseView, has_audit_entry, refused_by_store};
use crate::error::StoremanError;
use crate::models::item::Item;
use crate::models::transaction::{TransactionType, TransactionView};
use crate::models::user::User;
use crate::ids::new_id;
use crate::clock::current_timestamp;

pub mod adjust;
pub mod issue;
pub mod laws;
pub mod receive;
pub mod returning;
pub mod stocktake;
pub mod transfer;

verus! {

/// The identifiers and the time a transaction is written with: up to two new balance
/// rows, the transaction, a custody or lot record, serial records, and the audit entry.
pub struct Stamp {
    pub first_row_id: u128,
    pub second_row_id: u128,
    pub transaction_id: u128,
    pub record_id: u128,
    pub serial_ids: Vec<u128>,
    pub audit_id: u128,
    pub now: String,
}

impl Stamp {
    /// Fresh random identifiers, `serial_count` of them for serial records, and the
    /// current time.
    pub fn fresh(serial_count: usize) -> (r: Stamp)
        ensures
            r.serial_ids@.len() == serial_count,
    {
        let mut serial_ids: Vec<u128> = Vec::new();
        for i in 0..serial_count
            invariant
                serial_ids@.len() == i,
        {
            serial_ids.push(new_id());
        }
        Stamp {
            first_row_id: new_id(),
            second_row_id: new_id(),
            transaction_id: new_id(),
            record_id: new_id(),
            serial_ids,
            audit_id: new_id(),
            now: current_timestamp(),
        }
    }
}

/// `i` is the position of the first item with the identifier.
pub open spec fn is_first_item(items: Seq<Item>, id: u128, i: int) -> bool {
    0 <= i < items.len() && items[i].id == id && forall|j: int| 0 <= j < i ==> #[trigger] items[j].id != id
}

/// The first item with the identifier.
pub open spec fn item_of(v: DatabaseView, id: u128) -> Item {
    v.items[choose|i: int| is_first_item(v.items, id, i)]
}

/// The message of a transaction on an item that does not exist.
pub open spec fn item_missing(r: std::result::Result<crate::models::transaction::Transaction, StoremanError>) -> bool {
    r matches Err(StoremanError::NotFound(m)) && m@ == "Item not found"@
}

/// The fields of a recorded transaction: the given type, item, locations, quantity,
/// lot, user and texts; no serial numbers unless stated; approved by the user when
/// `self_approved`, by nobody otherwise; stamped with `now`.
pub open spec fn transaction_fields(
    t: TransactionView,
    id: u128,
    ty: TransactionType,
    item: Item,
    from: Option<u128>,
    to: Option<u128>,
    quantity: int,
    user: User,
    self_approved: bool,
    reference: Seq<char>,
    reason: Seq<char>,
    notes: Seq<char>,
    requires_approval: bool,
    approved: bool,
    now: String,
) -> bool {
    &&& t.id == id
    &&& t.transaction_type == ty
    &&& t.item_id == item.id
    &&& t.item_description@ == item.description@
    &&& t.from_location_id == from
    &&& t.to_location_id == to
    &&& t.quantity == quantity
    &&& t.user_id == user.id
    &&& t.user_name@ == user.display_name@
    &&& if self_approved {
        t.approved_by_id == Some(user.id) && (t.approved_by_name matches Some(n) && n@
            == user.display_name@)
    } else {
        t.approved_by_id is None && t.approved_by_name is None
    }
    &&& t.reference@ == reference
    &&& t.reason@ == reason
    &&& t.notes@ == notes
    &&& t.requires_approval == requires_approval
    &&& t.approved == approved
    &&& t.timestamp == now
}

/// The fields of an audit entry written for a transaction.
pub open spec fn audit_fields(
    e: AuditEntry,
    audit_id: u128,
    now: String,
    user: User,
    action: Seq<char>,
    entity_id: u128,
    details: Seq<char>,
    previous: Seq<char>,
) -> bool {
    &&& e.entry_id == audit_id
    &&& e.timestamp@ == now@
    &&& e.user_id == user.id
    &&& e.user_name@ == user.display_name@
    &&& e.action@ == action
    &&& e.entity_type@ == "Transaction"@
    &&& e.entity_id == entity_id
    &&& e.details@ == details
    &&& e.previous_hash@ == previous
    &&& entry_sealed(e)
}

/// The outcome of appending the audit entry of a transaction: refused when its
/// identifier is taken; otherwise one sealed entry chained to the log's tip.
pub open spec fn audit_step(
    old: DatabaseView,
    new: DatabaseView,
    audit_id: u128,
    now: String,
    user: User,
    action: Seq<char>,
    entity_id: u128,
    details: Seq<char>,
    r: std::result::Result<(), StoremanError>,
) -> bool {
    if has_audit_entry(old, audit_id) {
        refused_by_store(r, "UNIQUE constraint failed: audit_log.entry_id"@) && new == old
    } else {
        &&& r is Ok
        &&& new.audit_log.len() == old.audit_log.len() + 1
        &&& new.audit_log.drop_last() == old.audit_log
        &&& audit_fields(new.audit_log.last(), audit_id, now, user, action, entity_id, details,
            chain_tip(old.audit_log))
        &&& new == DatabaseView { audit_log: new.audit_log, ..old }
    }
}

/// Appends the sealed audit entry of a transaction, chained to the log's tip.
pub(crate) fn record_audit(
    db: &mut Database,
    audit_id: u128,
    now: &String,
    user: &User,
    action: &str,
    entity_id: u128,
    details: &str,
) -> (r: crate::error::Result<()>)
    requires
        old(db).wf(),
    ensures
        final(db).wf(),
        audit_step(old(db)@, final(db)@, audit_id, *now, *user, action@, entity_id, details@, r),
{
    let prev = match db.get_last_audit_hash() {
        Ok(h) => h,
        Err(e) => return Err(e),
    };
    let entry = AuditLog::create_entry_at(audit_id, now.as_str(), user.id, user.display_name.as_str(),
        action, "Transaction", entity_id, details, prev.as_str());
    let r = db.save_audit_entry(&entry);
    proof {
        if r is Ok {
            assert(final(db)@.audit_log.last() == entry);
            assert(final(db)@.audit_log.drop_last() =~= old(db)@.audit_log);
        }
    }
    r
}

impl Database {
    /// The first item with the identifier, when there is one.
    pub(crate) fn item_for(&self, id: u128) -> (r: Option<Item>)
        ensures
            match r {
                Some(it) => exists|i: int| is_first_item(self@.items, id, i) && it == self@.items[i]
                    && it == item_of(self@, id),
                None => forall|i: int| 0 <= i < self@.items.len() ==> #[trigger] self@.items[i].id != id,
            },
    {
        match self.find_item(id) {
            Some(i) => {
                proof {
                    assert(is_first_item(self@.items, id, i as int));
                    let k = choose|k: int| is_first_item(self@.items, id, k);
                    assert(is_first_item(self@.items, id, k));
                    if k < i {
                        assert(self@.items[k].id != id);
                    }
                    if k > i {
                        assert(self@.items[i as int].id != id);
                    }
                    assert(k == i);
                }
                Some(self.items[i].duplicate())
            },
            None => None,
        }
    }
}

} // verus!

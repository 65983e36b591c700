//! Returning issued stock: closing its custody record and putting it back in a
//! location.
use vstd::prelude::*;
use crate::auth::rbac::{require_can_transact, refused};
use crate::db::{Database, DatabaseView, has_item, has_active_custody, has_location, has_user, has_transaction,
    balance_of, refused_by_store, foreign_key_failed};
use crate::db::balances::{balance_rows_set, balance_write_refusal};
use crate::db::records::close_custody_outcome;
use crate::error::StoremanError;
use crate::models::balance::{ConditionCode, condition_text};
use crate::models::transaction::{Transaction, TransactionType};
use crate::models::user::{User, role_can_transact};
use crate::text::{int_text, push_int_text};
use crate::transactions::{Stamp, item_of, item_missing, transaction_fields, audit_step, record_audit};

verus! {

/// Which custody record is returned, and where the stock goes back.
pub struct ReturnParams {
    pub custody_id: u128,
    pub item_id: u128,
    pub to_location_id: u128,
    pub quantity: i64,
    pub condition: ConditionCode,
    pub notes: String,
}

/// The audit text of a return.
pub open spec fn return_details(p: ReturnParams, description: Seq<char>) -> Seq<char> {
    "Returned "@ + int_text(p.quantity as int) + " x "@ + description
}

/// The message of a return whose custody record is missing or already closed.
pub open spec fn no_active_custody(r: std::result::Result<Transaction, StoremanError>) -> bool {
    r matches Err(StoremanError::NotFound(m)) && m@ == "Active custody record not found"@
}

/// The outcome of a return: refused for a role that may not transact, an unknown
/// item, or a custody record that is missing or no longer active, with the store
/// unchanged; otherwise the quantity joins the balance at the location (refused as a
/// balance change is), the custody record is closed, and the transaction and audit
/// entry are written, the first refused write ending the return with the earlier
/// writes kept.
pub open spec fn return_outcome(
    old: DatabaseView,
    new: DatabaseView,
    user: User,
    p: ReturnParams,
    s: Stamp,
    r: std::result::Result<Transaction, StoremanError>,
) -> bool {
    let c = condition_text(p.condition);
    if !role_can_transact(user.role) {
        &&& r matches Err(e) && refused(Err(e), user.role, " cannot perform transactions"@)
        &&& new == old
    } else if !has_item(old, p.item_id) {
        item_missing(r) && new == old
    } else if !has_active_custody(old, p.custody_id) {
        no_active_custody(r) && new == old
    } else {
        let item = item_of(old, p.item_id);
        let b = balance_of(old.balances, p.item_id, p.to_location_id, c);
        if b + p.quantity < 0 {
            &&& r == Err::<Transaction, StoremanError>(StoremanError::InsufficientStock {
                available: b as i64,
                requested: (-p.quantity) as i64,
            })
            &&& new == old
        } else if let Some(msg) = balance_write_refusal(old, p.item_id, p.to_location_id, p.condition,
            s.first_row_id) {
            refused_by_store(r, msg) && new == old
        } else {
            let v1 = DatabaseView {
                balances: balance_rows_set(old.balances, p.item_id, p.to_location_id, p.condition,
                    b + p.quantity, s.first_row_id, s.now),
                ..old
            };
            let v2 = DatabaseView { custody: new.custody, ..v1 };
            &&& close_custody_outcome(v1, v2, p.custody_id, s.now)
            &&& if has_transaction(v2, s.transaction_id) {
                refused_by_store(r, "UNIQUE constraint failed: transactions.id"@) && new == v2
            } else if !(has_location(v2, p.to_location_id) && has_user(v2, user.id)) {
                refused_by_store(r, foreign_key_failed()) && new == v2
            } else {
                let v3 = DatabaseView { transactions: new.transactions, ..v2 };
                &&& new.transactions.len() == old.transactions.len() + 1
                &&& new.transactions.drop_last() == old.transactions
                &&& transaction_fields(new.transactions.last(), s.transaction_id,
                    TransactionType::Return, item, None, Some(p.to_location_id), p.quantity as int,
                    user, false, Seq::empty(), Seq::empty(), p.notes@, false, true, s.now)
                &&& new.transactions.last().serial_ids == Seq::<u128>::empty()
                &&& new.transactions.last().lot_id is None
                &&& audit_step(v3, new, s.audit_id, s.now, user, "RETURN"@, s.transaction_id,
                    return_details(p, item.description@), match r {
                        Ok(_) => Ok(()),
                        Err(e) => Err(e),
                    })
                &&& r matches Ok(t) ==> t@ == new.transactions.last()
            }
        }
    }
}

/// The arithmetic of a return stays within 64 bits.
pub open spec fn return_in_range(old: DatabaseView, p: ReturnParams) -> bool {
    &&& p.quantity > i64::MIN
    &&& balance_of(old.balances, p.item_id, p.to_location_id, condition_text(p.condition)) + p.quantity
        <= i64::MAX
}

/// Processes a return with the given identifiers and time.
pub fn process_return_at(db: &mut Database, user: &User, params: ReturnParams, stamp: &Stamp)
    -> (r: crate::error::Result<Transaction>)
    requires
        old(db).wf(),
        role_can_transact(user.role) && has_item(old(db)@, params.item_id) ==> return_in_range(
            old(db)@, params),
    ensures
        final(db).wf(),
        return_outcome(old(db)@, final(db)@, *user, params, *stamp, r),
{
    match require_can_transact(user) {
        Ok(()) => {},
        Err(e) => return Err(e),
    }
    let item = match db.item_for(params.item_id) {
        Some(it) => it,
        None => return Err(StoremanError::NotFound("Item not found".to_string())),
    };
    if !db.active_custody_exists(params.custody_id) {
        return Err(StoremanError::NotFound("Active custody record not found".to_string()));
    }
    match db.upsert_balance_at(params.item_id, params.to_location_id, &params.condition,
        params.quantity, stamp.first_row_id, &stamp.now) {
        Ok(()) => {},
        Err(e) => return Err(e),
    }
    let ghost v1 = db@;
    match db.close_custody_at(params.custody_id, &stamp.now) {
        Ok(()) => {},
        Err(e) => return Err(e),
    }
    let tx = Transaction {
        id: stamp.transaction_id,
        transaction_type: TransactionType::Return,
        item_id: params.item_id,
        item_description: item.description.clone(),
        from_location_id: None,
        to_location_id: Some(params.to_location_id),
        quantity: params.quantity,
        serial_ids: Vec::new(),
        lot_id: None,
        user_id: user.id,
        user_name: user.display_name.clone(),
        approved_by_id: None,
        approved_by_name: None,
        reference: String::new(),
        reason: String::new(),
        notes: params.notes.clone(),
        requires_approval: false,
        approved: true,
        timestamp: stamp.now.clone(),
    };
    let ghost v2 = db@;
    assert(has_item(v2, params.item_id));
    assert(v2 == (DatabaseView { custody: v2.custody, ..v1 }));
    match db.save_transaction(&tx) {
        Ok(()) => {},
        Err(e) => {
            assert(db@ == v2);
            return Err(e);
        },
    }
    let mut details = "Returned ".to_string();
    push_int_text(params.quantity, &mut details);
    details.append(" x ");
    details.append(item.description.as_str());
    let ghost v3 = db@;
    proof {
        assert(v3.transactions.last() == tx@);
        assert(v3.transactions.drop_last() == old(db)@.transactions);
        assert(details@ == return_details(params, item.description@));
    }
    match record_audit(db, stamp.audit_id, &stamp.now, user, "RETURN", stamp.transaction_id,
        details.as_str()) {
        Ok(()) => {},
        Err(e) => {
            assert(db@ == v3);
            return Err(e);
        },
    }
    Ok(tx)
}

/// Processes a return with fresh identifiers and the current time.
pub fn process_return(db: &mut Database, user: &User, params: ReturnParams)
    -> (r: crate::error::Result<Transaction>)
    requires
        old(db).wf(),
        role_can_transact(user.role) && has_item(old(db)@, params.item_id) ==> return_in_range(
            old(db)@, params),
    ensures
        final(db).wf(),
        exists|s: Stamp| #[trigger] return_outcome(old(db)@, final(db)@, *user, params, s, r),
{
    let stamp = Stamp::fresh(0);
    process_return_at(db, user, params, &stamp)
}

} // verus!

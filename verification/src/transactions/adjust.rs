//! Approved inventory adjustments.
use vstd::prelude::*;
use crate::auth::rbac::{require_can_approve, refused};
use crate::db::{Database, DatabaseView, has_item, has_location, has_user, has_transaction,
    balance_of, refused_by_store, foreign_key_failed};
use crate::db::balances::{balance_rows_set, balance_write_refusal};
use crate::error::StoremanError;
use crate::models::balance::{ConditionCode, condition_text};
use crate::models::transaction::{Transaction, TransactionType};
use crate::models::user::{User, role_can_approve};
use crate::text::{int_text, push_int_text};
use crate::transactions::{Stamp, item_of, item_missing, transaction_fields, audit_step, record_audit};

verus! {

/// Which balance to adjust, by how much, and why.
pub struct AdjustParams {
    pub item_id: u128,
    pub location_id: u128,
    pub condition: ConditionCode,
    pub delta: i64,
    pub reason: String,
    pub notes: String,
}

/// The audit text of an adjustment.
pub open spec fn adjust_details(p: AdjustParams, description: Seq<char>) -> Seq<char> {
    "Adjusted "@ + description + " x "@ + condition_text(p.condition) + " by "@ + int_text(p.delta as int)
}

/// The outcome of an adjustment: refused for a role that may not approve or an
/// unknown item; otherwise `delta` is added to the balance (refused as a balance change
/// is), then the transaction, approved by the adjusting user, and the audit entry are
/// written, the first refused write ending the adjustment with the earlier writes kept.
pub open spec fn adjust_outcome(
    old: DatabaseView,
    new: DatabaseView,
    user: User,
    p: AdjustParams,
    s: Stamp,
    r: std::result::Result<Transaction, StoremanError>,
) -> bool {
    let c = condition_text(p.condition);
    if !role_can_approve(user.role) {
        &&& r matches Err(e) && refused(Err(e), user.role, " cannot approve transactions"@)
        &&& new == old
    } else if !has_item(old, p.item_id) {
        item_missing(r) && new == old
    } else {
        let item = item_of(old, p.item_id);
        let b = balance_of(old.balances, p.item_id, p.location_id, c);
        if b + p.delta < 0 {
            &&& r == Err::<Transaction, StoremanError>(StoremanError::InsufficientStock {
                available: b as i64,
                requested: (-p.delta) as i64,
            })
            &&& new == old
        } else if let Some(msg) = balance_write_refusal(old, p.item_id, p.location_id, p.condition,
            s.first_row_id) {
            refused_by_store(r, msg) && new == old
        } else {
            let v1 = DatabaseView {
                balances: balance_rows_set(old.balances, p.item_id, p.location_id, p.condition,
                    b + p.delta, s.first_row_id, s.now),
                ..old
            };
            if has_transaction(v1, s.transaction_id) {
                refused_by_store(r, "UNIQUE constraint failed: transactions.id"@) && new == v1
            } else if !(has_location(v1, p.location_id) && has_user(v1, user.id)) {
                refused_by_store(r, foreign_key_failed()) && new == v1
            } else {
                let v2 = DatabaseView { transactions: new.transactions, ..v1 };
                &&& new.transactions.len() == old.transactions.len() + 1
                &&& new.transactions.drop_last() == old.transactions
                &&& transaction_fields(new.transactions.last(), s.transaction_id,
                    TransactionType::Adjust, item, Some(p.location_id), Some(p.location_id),
                    p.delta as int, user, true, Seq::empty(), p.reason@, p.notes@, true, true, s.now)
                &&& new.transactions.last().serial_ids == Seq::<u128>::empty()
                &&& new.transactions.last().lot_id is None
                &&& audit_step(v2, new, s.audit_id, s.now, user, "ADJUST"@, s.transaction_id,
                    adjust_details(p, item.description@), match r {
                        Ok(_) => Ok(()),
                        Err(e) => Err(e),
                    })
                &&& r matches Ok(t) ==> t@ == new.transactions.last()
            }
        }
    }
}

/// The arithmetic of an adjustment stays within 64 bits.
pub open spec fn adjust_in_range(old: DatabaseView, p: AdjustParams) -> bool {
    &&& p.delta > i64::MIN
    &&& balance_of(old.balances, p.item_id, p.location_id, condition_text(p.condition)) + p.delta
        <= i64::MAX
}

/// Adjusts a balance with the given identifiers and time.
pub fn adjust_at(db: &mut Database, user: &User, params: AdjustParams, stamp: &Stamp)
    -> (r: crate::error::Result<Transaction>)
    requires
        old(db).wf(),
        role_can_approve(user.role) && has_item(old(db)@, params.item_id) ==> adjust_in_range(
            old(db)@, params),
    ensures
        final(db).wf(),
        adjust_outcome(old(db)@, final(db)@, *user, params, *stamp, r),
{
    match require_can_approve(user) {
        Ok(()) => {},
        Err(e) => return Err(e),
    }
    let item = match db.item_for(params.item_id) {
        Some(it) => it,
        None => return Err(StoremanError::NotFound("Item not found".to_string())),
    };
    match db.upsert_balance_at(params.item_id, params.location_id, &params.condition,
        params.delta, stamp.first_row_id, &stamp.now) {
        Ok(()) => {},
        Err(e) => return Err(e),
    }
    let tx = Transaction {
        id: stamp.transaction_id,
        transaction_type: TransactionType::Adjust,
        item_id: params.item_id,
        item_description: item.description.clone(),
        from_location_id: Some(params.location_id),
        to_location_id: Some(params.location_id),
        quantity: params.delta,
        serial_ids: Vec::new(),
        lot_id: None,
        user_id: user.id,
        user_name: user.display_name.clone(),
        approved_by_id: Some(user.id),
        approved_by_name: Some(user.display_name.clone()),
        reference: String::new(),
        reason: params.reason.clone(),
        notes: params.notes.clone(),
        requires_approval: true,
        approved: true,
        timestamp: stamp.now.clone(),
    };
    let ghost v1 = db@;
    assert(has_item(v1, params.item_id));
    match db.save_transaction(&tx) {
        Ok(()) => {},
        Err(e) => {
            assert(db@ == v1);
            return Err(e);
        },
    }
    let mut details = "Adjusted ".to_string();
    details.append(item.description.as_str());
    details.append(" x ");
    details.append(params.condition.to_string().as_str());
    details.append(" by ");
    push_int_text(params.delta, &mut details);
    let ghost v2 = db@;
    proof {
        assert(v2.transactions.last() == tx@);
        assert(v2.transactions.drop_last() == old(db)@.transactions);
        assert(details@ == adjust_details(params, item.description@));
    }
    match record_audit(db, stamp.audit_id, &stamp.now, user, "ADJUST", stamp.transaction_id,
        details.as_str()) {
        Ok(()) => {},
        Err(e) => {
            assert(db@ == v2);
            return Err(e);
        },
    }
    Ok(tx)
}

/// Adjusts a balance with fresh identifiers and the current time.
pub fn adjust(db: &mut Database, user: &User, params: AdjustParams) -> (r: crate::error::Result<Transaction>)
    requires
        old(db).wf(),
        role_can_approve(user.role) && has_item(old(db)@, params.item_id) ==> adjust_in_range(
            old(db)@, params),
    ensures
        final(db).wf(),
        exists|s: Stamp| #[trigger] adjust_outcome(old(db)@, final(db)@, *user, params, s, r),
{
    let stamp = Stamp::fresh(0);
    adjust_at(db, user, params, &stamp)
}

} // verus!

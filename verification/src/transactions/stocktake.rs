//! Stocktake: recording counts against the expected balance, and adjusting the
//! balance to the count.
use vstd::prelude::*;
use crate::auth::rbac::{require_can_transact, refused};
use crate::db::{Database, DatabaseView, has_item, has_location, has_user, has_transaction,
    balance_of, refused_by_store, foreign_key_failed};
use crate::db::balances::{balance_rows_set, balance_write_refusal};
use crate::error::StoremanError;
use crate::models::balance::{ConditionCode, condition_text};
use crate::models::transaction::{Transaction, TransactionType};
use crate::models::user::{User, role_can_transact};
use crate::text::{int_text, push_int_text};
use crate::transactions::{Stamp, item_of, item_missing, transaction_fields, audit_step, record_audit};

verus! {

/// A count of one item at one location in one condition.
pub struct StocktakeCountParams {
    pub item_id: u128,
    pub location_id: u128,
    pub condition: ConditionCode,
    pub counted_qty: i64,
    pub notes: String,
}

/// The balance the count is compared with.
pub open spec fn expected_balance(old: DatabaseView, p: StocktakeCountParams) -> int {
    balance_of(old.balances, p.item_id, p.location_id, condition_text(p.condition))
}

/// The reason recorded with a count.
pub open spec fn count_reason(expected: int, counted: int) -> Seq<char> {
    "Expected: "@ + int_text(expected) + ", Counted: "@ + int_text(counted) + ", Variance: "@
        + int_text(counted - expected)
}

/// The audit text of a count.
pub open spec fn count_details(description: Seq<char>, expected: int, counted: int) -> Seq<char> {
    "Stocktake: "@ + description + " expected="@ + int_text(expected) + " counted="@ + int_text(counted)
        + " variance="@ + int_text(counted - expected)
}

/// The reason recorded with a stocktake adjustment.
pub open spec fn adjustment_reason(variance: int) -> Seq<char> {
    "Stocktake adjustment: variance "@ + int_text(variance)
}

/// The audit text of a stocktake adjustment.
pub open spec fn adjustment_details(description: Seq<char>, variance: int) -> Seq<char> {
    "Stocktake adjust: "@ + description + " variance="@ + int_text(variance)
}

/// The outcome of recording a count: refused for a role that may not transact or an
/// unknown item; otherwise a count transaction is written (awaiting approval exactly
/// when the count differs from the balance) and then its audit entry; no stock changes.
pub open spec fn count_outcome(
    old: DatabaseView,
    new: DatabaseView,
    user: User,
    p: StocktakeCountParams,
    s: Stamp,
    r: std::result::Result<Transaction, StoremanError>,
) -> bool {
    if !role_can_transact(user.role) {
        &&& r matches Err(e) && refused(Err(e), user.role, " cannot perform transactions"@)
        &&& new == old
    } else if !has_item(old, p.item_id) {
        item_missing(r) && new == old
    } else {
        let item = item_of(old, p.item_id);
        let e = expected_balance(old, p);
        let v = p.counted_qty - e;
        if has_transaction(old, s.transaction_id) {
            refused_by_store(r, "UNIQUE constraint failed: transactions.id"@) && new == old
        } else if !(has_location(old, p.location_id) && has_user(old, user.id)) {
            refused_by_store(r, foreign_key_failed()) && new == old
        } else {
            let v1 = DatabaseView { transactions: new.transactions, ..old };
            &&& new.transactions.len() == old.transactions.len() + 1
            &&& new.transactions.drop_last() == old.transactions
            &&& transaction_fields(new.transactions.last(), s.transaction_id,
                TransactionType::StocktakeCount, item, Some(p.location_id), Some(p.location_id),
                p.counted_qty as int, user, false, Seq::empty(), count_reason(e, p.counted_qty as int),
                p.notes@, v != 0, v == 0, s.now)
            &&& new.transactions.last().serial_ids == Seq::<u128>::empty()
            &&& new.transactions.last().lot_id is None
            &&& audit_step(v1, new, s.audit_id, s.now, user, "STOCKTAKE_COUNT"@, s.transaction_id,
                count_details(item.description@, e, p.counted_qty as int), match r {
                    Ok(_) => Ok(()),
                    Err(e) => Err(e),
                })
            &&& r matches Ok(t) ==> t@ == new.transactions.last()
        }
    }
}

/// The outcome of applying a stocktake adjustment: refused for a role that may not
/// transact or an unknown item; otherwise, when the count differs from the balance, the
/// difference is added to the balance (refused as a balance change is), then an
/// adjustment transaction approved by the counting user and its audit entry are
/// written, the first refused write ending the adjustment with the earlier writes kept.
pub open spec fn stocktake_adjust_outcome(
    old: DatabaseView,
    new: DatabaseView,
    user: User,
    p: StocktakeCountParams,
    s: Stamp,
    r: std::result::Result<Transaction, StoremanError>,
) -> bool {
    if !role_can_transact(user.role) {
        &&& r matches Err(e) && refused(Err(e), user.role, " cannot perform transactions"@)
        &&& new == old
    } else if !has_item(old, p.item_id) {
        item_missing(r) && new == old
    } else {
        let item = item_of(old, p.item_id);
        let e = expected_balance(old, p);
        let v = p.counted_qty - e;
        if v != 0 && p.counted_qty < 0 {
            &&& r == Err::<Transaction, StoremanError>(StoremanError::InsufficientStock {
                available: e as i64,
                requested: (-v) as i64,
            })
            &&& new == old
        } else if v != 0 && balance_write_refusal(old, p.item_id, p.location_id, p.condition,
            s.first_row_id) is Some {
            refused_by_store(r, balance_write_refusal(old, p.item_id, p.location_id, p.condition,
                s.first_row_id)->Some_0) && new == old
        } else {
            let v1 = if v != 0 {
                DatabaseView {
                    balances: balance_rows_set(old.balances, p.item_id, p.location_id, p.condition,
                        p.counted_qty as int, s.first_row_id, s.now),
                    ..old
                }
            } else {
                old
            };
            if has_transaction(v1, s.transaction_id) {
                refused_by_store(r, "UNIQUE constraint failed: transactions.id"@) && new == v1
            } else if !(has_location(v1, p.location_id) && has_user(v1, user.id)) {
                refused_by_store(r, foreign_key_failed()) && new == v1
            } else {
                let v2 = DatabaseView { transactions: new.transactions, ..v1 };
                &&& new.transactions.len() == old.transactions.len() + 1
                &&& new.transactions.drop_last() == old.transactions
                &&& transaction_fields(new.transactions.last(), s.transaction_id,
                    TransactionType::StocktakeAdjust, item, Some(p.location_id), Some(p.location_id),
                    v, user, true, Seq::empty(), adjustment_reason(v), p.notes@, true, true, s.now)
                &&& new.transactions.last().serial_ids == Seq::<u128>::empty()
                &&& new.transactions.last().lot_id is None
                &&& audit_step(v2, new, s.audit_id, s.now, user, "STOCKTAKE_ADJUST"@, s.transaction_id,
                    adjustment_details(item.description@, v), match r {
                        Ok(_) => Ok(()),
                        Err(e) => Err(e),
                    })
                &&& r matches Ok(t) ==> t@ == new.transactions.last()
            }
        }
    }
}

/// The variance of a count fits in 64 bits.
pub open spec fn count_in_range(old: DatabaseView, p: StocktakeCountParams) -> bool {
    let v = p.counted_qty - expected_balance(old, p);
    i64::MIN < v <= i64::MAX
}

/// Records a count with the given identifiers and time.
pub fn record_stocktake_count_at(db: &mut Database, user: &User, params: StocktakeCountParams, stamp: &Stamp)
    -> (r: crate::error::Result<Transaction>)
    requires
        old(db).wf(),
        role_can_transact(user.role) && has_item(old(db)@, params.item_id) ==> count_in_range(
            old(db)@, params),
    ensures
        final(db).wf(),
        count_outcome(old(db)@, final(db)@, *user, params, *stamp, r),
{
    match require_can_transact(user) {
        Ok(()) => {},
        Err(e) => return Err(e),
    }
    let item = match db.item_for(params.item_id) {
        Some(it) => it,
        None => return Err(StoremanError::NotFound("Item not found".to_string())),
    };
    let expected = match db.get_balance(params.item_id, params.location_id, &params.condition) {
        Ok(q) => q,
        Err(e) => return Err(e),
    };
    let variance = params.counted_qty - expected;
    let mut reason = "Expected: ".to_string();
    push_int_text(expected, &mut reason);
    reason.append(", Counted: ");
    push_int_text(params.counted_qty, &mut reason);
    reason.append(", Variance: ");
    push_int_text(variance, &mut reason);
    let tx = Transaction {
        id: stamp.transaction_id,
        transaction_type: TransactionType::StocktakeCount,
        item_id: params.item_id,
        item_description: item.description.clone(),
        from_location_id: Some(params.location_id),
        to_location_id: Some(params.location_id),
        quantity: params.counted_qty,
        serial_ids: Vec::new(),
        lot_id: None,
        user_id: user.id,
        user_name: user.display_name.clone(),
        approved_by_id: None,
        approved_by_name: None,
        reference: String::new(),
        reason,
        notes: params.notes.clone(),
        requires_approval: variance != 0,
        approved: variance == 0,
        timestamp: stamp.now.clone(),
    };
    assert(has_item(db@, params.item_id));
    match db.save_transaction(&tx) {
        Ok(()) => {},
        Err(e) => {
            assert(db@ == old(db)@);
            return Err(e);
        },
    }
    let mut details = "Stocktake: ".to_string();
    details.append(item.description.as_str());
    details.append(" expected=");
    push_int_text(expected, &mut details);
    details.append(" counted=");
    push_int_text(params.counted_qty, &mut details);
    details.append(" variance=");
    push_int_text(variance, &mut details);
    let ghost v1 = db@;
    proof {
        assert(v1.transactions.last() == tx@);
        assert(v1.transactions.drop_last() == old(db)@.transactions);
    }
    match record_audit(db, stamp.audit_id, &stamp.now, user, "STOCKTAKE_COUNT", stamp.transaction_id,
        details.as_str()) {
        Ok(()) => {},
        Err(e) => {
            assert(db@ == v1);
            return Err(e);
        },
    }
    Ok(tx)
}

/// Records a count with fresh identifiers and the current time.
pub fn record_stocktake_count(db: &mut Database, user: &User, params: StocktakeCountParams)
    -> (r: crate::error::Result<Transaction>)
    requires
        old(db).wf(),
        role_can_transact(user.role) && has_item(old(db)@, params.item_id) ==> count_in_range(
            old(db)@, params),
    ensures
        final(db).wf(),
        exists|s: Stamp| #[trigger] count_outcome(old(db)@, final(db)@, *user, params, s, r),
{
    let stamp = Stamp::fresh(0);
    record_stocktake_count_at(db, user, params, &stamp)
}

/// Brings the balance to the count, with the given identifiers and time.
pub fn apply_stocktake_adjustment_at(db: &mut Database, user: &User, params: StocktakeCountParams,
    stamp: &Stamp) -> (r: crate::error::Result<Transaction>)
    requires
        old(db).wf(),
        role_can_transact(user.role) && has_item(old(db)@, params.item_id) ==> count_in_range(
            old(db)@, params),
    ensures
        final(db).wf(),
        stocktake_adjust_outcome(old(db)@, final(db)@, *user, params, *stamp, r),
{
    match require_can_transact(user) {
        Ok(()) => {},
        Err(e) => return Err(e),
    }
    let item = match db.item_for(params.item_id) {
        Some(it) => it,
        None => return Err(StoremanError::NotFound("Item not found".to_string())),
    };
    let expected = match db.get_balance(params.item_id, params.location_id, &params.condition) {
        Ok(q) => q,
        Err(e) => return Err(e),
    };
    let variance = params.counted_qty - expected;
    if variance != 0 {
        match db.upsert_balance_at(params.item_id, params.location_id, &params.condition, variance,
            stamp.first_row_id, &stamp.now) {
            Ok(()) => {},
            Err(e) => return Err(e),
        }
    }
    let mut reason = "Stocktake adjustment: variance ".to_string();
    push_int_text(variance, &mut reason);
    let tx = Transaction {
        id: stamp.transaction_id,
        transaction_type: TransactionType::StocktakeAdjust,
        item_id: params.item_id,
        item_description: item.description.clone(),
        from_location_id: Some(params.location_id),
        to_location_id: Some(params.location_id),
        quantity: variance,
        serial_ids: Vec::new(),
        lot_id: None,
        user_id: user.id,
        user_name: user.display_name.clone(),
        approved_by_id: Some(user.id),
        approved_by_name: Some(user.display_name.clone()),
        reference: String::new(),
        reason,
        notes: params.notes.clone(),
        requires_approval: true,
        approved: true,
        timestamp: stamp.now.clone(),
    };
    let ghost v1 = db@;
    assert(has_item(v1, params.item_id));
    match db.save_transaction(&tx) {
        Ok(()) => {},
        Err(e) => {
            assert(db@ == v1);
            return Err(e);
        },
    }
    let mut details = "Stocktake adjust: ".to_string();
    details.append(item.description.as_str());
    details.append(" variance=");
    push_int_text(variance, &mut details);
    let ghost v2 = db@;
    proof {
        assert(v2.transactions.last() == tx@);
        assert(v2.transactions.drop_last() == old(db)@.transactions);
    }
    match record_audit(db, stamp.audit_id, &stamp.now, user, "STOCKTAKE_ADJUST", stamp.transaction_id,
        details.as_str()) {
        Ok(()) => {},
        Err(e) => {
            assert(db@ == v2);
            return Err(e);
        },
    }
    Ok(tx)
}

/// Brings the balance to the count with fresh identifiers and the current time.
pub fn apply_stocktake_adjustment(db: &mut Database, user: &User, params: StocktakeCountParams)
    -> (r: crate::error::Result<Transaction>)
    requires
        old(db).wf(),
        role_can_transact(user.role) && has_item(old(db)@, params.item_id) ==> count_in_range(
            old(db)@, params),
    ensures
        final(db).wf(),
        exists|s: Stamp| #[trigger] stocktake_adjust_outcome(old(db)@, final(db)@, *user, params, s, r),
{
    let stamp = Stamp::fresh(0);
    apply_stocktake_adjustment_at(db, user, params, &stamp)
}

} // verus!

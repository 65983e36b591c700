//! Moving stock from one location to another.
use vstd::prelude::*;
use crate::auth::rbac::{require_can_transact, refused};
use crate::db::{Database, DatabaseView, has_item, has_location, has_user, has_transaction,
    balance_of, refused_by_store, foreign_key_failed};
use crate::db::balances::{balance_rows_set, balance_write_refusal};
use crate::error::StoremanError;
use crate::models::balance::{ConditionCode, condition_text};
use crate::models::transaction::{Transaction, TransactionType};
use crate::models::user::{User, role_can_transact};
use crate::text::{int_text, push_int_text, uuid_text};
use crate::ids::id_text;
use crate::transactions::{Stamp, item_of, item_missing, transaction_fields, audit_step, record_audit};

verus! {

/// What to move, how much, and between which locations.
pub struct TransferParams {
    pub item_id: u128,
    pub from_location_id: u128,
    pub to_location_id: u128,
    pub quantity: i64,
    pub condition: ConditionCode,
    pub notes: String,
}

/// The audit text of a transfer.
pub open spec fn transfer_details(p: TransferParams, description: Seq<char>) -> Seq<char> {
    "Transferred "@ + int_text(p.quantity as int) + " x "@ + description + " from "@
        + uuid_text(p.from_location_id) + " to "@ + uuid_text(p.to_location_id)
}

/// The balance table after the quantity leaves the source location.
pub open spec fn transfer_first_rows(old: DatabaseView, p: TransferParams, s: Stamp) -> Seq<crate::models::balance::StockBalance> {
    let c = condition_text(p.condition);
    balance_rows_set(old.balances, p.item_id, p.from_location_id, p.condition,
        balance_of(old.balances, p.item_id, p.from_location_id, c) - p.quantity, s.first_row_id, s.now)
}

/// The outcome of a transfer: refused for a role that may not transact or an unknown
/// item; otherwise the quantity leaves the source balance and then joins the
/// destination balance (each refused as a balance change is), then the transaction and
/// the audit entry are written, the first refused step ending the transfer with the
/// earlier writes kept.
pub open spec fn transfer_outcome(
    old: DatabaseView,
    new: DatabaseView,
    user: User,
    p: TransferParams,
    s: Stamp,
    r: std::result::Result<Transaction, StoremanError>,
) -> bool {
    let c = condition_text(p.condition);
    if !role_can_transact(user.role) {
        &&& r matches Err(e) && refused(Err(e), user.role, " cannot perform transactions"@)
        &&& new == old
    } else if !has_item(old, p.item_id) {
        item_missing(r) && new == old
    } else {
        let item = item_of(old, p.item_id);
        let bf = balance_of(old.balances, p.item_id, p.from_location_id, c);
        if bf - p.quantity < 0 {
            &&& r == Err::<Transaction, StoremanError>(StoremanError::InsufficientStock {
                available: bf as i64,
                requested: p.quantity,
            })
            &&& new == old
        } else if let Some(msg) = balance_write_refusal(old, p.item_id, p.from_location_id, p.condition,
            s.first_row_id) {
            refused_by_store(r, msg) && new == old
        } else {
            let b1 = transfer_first_rows(old, p, s);
            let v1 = DatabaseView { balances: b1, ..old };
            let bt = balance_of(b1, p.item_id, p.to_location_id, c);
            if bt + p.quantity < 0 {
                &&& r == Err::<Transaction, StoremanError>(StoremanError::InsufficientStock {
                    available: bt as i64,
                    requested: (-p.quantity) as i64,
                })
                &&& new == v1
            } else if let Some(msg) = balance_write_refusal(v1, p.item_id, p.to_location_id, p.condition,
                s.second_row_id) {
                refused_by_store(r, msg) && new == v1
            } else {
                let v2 = DatabaseView {
                    balances: balance_rows_set(b1, p.item_id, p.to_location_id, p.condition,
                        bt + p.quantity, s.second_row_id, s.now),
                    ..old
                };
                if has_transaction(v2, s.transaction_id) {
                    refused_by_store(r, "UNIQUE constraint failed: transactions.id"@) && new == v2
                } else if !(has_location(v2, p.from_location_id) && has_location(v2, p.to_location_id)
                    && has_user(v2, user.id)) {
                    refused_by_store(r, foreign_key_failed()) && new == v2
                } else {
                    let v3 = DatabaseView { transactions: new.transactions, ..v2 };
                    &&& new.transactions.len() == old.transactions.len() + 1
                    &&& new.transactions.drop_last() == old.transactions
                    &&& transaction_fields(new.transactions.last(), s.transaction_id,
                        TransactionType::Transfer, item, Some(p.from_location_id),
                        Some(p.to_location_id), p.quantity as int, user, false, Seq::empty(),
                        Seq::empty(), p.notes@, false, true, s.now)
                    &&& new.transactions.last().serial_ids == Seq::<u128>::empty()
                    &&& new.transactions.last().lot_id is None
                    &&& audit_step(v3, new, s.audit_id, s.now, user, "TRANSFER"@, s.transaction_id,
                        transfer_details(p, item.description@), match r {
                            Ok(_) => Ok(()),
                            Err(e) => Err(e),
                        })
                    &&& r matches Ok(t) ==> t@ == new.transactions.last()
                }
            }
        }
    }
}

/// The arithmetic of a transfer stays within 64 bits.
pub open spec fn transfer_in_range(old: DatabaseView, p: TransferParams) -> bool {
    let c = condition_text(p.condition);
    let bf = balance_of(old.balances, p.item_id, p.from_location_id, c);
    let bt = if p.from_location_id == p.to_location_id {
        bf - p.quantity
    } else {
        balance_of(old.balances, p.item_id, p.to_location_id, c)
    };
    &&& p.quantity > i64::MIN
    &&& bf - p.quantity <= i64::MAX
    &&& bt + p.quantity <= i64::MAX
}

/// Moves stock between locations with the given identifiers and time.
pub fn transfer_at(db: &mut Database, user: &User, params: TransferParams, stamp: &Stamp)
    -> (r: crate::error::Result<Transaction>)
    requires
        old(db).wf(),
        role_can_transact(user.role) && has_item(old(db)@, params.item_id) ==> transfer_in_range(
            old(db)@, params),
    ensures
        final(db).wf(),
        transfer_outcome(old(db)@, final(db)@, *user, params, *stamp, r),
{
    match require_can_transact(user) {
        Ok(()) => {},
        Err(e) => return Err(e),
    }
    let item = match db.item_for(params.item_id) {
        Some(it) => it,
        None => return Err(StoremanError::NotFound("Item not found".to_string())),
    };
    let ghost c = condition_text(params.condition);
    match db.upsert_balance_at(params.item_id, params.from_location_id, &params.condition,
        -params.quantity, stamp.first_row_id, &stamp.now) {
        Ok(()) => {},
        Err(e) => return Err(e),
    }
    let ghost v1 = db@;
    assert(v1.balances == transfer_first_rows(old(db)@, params, *stamp));
    proof {
        crate::db::balances::lemma_balances_stay_nonnegative(v1.balances);
        crate::db::balances::lemma_balance_rows_after(old(db)@.balances, v1.balances, params.item_id,
            params.from_location_id, params.condition,
            balance_of(old(db)@.balances, params.item_id, params.from_location_id, c) - params.quantity,
            stamp.first_row_id, stamp.now);
    }
    match db.upsert_balance_at(params.item_id, params.to_location_id, &params.condition,
        params.quantity, stamp.second_row_id, &stamp.now) {
        Ok(()) => {},
        Err(e) => return Err(e),
    }
    let tx = Transaction {
        id: stamp.transaction_id,
        transaction_type: TransactionType::Transfer,
        item_id: params.item_id,
        item_description: item.description.clone(),
        from_location_id: Some(params.from_location_id),
        to_location_id: Some(params.to_location_id),
        quantity: params.quantity,
        serial_ids: Vec::new(),
        lot_id: None,
        user_id: user.id,
        user_name: user.display_name.clone(),
        approved_by_id: None,
        approved_by_name: None,
        reference: String::new(),
        reason: String::new(),
        notes: params.notes.clone(),
        requires_approval: false,
        approved: true,
        timestamp: stamp.now.clone(),
    };
    let ghost v2 = db@;
    assert(has_item(v2, params.item_id));
    match db.save_transaction(&tx) {
        Ok(()) => {},
        Err(e) => {
            assert(db@ == v2);
            return Err(e);
        },
    }
    let mut details = "Transferred ".to_string();
    push_int_text(params.quantity, &mut details);
    details.append(" x ");
    details.append(item.description.as_str());
    details.append(" from ");
    details.append(id_text(params.from_location_id).as_str());
    details.append(" to ");
    details.append(id_text(params.to_location_id).as_str());
    let ghost v3 = db@;
    proof {
        assert(v3.transactions.last() == tx@);
        assert(v3.transactions.drop_last() == old(db)@.transactions);
        assert(details@ == transfer_details(params, item.description@));
    }
    match record_audit(db, stamp.audit_id, &stamp.now, user, "TRANSFER", stamp.transaction_id,
        details.as_str()) {
        Ok(()) => {},
        Err(e) => {
            assert(db@ == v3);
            return Err(e);
        },
    }
    Ok(tx)
}

/// Moves stock between locations with fresh identifiers and the current time.
pub fn transfer(db: &mut Database, user: &User, params: TransferParams) -> (r: crate::error::Result<Transaction>)
    requires
        old(db).wf(),
        role_can_transact(user.role) && has_item(old(db)@, params.item_id) ==> transfer_in_range(
            old(db)@, params),
    ensures
        final(db).wf(),
        exists|s: Stamp| #[trigger] transfer_outcome(old(db)@, final(db)@, *user, params, s, r),
{
    let stamp = Stamp::fresh(0);
    transfer_at(db, user, params, &stamp)
}

} // verus!

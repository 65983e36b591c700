//! Issuing stock to a custodian.
use vstd::prelude::*;
use crate::auth::rbac::{require_can_transact, refused};
use crate::db::{Database, DatabaseView, has_item, has_location, has_user, has_transaction,
    has_custody, balance_of, refused_by_store, foreign_key_failed};
use crate::db::balances::{balance_rows_after, balance_write_refusal};
use crate::error::StoremanError;
use crate::models::balance::{ConditionCode, condition_text};
use crate::models::custody::{CustodyRecord, CustodyStatus};
use crate::models::transaction::{Transaction, TransactionType};
use crate::models::user::{User, role_can_transact};
use crate::text::{int_text, push_int_text};
use crate::transactions::{Stamp, item_of, item_missing, transaction_fields, audit_step, record_audit};

verus! {

/// What to issue, from where, and to whom.
pub struct IssueParams {
    pub item_id: u128,
    pub from_location_id: u128,
    pub quantity: i64,
    pub condition: ConditionCode,
    pub custodian_name: String,
    pub rank: String,
    pub unit: String,
    pub reference: String,
    pub notes: String,
}

/// The audit text of an issue.
pub open spec fn issue_details(p: IssueParams, description: Seq<char>) -> Seq<char> {
    "Issued "@ + int_text(p.quantity as int) + " x "@ + description + " to "@ + p.rank@ + " "@
        + p.custodian_name@
}

/// The custody record an issue opens: the quantity signed out by the issuing user to
/// the named custodian, active from `now`.
pub open spec fn issue_custody(c: CustodyRecord, p: IssueParams, user: User, s: Stamp) -> bool {
    c == CustodyRecord {
        id: s.record_id,
        item_id: p.item_id,
        serial_id: None,
        lot_id: None,
        custodian_id: user.id,
        custodian_name: p.custodian_name,
        rank: p.rank,
        unit: p.unit,
        quantity: p.quantity,
        issued_at: s.now,
        returned_at: None,
        transaction_id: s.transaction_id,
        status: CustodyStatus::Active,
        notes: p.notes,
    }
}

/// The outcome of an issue: refused for a role that may not transact or an unknown
/// item; otherwise the balance at the location drops by the quantity (refused if it
/// would go below zero), then the transaction, the custody record and the audit entry
/// are written in turn, the first refused write ending the issue with the earlier
/// writes kept.
pub open spec fn issue_outcome(
    old: DatabaseView,
    new: DatabaseView,
    user: User,
    p: IssueParams,
    s: Stamp,
    r: std::result::Result<Transaction, StoremanError>,
) -> bool {
    if !role_can_transact(user.role) {
        &&& r matches Err(e) && refused(Err(e), user.role, " cannot perform transactions"@)
        &&& new == old
    } else if !has_item(old, p.item_id) {
        item_missing(r) && new == old
    } else {
        let item = item_of(old, p.item_id);
        let b = balance_of(old.balances, p.item_id, p.from_location_id, condition_text(p.condition));
        let q = b - p.quantity;
        if q < 0 {
            &&& r == Err::<Transaction, StoremanError>(StoremanError::InsufficientStock {
                available: b as i64,
                requested: p.quantity,
            })
            &&& new == old
        } else if let Some(msg) = balance_write_refusal(old, p.item_id, p.from_location_id, p.condition,
            s.first_row_id) {
            refused_by_store(r, msg) && new == old
        } else {
            let v1 = DatabaseView { balances: new.balances, ..old };
            &&& balance_rows_after(old.balances, new.balances, p.item_id, p.from_location_id,
                p.condition, q, s.first_row_id, s.now)
            &&& if has_transaction(v1, s.transaction_id) {
                refused_by_store(r, "UNIQUE constraint failed: transactions.id"@) && new == v1
            } else if !(has_location(v1, p.from_location_id) && has_user(v1, user.id)) {
                refused_by_store(r, foreign_key_failed()) && new == v1
            } else {
                let v2 = DatabaseView { transactions: new.transactions, ..v1 };
                &&& new.transactions.len() == old.transactions.len() + 1
                &&& new.transactions.drop_last() == old.transactions
                &&& transaction_fields(new.transactions.last(), s.transaction_id,
                    TransactionType::Issue, item, Some(p.from_location_id), None, p.quantity as int,
                    user, false, p.reference@, Seq::empty(), p.notes@, false, true, s.now)
                &&& new.transactions.last().serial_ids == Seq::<u128>::empty()
                &&& new.transactions.last().lot_id is None
                &&& if has_custody(v2, s.record_id) {
                    refused_by_store(r, "UNIQUE constraint failed: custody_records.id"@) && new == v2
                } else {
                    let v3 = DatabaseView { custody: new.custody, ..v2 };
                    &&& new.custody.len() == old.custody.len() + 1
                    &&& new.custody.drop_last() == old.custody
                    &&& issue_custody(new.custody.last(), p, user, s)
                    &&& audit_step(v3, new, s.audit_id, s.now, user, "ISSUE"@, s.transaction_id,
                        issue_details(p, item.description@), match r {
                            Ok(_) => Ok(()),
                            Err(e) => Err(e),
                        })
                    &&& r matches Ok(t) ==> t@ == new.transactions.last()
                }
            }
        }
    }
}

/// Issues stock to a custodian with the given identifiers and time.
pub fn issue_at(db: &mut Database, user: &User, params: IssueParams, stamp: &Stamp)
    -> (r: crate::error::Result<Transaction>)
    requires
        old(db).wf(),
        role_can_transact(user.role) && has_item(old(db)@, params.item_id) ==> params.quantity > i64::MIN
            && balance_of(old(db)@.balances, params.item_id, params.from_location_id,
            condition_text(params.condition)) - params.quantity <= i64::MAX,
    ensures
        final(db).wf(),
        issue_outcome(old(db)@, final(db)@, *user, params, *stamp, r),
{
    match require_can_transact(user) {
        Ok(()) => {},
        Err(e) => return Err(e),
    }
    let item = match db.item_for(params.item_id) {
        Some(it) => it,
        None => return Err(StoremanError::NotFound("Item not found".to_string())),
    };
    let ghost v0 = db@;
    match db.upsert_balance_at(params.item_id, params.from_location_id, &params.condition,
        -params.quantity, stamp.first_row_id, &stamp.now) {
        Ok(()) => {},
        Err(e) => return Err(e),
    }
    let tx = Transaction {
        id: stamp.transaction_id,
        transaction_type: TransactionType::Issue,
        item_id: params.item_id,
        item_description: item.description.clone(),
        from_location_id: Some(params.from_location_id),
        to_location_id: None,
        quantity: params.quantity,
        serial_ids: Vec::new(),
        lot_id: None,
        user_id: user.id,
        user_name: user.display_name.clone(),
        approved_by_id: None,
        approved_by_name: None,
        reference: params.reference.clone(),
        reason: String::new(),
        notes: params.notes.clone(),
        requires_approval: false,
        approved: true,
        timestamp: stamp.now.clone(),
    };
    let ghost v1 = db@;
    assert(has_item(v0, params.item_id));
    assert(v1 == (DatabaseView { balances: v1.balances, ..old(db)@ }));
    match db.save_transaction(&tx) {
        Ok(()) => {},
        Err(e) => {
            assert(has_item(v1, params.item_id));
            assert(db@ == v1);
            assert(crate::db::records::transaction_refs_ok(v1, tx@) == (has_location(v1, params.from_location_id) && has_user(v1, user.id)));
            return Err(e);
        },
    }
    let custody = CustodyRecord {
        id: stamp.record_id,
        item_id: params.item_id,
        serial_id: None,
        lot_id: None,
        custodian_id: user.id,
        custodian_name: params.custodian_name.clone(),
        rank: params.rank.clone(),
        unit: params.unit.clone(),
        quantity: params.quantity,
        issued_at: stamp.now.clone(),
        returned_at: None,
        transaction_id: stamp.transaction_id,
        status: CustodyStatus::Active,
        notes: params.notes.clone(),
    };
    let ghost v2 = db@;
    assert(v2.transactions == v1.transactions.push(tx@));
    assert(has_item(v2, params.item_id));
    assert(has_user(v2, user.id));
    match db.create_custody(&custody) {
        Ok(()) => {},
        Err(e) => {
            assert(db@ == v2);
            let ghost item0 = item_of(old(db)@, params.item_id);
            assert(item == item0);
            assert(db@.transactions.last() == tx@);
            assert(crate::transactions::transaction_fields(db@.transactions.last(), stamp.transaction_id,
                    TransactionType::Issue, item0, Some(params.from_location_id), None, params.quantity as int,
                    *user, false, params.reference@, Seq::empty(), params.notes@, false, true, stamp.now));
            assert(db@.transactions.drop_last() == old(db)@.transactions);
            return Err(e);
        },
    }
    let mut details = "Issued ".to_string();
    push_int_text(params.quantity, &mut details);
    details.append(" x ");
    details.append(item.description.as_str());
    details.append(" to ");
    details.append(params.rank.as_str());
    details.append(" ");
    details.append(params.custodian_name.as_str());
    let ghost v3 = db@;
    assert(v3.custody == v2.custody.push(custody));
    proof {
        let ghost item0 = item_of(old(db)@, params.item_id);
        assert(v3.transactions.last() == tx@);
        assert(crate::transactions::transaction_fields(v3.transactions.last(), stamp.transaction_id,
                TransactionType::Issue, item0, Some(params.from_location_id), None, params.quantity as int,
                *user, false, params.reference@, Seq::empty(), params.notes@, false, true, stamp.now));
        assert(v3.transactions.drop_last() == old(db)@.transactions);
        assert(balance_rows_after(old(db)@.balances, v3.balances, params.item_id, params.from_location_id,
                params.condition, balance_of(old(db)@.balances, params.item_id, params.from_location_id, condition_text(params.condition)) - params.quantity, stamp.first_row_id, stamp.now));
        assert(v3.custody.last() == custody);
        assert(v3.custody.drop_last() == old(db)@.custody);
    }
    assert(details@ == issue_details(params, item.description@));
    match record_audit(db, stamp.audit_id, &stamp.now, user, "ISSUE", stamp.transaction_id, details.as_str()) {
        Ok(()) => {},
        Err(e) => {
            assert(db@ == v3);
            return Err(e);
        },
    }
    proof {
        let n = db@;
        let w1 = DatabaseView { balances: n.balances, ..old(db)@ };
        let w2 = DatabaseView { transactions: n.transactions, ..w1 };
        let w3 = DatabaseView { custody: n.custody, ..w2 };
        assert(w1 == v1);
        assert(w3 == v3);
        assert(n.custody.last() == custody);
        assert(n.transactions.last() == tx@);
        assert(!has_custody(w2, stamp.record_id));
        assert(issue_custody(n.custody.last(), params, *user, *stamp));
        assert(n.custody.drop_last() == old(db)@.custody);
        assert(audit_step(w3, n, stamp.audit_id, stamp.now, *user, "ISSUE"@, stamp.transaction_id,
                        issue_details(params, item.description@), Ok(())));
        assert(!has_transaction(w1, stamp.transaction_id));
        assert(has_location(w1, params.from_location_id) && has_user(w1, user.id));
        let ghost item0 = item_of(old(db)@, params.item_id);
        assert(crate::transactions::transaction_fields(n.transactions.last(), stamp.transaction_id,
                TransactionType::Issue, item0, Some(params.from_location_id), None, params.quantity as int,
                *user, false, params.reference@, Seq::empty(), params.notes@, false, true, stamp.now));
        assert(n.transactions.drop_last() == old(db)@.transactions);
        assert(balance_rows_after(old(db)@.balances, n.balances, params.item_id, params.from_location_id,
                params.condition, balance_of(old(db)@.balances, params.item_id, params.from_location_id, condition_text(params.condition)) - params.quantity, stamp.first_row_id, stamp.now));
    }
    Ok(tx)
}

/// Issues stock to a custodian with fresh identifiers and the current time.
pub fn issue(db: &mut Database, user: &User, params: IssueParams) -> (r: crate::error::Result<Transaction>)
    requires
        old(db).wf(),
        role_can_transact(user.role) && has_item(old(db)@, params.item_id) ==> params.quantity > i64::MIN
            && balance_of(old(db)@.balances, params.item_id, params.from_location_id,
            condition_text(params.condition)) - params.quantity <= i64::MAX,
    ensures
        final(db).wf(),
        exists|s: Stamp| #[trigger] issue_outcome(old(db)@, final(db)@, *user, params, s, r),
{
    let stamp = Stamp::fresh(0);
    issue_at(db, user, params, &stamp)
}

} // verus!

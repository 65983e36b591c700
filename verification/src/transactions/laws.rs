//! What every completed transaction does to the stock and to the audit log, and how
//! transactions compose.
use vstd::prelude::*;
use crate::audit::{chain_linked, lemma_chain_extend};
use crate::db::{DatabaseView, balance_of};
use crate::db::balances::lemma_balance_rows_after;
use crate::models::balance::condition_text;
use crate::models::transaction::{Transaction, TransactionType};
use crate::models::user::{User, role_can_transact, role_can_approve};
use crate::auth::rbac::refused;
use crate::error::StoremanError;
use crate::models::custody::CustodyStatus;
use crate::db::has_active_custody;
use crate::transactions::{Stamp, audit_step};
use crate::transactions::adjust::{AdjustParams, adjust_outcome, adjust_in_range};
use crate::transactions::issue::{IssueParams, issue_outcome};
use crate::transactions::receive::{ReceiveParams, receive_outcome};
use crate::transactions::returning::{ReturnParams, return_outcome, return_in_range};
use crate::transactions::stocktake::{StocktakeCountParams, count_outcome, stocktake_adjust_outcome};
use crate::transactions::transfer::{TransferParams, transfer_outcome, transfer_in_range, transfer_first_rows};
use crate::transactions::stocktake::{count_in_range, expected_balance};

verus! {

/// Every balance of `new` is that of `old`, but for the key (`item`, `location`,
/// condition text `c`), whose balance moved by `delta`.
pub open spec fn balances_moved(old: DatabaseView, new: DatabaseView, item: u128, location: u128,
    c: Seq<char>, delta: int) -> bool {
    forall|i: u128, l: u128, k: Seq<char>|
        #[trigger] balance_of(new.balances, i, l, k) == balance_of(old.balances, i, l, k) + if i
            == item && l == location && k == c {
            delta
        } else {
            0
        }
}

/// A completed transaction appends exactly one transaction, `t`, and one audit entry,
/// and a linked audit log stays linked.
pub open spec fn recorded(old: DatabaseView, new: DatabaseView, t: Transaction) -> bool {
    &&& new.transactions == old.transactions.push(t@)
    &&& new.audit_log.len() == old.audit_log.len() + 1
    &&& new.audit_log.drop_last() == old.audit_log
    &&& chain_linked(old.audit_log) ==> chain_linked(new.audit_log)
}

/// An audit step that succeeded appended one sealed entry chained to the old tip.
proof fn lemma_audit_appended(
    v: DatabaseView,
    new: DatabaseView,
    audit_id: u128,
    now: String,
    user: User,
    action: Seq<char>,
    entity_id: u128,
    details: Seq<char>,
)
    requires
        audit_step(v, new, audit_id, now, user, action, entity_id, details, Ok(())),
    ensures
        new.audit_log.len() == v.audit_log.len() + 1,
        new.audit_log.drop_last() == v.audit_log,
        new.transactions == v.transactions,
        new.balances == v.balances,
        chain_linked(v.audit_log) ==> chain_linked(new.audit_log),
{
    if chain_linked(v.audit_log) {
        let e = new.audit_log.last();
        lemma_chain_extend(v.audit_log, e);
        assert(new.audit_log == v.audit_log.push(e));
    }
}

/// A completed receipt raises the balance of its item, location and condition by the
/// quantity, leaves every other balance as it was, and records one transaction and one
/// chained audit entry.
pub proof fn law_receive_adds_stock(old: DatabaseView, new: DatabaseView, user: User, p: ReceiveParams,
    s: Stamp, t: Transaction)
    requires
        receive_outcome(old, new, user, p, s, Ok(t)),
        balance_of(old.balances, p.item_id, p.to_location_id, condition_text(p.condition))
            + p.quantity <= i64::MAX,
    ensures
        balances_moved(old, new, p.item_id, p.to_location_id, condition_text(p.condition),
            p.quantity as int),
        recorded(old, new, t),
        t.transaction_type == TransactionType::Receive,
{
    let b = balance_of(old.balances, p.item_id, p.to_location_id, condition_text(p.condition));
    lemma_balance_rows_after(old.balances, new.balances, p.item_id, p.to_location_id, p.condition,
        b + p.quantity, s.first_row_id, s.now);
    let n = new;
    let v = DatabaseView { transactions: n.transactions, audit_log: old.audit_log, ..n };
    lemma_audit_appended(v, n, s.audit_id, s.now, user, "RECEIVE"@, s.transaction_id,
        crate::transactions::receive::receive_details(p, crate::transactions::item_of(old, p.item_id).description@));
    assert(n.transactions == old.transactions.push(t@));
}

/// A completed issue lowers the balance of its item, location and condition by the
/// quantity, leaves every other balance as it was, and records one transaction and one
/// chained audit entry.
pub proof fn law_issue_removes_stock(old: DatabaseView, new: DatabaseView, user: User, p: IssueParams,
    s: Stamp, t: Transaction)
    requires
        issue_outcome(old, new, user, p, s, Ok(t)),
        balance_of(old.balances, p.item_id, p.from_location_id, condition_text(p.condition))
            - p.quantity <= i64::MAX,
    ensures
        balances_moved(old, new, p.item_id, p.from_location_id, condition_text(p.condition),
            -p.quantity),
        recorded(old, new, t),
        t.transaction_type == TransactionType::Issue,
{
    let b = balance_of(old.balances, p.item_id, p.from_location_id, condition_text(p.condition));
    lemma_balance_rows_after(old.balances, new.balances, p.item_id, p.from_location_id, p.condition,
        b - p.quantity, s.first_row_id, s.now);
    let n = new;
    let v = DatabaseView { transactions: n.transactions, audit_log: old.audit_log, ..n };
    lemma_audit_appended(v, n, s.audit_id, s.now, user, "ISSUE"@, s.transaction_id,
        crate::transactions::issue::issue_details(p, crate::transactions::item_of(old, p.item_id).description@));
    assert(n.transactions == old.transactions.push(t@));
}

/// A completed return raises the balance of its item, location and condition by the
/// quantity, leaves every other balance as it was, and records one transaction and one
/// chained audit entry.
pub proof fn law_return_adds_stock(old: DatabaseView, new: DatabaseView, user: User, p: ReturnParams,
    s: Stamp, t: Transaction)
    requires
        return_outcome(old, new, user, p, s, Ok(t)),
        return_in_range(old, p),
    ensures
        balances_moved(old, new, p.item_id, p.to_location_id, condition_text(p.condition),
            p.quantity as int),
        recorded(old, new, t),
        t.transaction_type == TransactionType::Return,
{
    let b = balance_of(old.balances, p.item_id, p.to_location_id, condition_text(p.condition));
    lemma_balance_rows_after(old.balances, new.balances, p.item_id, p.to_location_id, p.condition,
        b + p.quantity, s.first_row_id, s.now);
    let n = new;
    let v = DatabaseView { transactions: n.transactions, audit_log: old.audit_log, ..n };
    lemma_audit_appended(v, n, s.audit_id, s.now, user, "RETURN"@, s.transaction_id,
        crate::transactions::returning::return_details(p, crate::transactions::item_of(old, p.item_id).description@));
    assert(n.transactions == old.transactions.push(t@));
}

/// A completed adjustment moves the balance of its item, location and condition by the
/// delta, leaves every other balance as it was, and records one transaction and one
/// chained audit entry.
pub proof fn law_adjust_moves_stock(old: DatabaseView, new: DatabaseView, user: User, p: AdjustParams,
    s: Stamp, t: Transaction)
    requires
        adjust_outcome(old, new, user, p, s, Ok(t)),
        adjust_in_range(old, p),
    ensures
        balances_moved(old, new, p.item_id, p.location_id, condition_text(p.condition), p.delta as int),
        recorded(old, new, t),
        t.transaction_type == TransactionType::Adjust,
{
    let b = balance_of(old.balances, p.item_id, p.location_id, condition_text(p.condition));
    lemma_balance_rows_after(old.balances, new.balances, p.item_id, p.location_id, p.condition,
        b + p.delta, s.first_row_id, s.now);
    let n = new;
    let v = DatabaseView { transactions: n.transactions, audit_log: old.audit_log, ..n };
    lemma_audit_appended(v, n, s.audit_id, s.now, user, "ADJUST"@, s.transaction_id,
        crate::transactions::adjust::adjust_details(p, crate::transactions::item_of(old, p.item_id).description@));
    assert(n.transactions == old.transactions.push(t@));
}

/// Every balance of `new` is that of `old`, but that `q` left the key (`item`,
/// `from`, `c`) and joined the key (`item`, `to`, `c`).
pub open spec fn balances_transferred(old: DatabaseView, new: DatabaseView, item: u128, from: u128,
    to: u128, c: Seq<char>, q: int) -> bool {
    forall|i: u128, l: u128, k: Seq<char>|
        #[trigger] balance_of(new.balances, i, l, k) == balance_of(old.balances, i, l, k) - (if i
            == item && l == from && k == c {
            q
        } else {
            0
        }) + (if i == item && l == to && k == c {
            q
        } else {
            0
        })
}

/// A completed transfer takes the quantity from the source balance and adds it to the
/// destination balance of the same item and condition, leaves every other balance as it
/// was (so the item's total stock is unchanged), and records one transaction and one
/// chained audit entry.
pub proof fn law_transfer_moves_stock(old: DatabaseView, new: DatabaseView, user: User, p: TransferParams,
    s: Stamp, t: Transaction)
    requires
        transfer_outcome(old, new, user, p, s, Ok(t)),
        transfer_in_range(old, p),
    ensures
        balances_transferred(old, new, p.item_id, p.from_location_id, p.to_location_id,
            condition_text(p.condition), p.quantity as int),
        recorded(old, new, t),
        t.transaction_type == TransactionType::Transfer,
{
    let c = condition_text(p.condition);
    let bf = balance_of(old.balances, p.item_id, p.from_location_id, c);
    let b1 = transfer_first_rows(old, p, s);
    lemma_balance_rows_after(old.balances, b1, p.item_id, p.from_location_id, p.condition,
        bf - p.quantity, s.first_row_id, s.now);
    let bt = balance_of(b1, p.item_id, p.to_location_id, c);
    lemma_balance_rows_after(b1, new.balances, p.item_id, p.to_location_id, p.condition,
        bt + p.quantity, s.second_row_id, s.now);
    let n = new;
    let v = DatabaseView { transactions: n.transactions, audit_log: old.audit_log, ..n };
    lemma_audit_appended(v, n, s.audit_id, s.now, user, "TRANSFER"@, s.transaction_id,
        crate::transactions::transfer::transfer_details(p, crate::transactions::item_of(old, p.item_id).description@));
    assert(n.transactions == old.transactions.push(t@));
}

/// Recording a count changes no balance; the count awaits approval exactly when it
/// differs from the balance, and is approved exactly when it matches; one transaction
/// and one chained audit entry are recorded.
pub proof fn law_count_changes_no_stock(old: DatabaseView, new: DatabaseView, user: User,
    p: StocktakeCountParams, s: Stamp, t: Transaction)
    requires
        count_outcome(old, new, user, p, s, Ok(t)),
    ensures
        new.balances == old.balances,
        t.requires_approval == (p.counted_qty != expected_balance(old, p)),
        t.approved == (p.counted_qty == expected_balance(old, p)),
        recorded(old, new, t),
        t.transaction_type == TransactionType::StocktakeCount,
{
    let n = new;
    let v = DatabaseView { transactions: n.transactions, audit_log: old.audit_log, ..n };
    let e = expected_balance(old, p);
    lemma_audit_appended(v, n, s.audit_id, s.now, user, "STOCKTAKE_COUNT"@, s.transaction_id,
        crate::transactions::stocktake::count_details(crate::transactions::item_of(old, p.item_id).description@,
        e, p.counted_qty as int));
    assert(n.transactions == old.transactions.push(t@));
}

/// A completed stocktake adjustment makes the balance of its item, location and
/// condition equal to the count, leaves every other balance as it was, and records one
/// transaction (whose quantity is the variance) and one chained audit entry.
pub proof fn law_stocktake_adjust_sets_count(old: DatabaseView, new: DatabaseView, user: User,
    p: StocktakeCountParams, s: Stamp, t: Transaction)
    requires
        stocktake_adjust_outcome(old, new, user, p, s, Ok(t)),
        count_in_range(old, p),
    ensures
        balance_of(new.balances, p.item_id, p.location_id, condition_text(p.condition)) == p.counted_qty,
        balances_moved(old, new, p.item_id, p.location_id, condition_text(p.condition),
            p.counted_qty - expected_balance(old, p)),
        t.quantity == p.counted_qty - expected_balance(old, p),
        recorded(old, new, t),
        t.transaction_type == TransactionType::StocktakeAdjust,
{
    let e = expected_balance(old, p);
    let v = p.counted_qty - e;
    if v != 0 {
        lemma_balance_rows_after(old.balances, new.balances, p.item_id, p.location_id, p.condition,
            p.counted_qty as int, s.first_row_id, s.now);
    }
    let n = new;
    let w = DatabaseView { transactions: n.transactions, audit_log: old.audit_log, ..n };
    lemma_audit_appended(w, n, s.audit_id, s.now, user, "STOCKTAKE_ADJUST"@, s.transaction_id,
        crate::transactions::stocktake::adjustment_details(crate::transactions::item_of(old, p.item_id).description@,
        v));
    assert(n.transactions == old.transactions.push(t@));
}

/// A second stocktake adjustment with the same count changes no balance: its variance
/// is zero, and every balance stays as the first adjustment left it.
pub proof fn law_stocktake_adjust_idempotent(
    a: DatabaseView,
    b: DatabaseView,
    c: DatabaseView,
    u1: User,
    u2: User,
    p: StocktakeCountParams,
    s1: Stamp,
    s2: Stamp,
    t1: Transaction,
    t2: Transaction,
)
    requires
        stocktake_adjust_outcome(a, b, u1, p, s1, Ok(t1)),
        count_in_range(a, p),
        stocktake_adjust_outcome(b, c, u2, p, s2, Ok(t2)),
    ensures
        t2.quantity == 0,
        forall|i: u128, l: u128, k: Seq<char>|
            #[trigger] balance_of(c.balances, i, l, k) == balance_of(b.balances, i, l, k),
{
    law_stocktake_adjust_sets_count(a, b, u1, p, s1, t1);
    assert(expected_balance(b, p) == p.counted_qty);
    law_stocktake_adjust_sets_count(b, c, u2, p, s2, t2);
}

/// Issuing what was just received, from the same location and in the same condition,
/// leaves every balance as it was before the receipt.
pub proof fn law_issue_undoes_receive(
    a: DatabaseView,
    b: DatabaseView,
    c: DatabaseView,
    receiver: User,
    pr: ReceiveParams,
    sr: Stamp,
    tr: Transaction,
    issuer: User,
    pi: IssueParams,
    si: Stamp,
    ti: Transaction,
)
    requires
        receive_outcome(a, b, receiver, pr, sr, Ok(tr)),
        balance_of(a.balances, pr.item_id, pr.to_location_id, condition_text(pr.condition))
            + pr.quantity <= i64::MAX,
        issue_outcome(b, c, issuer, pi, si, Ok(ti)),
        pi.item_id == pr.item_id,
        pi.from_location_id == pr.to_location_id,
        pi.condition == pr.condition,
        pi.quantity == pr.quantity,
    ensures
        forall|i: u128, l: u128, k: Seq<char>|
            #[trigger] balance_of(c.balances, i, l, k) == balance_of(a.balances, i, l, k),
{
    law_receive_adds_stock(a, b, receiver, pr, sr, tr);
    let key = condition_text(pr.condition);
    assert(balance_of(b.balances, pr.item_id, pr.to_location_id, key) == balance_of(a.balances,
        pr.item_id, pr.to_location_id, key) + pr.quantity);
    law_issue_removes_stock(b, c, issuer, pi, si, ti);
    assert forall|i: u128, l: u128, k: Seq<char>|
        #[trigger] balance_of(c.balances, i, l, k) == balance_of(a.balances, i, l, k) by {
        assert(balance_of(c.balances, i, l, k) == balance_of(b.balances, i, l, k) - (if i == pi.item_id
            && l == pi.from_location_id && k == key {
            pi.quantity as int
        } else {
            0
        }));
        assert(balance_of(b.balances, i, l, k) == balance_of(a.balances, i, l, k) + (if i == pr.item_id
            && l == pr.to_location_id && k == key {
            pr.quantity as int
        } else {
            0
        }));
    }
}

/// Returning what was just issued, to the same location and in the same condition,
/// leaves every balance as it was before the issue.
pub proof fn law_return_undoes_issue(
    a: DatabaseView,
    b: DatabaseView,
    c: DatabaseView,
    issuer: User,
    pi: IssueParams,
    si: Stamp,
    ti: Transaction,
    returner: User,
    pr: ReturnParams,
    sr: Stamp,
    tr: Transaction,
)
    requires
        issue_outcome(a, b, issuer, pi, si, Ok(ti)),
        balance_of(a.balances, pi.item_id, pi.from_location_id, condition_text(pi.condition))
            - pi.quantity <= i64::MAX,
        return_outcome(b, c, returner, pr, sr, Ok(tr)),
        return_in_range(b, pr),
        pr.item_id == pi.item_id,
        pr.to_location_id == pi.from_location_id,
        pr.condition == pi.condition,
        pr.quantity == pi.quantity,
    ensures
        forall|i: u128, l: u128, k: Seq<char>|
            #[trigger] balance_of(c.balances, i, l, k) == balance_of(a.balances, i, l, k),
{
    law_issue_removes_stock(a, b, issuer, pi, si, ti);
    law_return_adds_stock(b, c, returner, pr, sr, tr);
    let key = condition_text(pi.condition);
    assert forall|i: u128, l: u128, k: Seq<char>|
        #[trigger] balance_of(c.balances, i, l, k) == balance_of(a.balances, i, l, k) by {
        assert(balance_of(c.balances, i, l, k) == balance_of(b.balances, i, l, k) + (if i == pr.item_id
            && l == pr.to_location_id && k == key {
            pr.quantity as int
        } else {
            0
        }));
        assert(balance_of(b.balances, i, l, k) == balance_of(a.balances, i, l, k) - (if i == pi.item_id
            && l == pi.from_location_id && k == key {
            pi.quantity as int
        } else {
            0
        }));
    }
}

/// Transferring the same quantity back, between the same locations in the other
/// direction, leaves every balance as it was before the first transfer.
pub proof fn law_transfer_back_restores(
    a: DatabaseView,
    b: DatabaseView,
    c: DatabaseView,
    u1: User,
    p1: TransferParams,
    s1: Stamp,
    t1: Transaction,
    u2: User,
    p2: TransferParams,
    s2: Stamp,
    t2: Transaction,
)
    requires
        transfer_outcome(a, b, u1, p1, s1, Ok(t1)),
        transfer_in_range(a, p1),
        transfer_outcome(b, c, u2, p2, s2, Ok(t2)),
        transfer_in_range(b, p2),
        p2.item_id == p1.item_id,
        p2.from_location_id == p1.to_location_id,
        p2.to_location_id == p1.from_location_id,
        p2.condition == p1.condition,
        p2.quantity == p1.quantity,
    ensures
        forall|i: u128, l: u128, k: Seq<char>|
            #[trigger] balance_of(c.balances, i, l, k) == balance_of(a.balances, i, l, k),
{
    law_transfer_moves_stock(a, b, u1, p1, s1, t1);
    law_transfer_moves_stock(b, c, u2, p2, s2, t2);
    let key = condition_text(p1.condition);
    assert forall|i: u128, l: u128, k: Seq<char>|
        #[trigger] balance_of(c.balances, i, l, k) == balance_of(a.balances, i, l, k) by {
        let m1 = i == p1.item_id && l == p1.from_location_id && k == key;
        let m2 = i == p1.item_id && l == p1.to_location_id && k == key;
        assert(balance_of(b.balances, i, l, k) == balance_of(a.balances, i, l, k) - (if m1 {
            p1.quantity as int
        } else {
            0
        }) + (if m2 {
            p1.quantity as int
        } else {
            0
        }));
        assert(balance_of(c.balances, i, l, k) == balance_of(b.balances, i, l, k) - (if m2 {
            p1.quantity as int
        } else {
            0
        }) + (if m1 {
            p1.quantity as int
        } else {
            0
        }));
    }
}

/// The request was refused as outside the user's role, with a message naming the role
/// and the reason, and the store is as it was.
pub open spec fn refused_unchanged(
    old: DatabaseView,
    new: DatabaseView,
    r: std::result::Result<Transaction, StoremanError>,
    user: User,
    reason: Seq<char>,
) -> bool {
    &&& r matches Err(e) && refused(Err(e), user.role, reason)
    &&& new == old
}

/// A user whose role cannot perform transactions is refused, with the store left as it
/// was, by a receipt, an issue, a return, a transfer, a count and a stocktake
/// adjustment, whatever they ask for.
pub proof fn law_no_transact_role_changes_nothing(
    old: DatabaseView,
    user: User,
    rp: ReceiveParams, rs: Stamp, rn: DatabaseView, rr: std::result::Result<Transaction, StoremanError>,
    ip: IssueParams, iss: Stamp, inew: DatabaseView, ir: std::result::Result<Transaction, StoremanError>,
    up: ReturnParams, us: Stamp, un: DatabaseView, ur: std::result::Result<Transaction, StoremanError>,
    tp: TransferParams, ts: Stamp, tn: DatabaseView, tr: std::result::Result<Transaction, StoremanError>,
    cp: StocktakeCountParams, cs: Stamp, cn: DatabaseView, cr: std::result::Result<Transaction, StoremanError>,
    ap: StocktakeCountParams, as_: Stamp, an: DatabaseView, ar: std::result::Result<Transaction, StoremanError>,
)
    requires
        !role_can_transact(user.role),
        receive_outcome(old, rn, user, rp, rs, rr),
        issue_outcome(old, inew, user, ip, iss, ir),
        return_outcome(old, un, user, up, us, ur),
        transfer_outcome(old, tn, user, tp, ts, tr),
        count_outcome(old, cn, user, cp, cs, cr),
        stocktake_adjust_outcome(old, an, user, ap, as_, ar),
    ensures
        refused_unchanged(old, rn, rr, user, " cannot perform transactions"@),
        refused_unchanged(old, inew, ir, user, " cannot perform transactions"@),
        refused_unchanged(old, un, ur, user, " cannot perform transactions"@),
        refused_unchanged(old, tn, tr, user, " cannot perform transactions"@),
        refused_unchanged(old, cn, cr, user, " cannot perform transactions"@),
        refused_unchanged(old, an, ar, user, " cannot perform transactions"@),
{
}

/// A user whose role cannot approve is refused an adjustment, with the store left as
/// it was.
pub proof fn law_no_approve_role_cannot_adjust(
    old: DatabaseView,
    new: DatabaseView,
    user: User,
    p: AdjustParams,
    s: Stamp,
    r: std::result::Result<Transaction, StoremanError>,
)
    requires
        !role_can_approve(user.role),
        adjust_outcome(old, new, user, p, s, r),
    ensures
        refused_unchanged(old, new, r, user, " cannot approve transactions"@),
{
}

/// A completed issue opens one custody record, active and not returned, for the item
/// and quantity issued, to the named custodian, tied to the issue's transaction; the
/// earlier custody records stay as they were.
pub proof fn law_issue_opens_custody(old: DatabaseView, new: DatabaseView, user: User, p: IssueParams,
    s: Stamp, t: Transaction)
    requires
        issue_outcome(old, new, user, p, s, Ok(t)),
    ensures
        new.custody.len() == old.custody.len() + 1,
        new.custody.drop_last() == old.custody,
        new.custody.last().status == CustodyStatus::Active,
        new.custody.last().returned_at is None,
        new.custody.last().item_id == p.item_id,
        new.custody.last().quantity == p.quantity,
        new.custody.last().custodian_name@ == p.custodian_name@,
        new.custody.last().transaction_id == t.id,
        has_active_custody(new, new.custody.last().id),
{
    assert(new.custody[new.custody.len() - 1] == new.custody.last());
}

/// The first refused serial position is never past the serial numbers.
proof fn lemma_first_serial_refusal_bound(v: DatabaseView, p: ReceiveParams, s: Stamp, k: int)
    requires
        0 <= k,
    ensures
        crate::transactions::receive::first_serial_refusal(v, p, s, k) <= p.serial_numbers@.len(),
    decreases p.serial_numbers@.len() - k,
{
    if k < p.serial_numbers@.len() {
        lemma_first_serial_refusal_bound(v, p, s, k + 1);
    }
}

/// A completed receipt records its lot and serials: with a lot number, one new active
/// lot of that number, quantity and expiry at the location, which the transaction
/// names; without one, no lot and none named. Each serial number gets one new active
/// serial record at the location, in order, and the transaction lists their
/// identifiers, one per serial number.
pub proof fn law_receive_records_lot_and_serials(old: DatabaseView, new: DatabaseView, user: User,
    p: ReceiveParams, s: Stamp, t: Transaction)
    requires
        receive_outcome(old, new, user, p, s, Ok(t)),
        s.serial_ids@.len() == p.serial_numbers@.len(),
    ensures
        p.lot_number is None ==> new.lots == old.lots && t.lot_id is None,
        p.lot_number is Some ==> {
            &&& new.lots.len() == old.lots.len() + 1
            &&& new.lots.drop_last() == old.lots
            &&& new.lots.last().lot_number@ == p.lot_number->Some_0@
            &&& new.lots.last().quantity == p.quantity
            &&& new.lots.last().expiry_date == p.expiry_date
            &&& new.lots.last().location_id == Some(p.to_location_id)
            &&& new.lots.last().active
            &&& t.lot_id == Some(new.lots.last().id)
        },
        new.serials.len() == old.serials.len() + p.serial_numbers@.len(),
        new.serials.take(old.serials.len() as int) == old.serials,
        forall|k: int| 0 <= k < p.serial_numbers@.len() ==> {
            let rec = #[trigger] new.serials[old.serials.len() + k];
            &&& rec.serial_number == p.serial_numbers@[k]
            &&& rec.item_id == p.item_id
            &&& rec.location_id == Some(p.to_location_id)
            &&& rec.active
            &&& rec.id == t.serial_ids@[k]
        },
        t.serial_ids@.len() == p.serial_numbers@.len(),
{
    let v1 = DatabaseView { lots: new.lots, ..old };
    let m = crate::transactions::receive::first_serial_refusal(v1, p, s, 0);
    lemma_first_serial_refusal_bound(v1, p, s, 0);
    assert(m >= p.serial_numbers@.len());
    assert forall|k: int| 0 <= k < p.serial_numbers@.len() implies {
        let rec = #[trigger] new.serials[old.serials.len() + k];
        &&& rec.serial_number == p.serial_numbers@[k]
        &&& rec.item_id == p.item_id
        &&& rec.location_id == Some(p.to_location_id)
        &&& rec.active
        &&& rec.id == t.serial_ids@[k]
    } by {
        let i = old.serials.len() + k;
        assert(crate::transactions::receive::received_serial(new.serials[i], p, s, i - old.serials.len()));
    }
}

} // verus!

//! Receiving stock into a location, with an optional lot and serial numbers.
use vstd::prelude::*;
use crate::auth::rbac::{require_can_transact, refused};
use crate::db::{Database, DatabaseView, has_item, has_location, has_user, has_lot, has_serial,
    has_transaction, balance_of, refused_by_store, foreign_key_failed};
use crate::db::balances::{balance_rows_after, balance_write_refusal};
use crate::error::StoremanError;
use crate::ids::id_text;
use crate::models::balance::{ConditionCode, condition_text, normalized_condition};
use crate::models::lot::LotRecord;
use crate::models::serial::SerialRecord;
use crate::models::transaction::{Transaction, TransactionType, dup_ids};
use crate::models::user::{User, role_can_transact};
use crate::text::{int_text, push_int_text, uuid_text};
use crate::transactions::{Stamp, item_of, item_missing, transaction_fields, audit_step, record_audit};

verus! {

/// What to receive, and where.
pub struct ReceiveParams {
    pub item_id: u128,
    pub to_location_id: u128,
    pub quantity: i64,
    pub condition: ConditionCode,
    pub lot_number: Option<String>,
    pub expiry_date: Option<i32>,
    pub serial_numbers: Vec<String>,
    pub reference: String,
    pub notes: String,
}

/// The audit text of a receipt.
pub open spec fn receive_details(p: ReceiveParams, description: Seq<char>) -> Seq<char> {
    "Received "@ + int_text(p.quantity as int) + " x "@ + description + " to "@ + uuid_text(
        p.to_location_id,
    )
}

/// The lot a receipt opens when it names a lot number.
pub open spec fn received_lot(l: LotRecord, p: ReceiveParams, s: Stamp, number: String) -> bool {
    l == LotRecord {
        id: s.record_id,
        item_id: p.item_id,
        lot_number: number,
        expiry_date: p.expiry_date,
        quantity: p.quantity,
        location_id: Some(p.to_location_id),
        received_at: s.now,
        notes: p.notes,
        active: true,
    }
}

/// Why the lot of a receipt cannot be written, if it names one and it cannot.
pub open spec fn lot_refusal(v: DatabaseView, p: ReceiveParams, s: Stamp) -> Option<Seq<char>> {
    if p.lot_number is None {
        None
    } else if has_lot(v, s.record_id) {
        Some("UNIQUE constraint failed: lot_records.id"@)
    } else if !has_location(v, p.to_location_id) {
        Some(foreign_key_failed())
    } else {
        None
    }
}

/// The lot table after a receipt's lot step: one more lot when a lot number is named.
pub open spec fn lots_after(before: Seq<LotRecord>, after: Seq<LotRecord>, p: ReceiveParams, s: Stamp) -> bool {
    match p.lot_number {
        Some(number) => {
            &&& after.len() == before.len() + 1
            &&& after.drop_last() == before
            &&& received_lot(after.last(), p, s, number)
        },
        None => after == before,
    }
}

/// The serial record a receipt writes for its `k`-th serial number, as the store keeps it.
pub open spec fn received_serial(rec: SerialRecord, p: ReceiveParams, s: Stamp, k: int) -> bool {
    &&& rec.id == s.serial_ids@[k]
    &&& rec.item_id == p.item_id
    &&& rec.serial_number == p.serial_numbers@[k]
    &&& rec.condition == normalized_condition(p.condition)
    &&& rec.location_id == Some(p.to_location_id)
    &&& rec.custodian_id is None
    &&& rec.inspection_due is None
    &&& rec.notes@ == Seq::<char>::empty()
    &&& rec.active
    &&& rec.created_at == s.now
    &&& rec.updated_at == s.now
}

/// `after` is `before` with the serial records of the first `m` serial numbers appended.
pub open spec fn serials_written(before: Seq<SerialRecord>, after: Seq<SerialRecord>, p: ReceiveParams,
    s: Stamp, m: int) -> bool {
    &&& after.len() == before.len() + m
    &&& after.take(before.len() as int) == before
    &&& forall|i: int| before.len() <= i < after.len() ==> received_serial(#[trigger] after[i], p, s,
        i - before.len())
}

/// Why the `k`-th serial record cannot be written once the earlier ones are, if it
/// cannot: its identifier is taken, or the location is missing.
pub open spec fn serial_refusal(v: DatabaseView, p: ReceiveParams, s: Stamp, k: int) -> Option<Seq<char>> {
    if has_serial(v, s.serial_ids@[k]) || exists|j: int| 0 <= j < k && #[trigger] s.serial_ids@[j]
        == s.serial_ids@[k] {
        Some("UNIQUE constraint failed: serial_records.id"@)
    } else if !has_location(v, p.to_location_id) {
        Some(foreign_key_failed())
    } else {
        None
    }
}

/// The position of the first serial number from `k` on whose record cannot be
/// written, or the count of serial numbers when there is none.
pub open spec fn first_serial_refusal(v: DatabaseView, p: ReceiveParams, s: Stamp, k: int) -> int
    decreases p.serial_numbers@.len() - k,
{
    if 0 <= k < p.serial_numbers@.len() {
        if serial_refusal(v, p, s, k) is Some {
            k
        } else {
            first_serial_refusal(v, p, s, k + 1)
        }
    } else {
        p.serial_numbers@.len() as int
    }
}

/// The outcome of a receipt: refused for a role that may not transact or an unknown
/// item; otherwise the lot (when a lot number is named) and the serial records are
/// written, then the balance at the location rises by the quantity (refused if it
/// would end below zero), then the transaction and the audit entry are written, the
/// first refused write ending the receipt with the earlier writes kept.
pub open spec fn receive_outcome(
    old: DatabaseView,
    new: DatabaseView,
    user: User,
    p: ReceiveParams,
    s: Stamp,
    r: std::result::Result<Transaction, StoremanError>,
) -> bool {
    if !role_can_transact(user.role) {
        &&& r matches Err(e) && refused(Err(e), user.role, " cannot perform transactions"@)
        &&& new == old
    } else if !has_item(old, p.item_id) {
        item_missing(r) && new == old
    } else if let Some(msg) = lot_refusal(old, p, s) {
        refused_by_store(r, msg) && new == old
    } else {
        let item = item_of(old, p.item_id);
        let n = p.serial_numbers@.len() as int;
        let v1 = DatabaseView { lots: new.lots, ..old };
        let m = first_serial_refusal(v1, p, s, 0);
        &&& lots_after(old.lots, new.lots, p, s)
        &&& serials_written(old.serials, new.serials, p, s, m)
        &&& if m < n {
            &&& r matches Err(e) && serial_refusal(v1, p, s, m) matches Some(msg)
                && refused_by_store(Err::<(), StoremanError>(e), msg)
            &&& new == DatabaseView { serials: new.serials, ..v1 }
        } else {
            let v2 = DatabaseView { serials: new.serials, ..v1 };
            let b = balance_of(old.balances, p.item_id, p.to_location_id, condition_text(p.condition));
            let q = b + p.quantity;
            if q < 0 {
                &&& r == Err::<Transaction, StoremanError>(StoremanError::InsufficientStock {
                    available: b as i64,
                    requested: (-p.quantity) as i64,
                })
                &&& new == v2
            } else if let Some(msg) = balance_write_refusal(v2, p.item_id, p.to_location_id,
                p.condition, s.first_row_id) {
                refused_by_store(r, msg) && new == v2
            } else {
                let v3 = DatabaseView { balances: new.balances, ..v2 };
                &&& balance_rows_after(old.balances, new.balances, p.item_id, p.to_location_id,
                    p.condition, q, s.first_row_id, s.now)
                &&& if has_transaction(v3, s.transaction_id) {
                    refused_by_store(r, "UNIQUE constraint failed: transactions.id"@) && new == v3
                } else if !(has_location(v3, p.to_location_id) && has_user(v3, user.id)) {
                    refused_by_store(r, foreign_key_failed()) && new == v3
                } else {
                    let v4 = DatabaseView { transactions: new.transactions, ..v3 };
                    &&& new.transactions.len() == old.transactions.len() + 1
                    &&& new.transactions.drop_last() == old.transactions
                    &&& transaction_fields(new.transactions.last(), s.transaction_id,
                        TransactionType::Receive, item, None, Some(p.to_location_id),
                        p.quantity as int, user, false, p.reference@, Seq::empty(), p.notes@,
                        false, true, s.now)
                    &&& new.transactions.last().serial_ids == s.serial_ids@
                    &&& new.transactions.last().lot_id == if p.lot_number is Some {
                        Some(s.record_id)
                    } else {
                        None
                    }
                    &&& audit_step(v4, new, s.audit_id, s.now, user, "RECEIVE"@, s.transaction_id,
                        receive_details(p, item.description@), match r {
                            Ok(_) => Ok(()),
                            Err(e) => Err(e),
                        })
                    &&& r matches Ok(t) ==> t@ == new.transactions.last()
                }
            }
        }
    }
}

/// Once the serial numbers before `k` all have a writable record, the first refusal
/// from the start is the first from `k`.
proof fn lemma_first_serial_refusal(v: DatabaseView, p: ReceiveParams, s: Stamp, k: int)
    requires
        0 <= k <= p.serial_numbers@.len(),
        forall|j: int| 0 <= j < k ==> #[trigger] serial_refusal(v, p, s, j) is None,
    ensures
        first_serial_refusal(v, p, s, 0) == first_serial_refusal(v, p, s, k),
    decreases k,
{
    if k > 0 {
        lemma_first_serial_refusal(v, p, s, k - 1);
        assert(serial_refusal(v, p, s, k - 1) is None);
    }
}

/// Writes the serial records of a receipt in order, stopping at the first refused one.
fn write_serials(db: &mut Database, p: &ReceiveParams, s: &Stamp) -> (r: crate::error::Result<()>)
    requires
        old(db).wf(),
        has_item(old(db)@, p.item_id),
        s.serial_ids@.len() == p.serial_numbers@.len(),
    ensures
        final(db).wf(),
        ({
            let m = first_serial_refusal(old(db)@, *p, *s, 0);
            &&& serials_written(old(db)@.serials, final(db)@.serials, *p, *s, m)
            &&& final(db)@ == DatabaseView { serials: final(db)@.serials, ..old(db)@ }
            &&& if m < p.serial_numbers@.len() {
                r matches Err(e) && serial_refusal(old(db)@, *p, *s, m) matches Some(msg)
                    && refused_by_store(Err::<(), StoremanError>(e), msg)
            } else {
                r is Ok && m == p.serial_numbers@.len()
            }
        }),
{
    let n = p.serial_numbers.len();
    let ghost v0 = db@;
    let ghost base = v0.serials.len() as int;
    assert(v0.serials.take(base) =~= v0.serials);
    for k in 0..n
        invariant
            n == p.serial_numbers@.len() == s.serial_ids@.len(),
            v0 == old(db)@,
            base == v0.serials.len(),
            db.wf(),
            has_item(v0, p.item_id),
            forall|j: int| 0 <= j < k ==> #[trigger] serial_refusal(v0, *p, *s, j) is None,
            serials_written(v0.serials, db@.serials, *p, *s, k as int),
            db@ == (DatabaseView { serials: db@.serials, ..v0 }),
    {
        let rec = SerialRecord {
            id: s.serial_ids[k],
            item_id: p.item_id,
            serial_number: p.serial_numbers[k].clone(),
            condition: p.condition.duplicate(),
            location_id: Some(p.to_location_id),
            custodian_id: None,
            inspection_due: None,
            notes: String::new(),
            active: true,
            created_at: s.now.clone(),
            updated_at: s.now.clone(),
        };
        let ghost before = db@;
        proof {
            let id = s.serial_ids@[k as int];
            let dup = exists|j: int| 0 <= j < k && #[trigger] s.serial_ids@[j] == id;
            if has_serial(before, id) {
                let i = choose|i: int| 0 <= i < before.serials.len() && #[trigger] before.serials[i].id == id;
                if i < base {
                    assert(before.serials.take(base)[i] == v0.serials[i]);
                    assert(has_serial(v0, id));
                } else {
                    assert(received_serial(before.serials[i], *p, *s, i - base));
                    assert(s.serial_ids@[i - base] == id);
                    assert(dup);
                }
            }
            if has_serial(v0, id) {
                let i = choose|i: int| 0 <= i < v0.serials.len() && #[trigger] v0.serials[i].id == id;
                assert(before.serials.take(base)[i] == v0.serials[i]);
                assert(before.serials[i].id == id);
                assert(has_serial(before, id));
            }
            if dup {
                let j = choose|j: int| 0 <= j < k && #[trigger] s.serial_ids@[j] == id;
                assert(received_serial(before.serials[base + j], *p, *s, j));
                assert(before.serials[base + j].id == id);
                assert(has_serial(before, id));
            }
            assert(has_serial(before, id) == (has_serial(v0, id) || dup));
            assert(before.locations == v0.locations);
            assert(has_location(before, p.to_location_id) == has_location(v0, p.to_location_id));
            assert(has_item(before, p.item_id) == has_item(v0, p.item_id));
        }
        match db.create_serial(&rec) {
            Ok(()) => {},
            Err(e) => {
                proof {
                    lemma_first_serial_refusal(v0, *p, *s, k as int);
                    assert(serial_refusal(v0, *p, *s, k as int) is Some);
                }
                return Err(e);
            },
        }
        proof {
            assert(serial_refusal(v0, *p, *s, k as int) is None);
            let after = db@.serials;
            assert(after == before.serials.push(crate::db::records::serial_as_stored(rec)));
            assert(after.take(base) =~= v0.serials) by {
                assert forall|i: int| 0 <= i < base implies after.take(base)[i] == v0.serials[i] by {
                    assert(before.serials.take(base)[i] == v0.serials[i]);
                }
            }
            assert forall|i: int| base <= i < after.len() implies received_serial(#[trigger] after[i],
                *p, *s, i - base) by {
                if i < after.len() - 1 {
                    assert(after[i] == before.serials[i]);
                }
            }
        }
    }
    proof {
        lemma_first_serial_refusal(v0, *p, *s, n as int);
    }
    Ok(())
}

/// Receives stock with the given identifiers and time; `stamp` holds one serial
/// identifier per serial number.
pub fn receive_at(db: &mut Database, user: &User, params: ReceiveParams, stamp: &Stamp)
    -> (r: crate::error::Result<Transaction>)
    requires
        old(db).wf(),
        stamp.serial_ids@.len() == params.serial_numbers@.len(),
        role_can_transact(user.role) && has_item(old(db)@, params.item_id) ==> params.quantity > i64::MIN
            && balance_of(old(db)@.balances, params.item_id, params.to_location_id,
            condition_text(params.condition)) + params.quantity <= i64::MAX,
    ensures
        final(db).wf(),
        receive_outcome(old(db)@, final(db)@, *user, params, *stamp, r),
{
    match require_can_transact(user) {
        Ok(()) => {},
        Err(e) => return Err(e),
    }
    let item = match db.item_for(params.item_id) {
        Some(it) => it,
        None => return Err(StoremanError::NotFound("Item not found".to_string())),
    };
    let ghost v0 = db@;
    let lot_id: Option<u128> = match &params.lot_number {
        Some(number) => {
            let lot = LotRecord {
                id: stamp.record_id,
                item_id: params.item_id,
                lot_number: number.clone(),
                expiry_date: params.expiry_date,
                quantity: params.quantity,
                location_id: Some(params.to_location_id),
                received_at: stamp.now.clone(),
                notes: params.notes.clone(),
                active: true,
            };
            match db.create_lot(&lot) {
                Ok(()) => {},
                Err(e) => return Err(e),
            }
            assert(db@.lots.drop_last() == v0.lots);
            Some(stamp.record_id)
        },
        None => None,
    };
    let ghost v1 = db@;
    assert(lot_refusal(v0, params, *stamp) is None);
    assert(lots_after(v0.lots, v1.lots, params, *stamp));
    assert(v1 == (DatabaseView { lots: v1.lots, ..v0 }));
    assert(has_item(v1, params.item_id));
    match write_serials(db, &params, stamp) {
        Ok(()) => {},
        Err(e) => return Err(e),
    }
    let ghost v2 = db@;
    assert(first_serial_refusal(v1, params, *stamp, 0) == params.serial_numbers@.len());
    assert(balance_of(v2.balances, params.item_id, params.to_location_id, condition_text(params.condition))
        == balance_of(v0.balances, params.item_id, params.to_location_id, condition_text(params.condition)));
    match db.upsert_balance_at(params.item_id, params.to_location_id, &params.condition,
        params.quantity, stamp.first_row_id, &stamp.now) {
        Ok(()) => {},
        Err(e) => return Err(e),
    }
    let tx = Transaction {
        id: stamp.transaction_id,
        transaction_type: TransactionType::Receive,
        item_id: params.item_id,
        item_description: item.description.clone(),
        from_location_id: None,
        to_location_id: Some(params.to_location_id),
        quantity: params.quantity,
        serial_ids: dup_ids(&stamp.serial_ids),
        lot_id,
        user_id: user.id,
        user_name: user.display_name.clone(),
        approved_by_id: None,
        approved_by_name: None,
        reference: params.reference.clone(),
        reason: String::new(),
        notes: params.notes.clone(),
        requires_approval: false,
        approved: true,
        timestamp: stamp.now.clone(),
    };
    let ghost v3 = db@;
    assert(has_item(v3, params.item_id));
    proof {
        if params.lot_number is Some {
            assert(v3.lots.last().id == stamp.record_id);
            assert(has_lot(v3, stamp.record_id));
        }
        assert(crate::db::records::transaction_refs_ok(v3, tx@) == (has_location(v3,
            params.to_location_id) && has_user(v3, user.id)));
    }
    match db.save_transaction(&tx) {
        Ok(()) => {},
        Err(e) => {
            assert(db@ == v3);
            return Err(e);
        },
    }
    let mut details = "Received ".to_string();
    push_int_text(params.quantity, &mut details);
    details.append(" x ");
    details.append(item.description.as_str());
    details.append(" to ");
    let to_text = id_text(params.to_location_id);
    details.append(to_text.as_str());
    let ghost v4 = db@;
    proof {
        let item0 = item_of(v0, params.item_id);
        assert(item == item0);
        assert(v4.transactions == v3.transactions.push(tx@));
        assert(v4.transactions.last() == tx@);
        assert(v4.transactions.drop_last() == v0.transactions);
        assert(transaction_fields(v4.transactions.last(), stamp.transaction_id,
            TransactionType::Receive, item0, None, Some(params.to_location_id),
            params.quantity as int, *user, false, params.reference@, Seq::empty(), params.notes@,
            false, true, stamp.now));
    }
    assert(details@ == receive_details(params, item.description@));
    match record_audit(db, stamp.audit_id, &stamp.now, user, "RECEIVE", stamp.transaction_id,
        details.as_str()) {
        Ok(()) => {},
        Err(e) => {
            assert(db@ == v4);
            return Err(e);
        },
    }
    proof {
        let n = db@;
        assert(n.transactions.last() == tx@);
        assert(n.transactions == v4.transactions);
        assert(DatabaseView { transactions: n.transactions, ..v3 } == v4);
    }
    Ok(tx)
}

/// Receives stock with fresh identifiers and the current time.
pub fn receive(db: &mut Database, user: &User, params: ReceiveParams) -> (r: crate::error::Result<Transaction>)
    requires
        old(db).wf(),
        role_can_transact(user.role) && has_item(old(db)@, params.item_id) ==> params.quantity > i64::MIN
            && balance_of(old(db)@.balances, params.item_id, params.to_location_id,
            condition_text(params.condition)) + params.quantity <= i64::MAX,
    ensures
        final(db).wf(),
        exists|s: Stamp| #[trigger] receive_outcome(old(db)@, final(db)@, *user, params, s, r)
            && s.serial_ids@.len() == params.serial_numbers@.len(),
{
    let stamp = Stamp::fresh(params.serial_numbers.len());
    receive_at(db, user, params, &stamp)
}

} // verus!

//! Stock balances per item, location and condition.
use vstd::prelude::*;
use crate::db::{Database, DatabaseView, balance_index, balance_of, balance_key_matches,
    balances_nonnegative, has_item, has_location, has_balance_row, refused_by_store,
    foreign_key_failed};
use crate::error::StoremanError;
use crate::models::balance::{ConditionCode, StockBalance, condition_text, normalize_condition,
    normalized_condition};
use crate::text::text_eq;
use crate::ids::new_id;
use crate::clock::current_timestamp;

verus! {

/// The message of a new balance row whose identifier is taken.
pub open spec fn balance_id_taken() -> Seq<char> {
    "UNIQUE constraint failed: stock_balances.id"@
}

/// The balance table `rows` after the key (`item_id`, `location_id`, `condition`) is
/// set to `q` at `now`: its row is changed when it has one, else a row with identifier
/// `row_id` is appended, holding the condition as it reads back from its text.
pub open spec fn balance_rows_set(
    rows: Seq<StockBalance>,
    item_id: u128,
    location_id: u128,
    condition: ConditionCode,
    q: int,
    row_id: u128,
    now: String,
) -> Seq<StockBalance> {
    let idx = balance_index(rows, item_id, location_id, condition_text(condition));
    if idx >= 0 {
        rows.update(idx, StockBalance { quantity: q as i64, updated_at: now, ..rows[idx] })
    } else {
        rows.push(StockBalance {
            id: row_id,
            item_id,
            location_id,
            condition: normalized_condition(condition),
            quantity: q as i64,
            updated_at: now,
        })
    }
}

/// `new_rows` is `old_rows` after the key is set to `q`, as `balance_rows_set` says.
pub open spec fn balance_rows_after(
    old_rows: Seq<StockBalance>,
    new_rows: Seq<StockBalance>,
    item_id: u128,
    location_id: u128,
    condition: ConditionCode,
    q: int,
    row_id: u128,
    now: String,
) -> bool {
    new_rows == balance_rows_set(old_rows, item_id, location_id, condition, q, row_id, now)
}

/// Why a new quantity `q >= 0` for a key cannot be written, if it cannot: the key has
/// no row and the identifier `row_id` is taken, or the item or location is missing.
pub open spec fn balance_write_refusal(old: DatabaseView, item_id: u128, location_id: u128,
    condition: ConditionCode, row_id: u128) -> Option<Seq<char>> {
    if balance_index(old.balances, item_id, location_id, condition_text(condition)) >= 0 {
        None
    } else if has_balance_row(old, row_id) {
        Some(balance_id_taken())
    } else if !has_item(old, item_id) || !has_location(old, location_id) {
        Some(foreign_key_failed())
    } else {
        None
    }
}

/// The outcome of adding `delta` to the balance of (`item_id`, `location_id`,
/// `condition`): a new balance below zero is refused; otherwise the new balance is
/// written as `balance_rows_after` says, unless `balance_write_refusal` gives a reason.
pub open spec fn upsert_outcome(
    old: DatabaseView,
    new: DatabaseView,
    item_id: u128,
    location_id: u128,
    condition: ConditionCode,
    delta: int,
    row_id: u128,
    now: String,
    r: std::result::Result<(), StoremanError>,
) -> bool {
    let existing = balance_of(old.balances, item_id, location_id, condition_text(condition));
    let q = existing + delta;
    if q < 0 {
        &&& r == Err::<(), StoremanError>(StoremanError::InsufficientStock {
            available: existing as i64,
            requested: (-delta) as i64,
        })
        &&& new == old
    } else if let Some(msg) = balance_write_refusal(old, item_id, location_id, condition, row_id) {
        refused_by_store(r, msg) && new == old
    } else {
        &&& r is Ok
        &&& balance_rows_after(old.balances, new.balances, item_id, location_id, condition, q,
            row_id, now)
        &&& new == DatabaseView { balances: new.balances, ..old }
    }
}

/// After a key is set to `q`, its balance is `q` and every other key keeps its balance.
pub proof fn lemma_balance_rows_after(
    old_rows: Seq<StockBalance>,
    new_rows: Seq<StockBalance>,
    item_id: u128,
    location_id: u128,
    condition: ConditionCode,
    q: int,
    row_id: u128,
    now: String,
)
    requires
        balance_rows_after(old_rows, new_rows, item_id, location_id, condition, q, row_id, now),
        i64::MIN <= q <= i64::MAX,
    ensures
        forall|i: u128, l: u128, k: Seq<char>|
            #[trigger] balance_of(new_rows, i, l, k) == if i == item_id && l == location_id && k
                == condition_text(condition) {
                q
            } else {
                balance_of(old_rows, i, l, k)
            },
{
    let c = condition_text(condition);
    let idx = balance_index(old_rows, item_id, location_id, c);
    lemma_balance_index_range(old_rows, item_id, location_id, c);
    if idx >= 0 {
        let row = StockBalance { quantity: q as i64, updated_at: now, ..old_rows[idx] };
        assert forall|a: u128, l: u128, k: Seq<char>|
            #[trigger] balance_of(new_rows, a, l, k) == if a == item_id && l == location_id && k == c {
                q
            } else {
                balance_of(old_rows, a, l, k)
            } by {
            lemma_balance_index_range(old_rows, a, l, k);
            lemma_balance_update_key(old_rows, idx, row, a, l, k);
        }
    } else {
        let row = new_rows.last();
        assert(new_rows == old_rows.push(row));
        lemma_balance_push(old_rows, row);
        crate::models::balance::lemma_normalized_condition_text(condition);
        assert forall|a: u128, l: u128, k: Seq<char>|
            #[trigger] balance_of(new_rows, a, l, k) == if a == item_id && l == location_id && k == c {
                q
            } else {
                balance_of(old_rows, a, l, k)
            } by {
            lemma_balance_index_range(old_rows, a, l, k);
        }
    }
}

/// The index of a key's row is -1 or a position of the table.
pub proof fn lemma_balance_index_range(rows: Seq<StockBalance>, item_id: u128, location_id: u128, c: Seq<char>)
    ensures
        -1 <= balance_index(rows, item_id, location_id, c) < rows.len(),
        balance_index(rows, item_id, location_id, c) >= 0 ==> balance_key_matches(
            rows[balance_index(rows, item_id, location_id, c)], item_id, location_id, c),
    decreases rows.len(),
{
    if rows.len() > 0 {
        lemma_balance_index_range(rows.drop_last(), item_id, location_id, c);
    }
}

/// A table whose balances are all at least zero.
pub proof fn lemma_balances_stay_nonnegative(rows: Seq<StockBalance>)
    requires
        balances_nonnegative(rows),
    ensures
        forall|i: u128, l: u128, k: Seq<char>| #[trigger] balance_of(rows, i, l, k) >= 0,
{
    assert forall|i: u128, l: u128, k: Seq<char>| #[trigger] balance_of(rows, i, l, k) >= 0 by {
        lemma_balance_index_range(rows, i, l, k);
    }
}

/// Changing the quantity of the row at `idx` changes the balance of its key only.
proof fn lemma_balance_update(rows: Seq<StockBalance>, idx: int, row: StockBalance,
    item_id: u128, location_id: u128, c: Seq<char>)
    requires
        0 <= idx < rows.len(),
        idx == balance_index(rows, item_id, location_id, c),
        row.item_id == rows[idx].item_id,
        row.location_id == rows[idx].location_id,
        row.condition == rows[idx].condition,
    ensures
        forall|i: u128, l: u128, k: Seq<char>|
            balance_index(#[trigger] rows.update(idx, row), i, l, k) == balance_index(rows, i, l, k),
    decreases rows.len(),
{
    assert forall|i: u128, l: u128, k: Seq<char>|
        balance_index(#[trigger] rows.update(idx, row), i, l, k) == balance_index(rows, i, l, k) by {
        lemma_balance_update_key(rows, idx, row, i, l, k);
    }
}

proof fn lemma_balance_update_key(rows: Seq<StockBalance>, idx: int, row: StockBalance,
    i: u128, l: u128, k: Seq<char>)
    requires
        0 <= idx < rows.len(),
        row.item_id == rows[idx].item_id,
        row.location_id == rows[idx].location_id,
        row.condition == rows[idx].condition,
    ensures
        balance_index(rows.update(idx, row), i, l, k) == balance_index(rows, i, l, k),
    decreases rows.len(),
{
    let u = rows.update(idx, row);
    if idx == rows.len() - 1 {
        assert(u.drop_last() == rows.drop_last());
    } else {
        assert(u.drop_last() == rows.drop_last().update(idx, row));
        lemma_balance_update_key(rows.drop_last(), idx, row, i, l, k);
    }
}

/// Appending a row for a key that had none gives that key the row's quantity and
/// leaves every other key as it was.
proof fn lemma_balance_push(rows: Seq<StockBalance>, row: StockBalance)
    ensures
        forall|i: u128, l: u128, k: Seq<char>|
            #[trigger] balance_of(rows.push(row), i, l, k) == if balance_key_matches(row, i, l, k) {
                row.quantity as int
            } else {
                balance_of(rows, i, l, k)
            },
{
    assert forall|i: u128, l: u128, k: Seq<char>|
        #[trigger] balance_of(rows.push(row), i, l, k) == if balance_key_matches(row, i, l, k) {
            row.quantity as int
        } else {
            balance_of(rows, i, l, k)
        } by {
        assert(rows.push(row).drop_last() == rows);
        lemma_balance_index_range(rows, i, l, k);
    }
}

impl Database {
    /// Position of the last balance row of the key.
    fn find_balance(&self, item_id: u128, location_id: u128, condition: &str) -> (r: Option<usize>)
        ensures
            match r {
                Some(i) => i as int == balance_index(self@.balances, item_id, location_id, condition@)
                    && i < self@.balances.len(),
                None => balance_index(self@.balances, item_id, location_id, condition@) == -1,
            },
    {
        let n = self.balances.len();
        let mut i = n;
        assert(self.balances@.take(n as int) =~= self.balances@);
        while i > 0
            invariant
                i <= n == self.balances@.len(),
                balance_index(self.balances@, item_id, location_id, condition@)
                    == balance_index(self.balances@.take(i as int), item_id, location_id, condition@),
            decreases i,
        {
            let row = &self.balances[i - 1];
            let t = row.condition.to_string();
            assert(self.balances@.take(i as int).last() == self.balances@[i - 1]);
            assert(self.balances@.take(i as int).drop_last() == self.balances@.take(i - 1));
            if row.item_id == item_id && row.location_id == location_id && text_eq(t.as_str(), condition) {
                proof {
                    lemma_balance_index_range(self.balances@.take(i as int), item_id, location_id, condition@);
                }
                return Some(i - 1);
            }
            i = i - 1;
        }
        assert(self.balances@.take(0) =~= Seq::<StockBalance>::empty());
        None
    }

    /// The quantity held of the item at the location in the condition; zero when no
    /// stock was ever recorded there.
    pub fn get_balance(&self, item_id: u128, location_id: u128, condition: &ConditionCode)
        -> (r: crate::error::Result<i64>)
        requires
            self.wf(),
        ensures
            r matches Ok(q) && q as int == balance_of(self@.balances, item_id, location_id,
                condition_text(*condition)),
    {
        let c = condition.to_string();
        match self.find_balance(item_id, location_id, c.as_str()) {
            Some(i) => Ok(self.balances[i].quantity),
            None => Ok(0),
        }
    }

    /// Adds `delta` to a balance, writing a new balance row with identifier `row_id`
    /// when the key has none, and stamping the row with `now`.
    pub fn upsert_balance_at(
        &mut self,
        item_id: u128,
        location_id: u128,
        condition: &ConditionCode,
        delta: i64,
        row_id: u128,
        now: &String,
    ) -> (r: crate::error::Result<()>)
        requires
            old(self).wf(),
            delta > i64::MIN,
            balance_of(old(self)@.balances, item_id, location_id, condition_text(*condition)) + delta
                <= i64::MAX,
        ensures
            final(self).wf(),
            upsert_outcome(old(self)@, final(self)@, item_id, location_id, *condition,
                delta as int, row_id, *now, r),
            r is Ok ==> forall|i: u128, l: u128, k: Seq<char>|
                #[trigger] balance_of(final(self)@.balances, i, l, k) == if i == item_id && l
                    == location_id && k == condition_text(*condition) {
                    balance_of(old(self)@.balances, i, l, k) + delta
                } else {
                    balance_of(old(self)@.balances, i, l, k)
                },
    {
        let c = condition.to_string();
        let found = self.find_balance(item_id, location_id, c.as_str());
        let existing: i64 = match found {
            Some(i) => self.balances[i].quantity,
            None => 0,
        };
        proof {
            if let Some(i) = found {
                assert(self.balances@[i as int].quantity >= 0);
            }
        }
        let new_qty = existing + delta;
        if new_qty < 0 {
            return Err(StoremanError::InsufficientStock { available: existing, requested: -delta });
        }
        match found {
            Some(i) => {
                let old_row = self.balances[i].duplicate();
                let row = StockBalance { quantity: new_qty, updated_at: now.clone(), ..old_row };
                proof {
                    lemma_balance_update(self.balances@, i as int, row, item_id, location_id, c@);
                }
                self.balances.set(i, row);
                assert(self@.balances =~= old(self)@.balances.update(i as int, row));
                proof {
                    assert forall|a: u128, l: u128, k: Seq<char>|
                        #[trigger] balance_of(self@.balances, a, l, k) == if a == item_id && l
                            == location_id && k == condition_text(*condition) {
                            balance_of(old(self)@.balances, a, l, k) + delta
                        } else {
                            balance_of(old(self)@.balances, a, l, k)
                        } by {
                        lemma_balance_index_range(old(self)@.balances, a, l, k);
                        lemma_balance_update_key(old(self)@.balances, i as int, row, a, l, k);
                        assert(self@.balances == old(self)@.balances.update(i as int, row));
                        let j = balance_index(old(self)@.balances, a, l, k);
                        assert(balance_index(self@.balances, a, l, k) == j);
                        lemma_balance_index_range(old(self)@.balances, item_id, location_id, c@);
                        if j == i {
                            assert(a == item_id && l == location_id && k == condition_text(*condition));
                            assert(self@.balances[j].quantity == new_qty);
                        } else if j >= 0 {
                            assert(self@.balances[j] == old(self)@.balances[j]);
                        }
                    }
                }
                Ok(())
            },
            None => {
                if self.balance_row_exists(row_id) {
                    return Err(StoremanError::Database(
                        "UNIQUE constraint failed: stock_balances.id".to_string(),
                    ));
                }
                if self.find_item(item_id).is_none() || self.find_location(location_id).is_none() {
                    return Err(StoremanError::Database("FOREIGN KEY constraint failed".to_string()));
                }
                let stored = normalize_condition(condition);
                let row = StockBalance {
                    id: row_id,
                    item_id,
                    location_id,
                    condition: stored,
                    quantity: new_qty,
                    updated_at: now.clone(),
                };
                proof {
                    lemma_balance_push(self.balances@, row);

                }
                self.balances.push(row);
                assert(self@.balances.drop_last() =~= old(self)@.balances);
                Ok(())
            },
        }
    }

    /// Adds `delta` to a balance as `upsert_balance_at` does, with a fresh row
    /// identifier and the current time.
    pub fn upsert_balance(&mut self, item_id: u128, location_id: u128, condition: &ConditionCode, delta: i64)
        -> (r: crate::error::Result<()>)
        requires
            old(self).wf(),
            delta > i64::MIN,
            balance_of(old(self)@.balances, item_id, location_id, condition_text(*condition)) + delta
                <= i64::MAX,
        ensures
            final(self).wf(),
            exists|row_id: u128, now: String|
                upsert_outcome(old(self)@, final(self)@, item_id, location_id, *condition,
                    delta as int, row_id, now, r),
    {
        let row_id = new_id();
        let now = current_timestamp();
        self.upsert_balance_at(item_id, location_id, condition, delta, row_id, &now)
    }
}

/// No balance goes below zero: adding to a balance, whether it is refused or not,
/// leaves every stored quantity at zero or more when all were before (the quantity
/// written fits in 64 bits, as the precondition of `upsert_balance` asks).
pub proof fn law_upsert_keeps_balances_nonnegative(
    old: DatabaseView,
    new: DatabaseView,
    item_id: u128,
    location_id: u128,
    condition: ConditionCode,
    delta: int,
    row_id: u128,
    now: String,
    r: std::result::Result<(), StoremanError>,
)
    requires
        balances_nonnegative(old.balances),
        balance_of(old.balances, item_id, location_id, condition_text(condition)) + delta <= i64::MAX,
        upsert_outcome(old, new, item_id, location_id, condition, delta, row_id, now, r),
    ensures
        balances_nonnegative(new.balances),
{
    let q = balance_of(old.balances, item_id, location_id, condition_text(condition)) + delta;
    if q >= 0 && balance_write_refusal(old, item_id, location_id, condition, row_id) is None {
        let idx = balance_index(old.balances, item_id, location_id, condition_text(condition));
        lemma_balance_index_range(old.balances, item_id, location_id, condition_text(condition));
        assert forall|i: int| 0 <= i < new.balances.len() implies #[trigger] new.balances[i].quantity >= 0 by {
            if idx >= 0 {
                if i != idx {
                    assert(new.balances[i] == old.balances[i]);
                }
            } else if i < old.balances.len() {
                assert(new.balances[i] == old.balances[i]);
            }
        }
    }
}

} // verus!

//! The store's listings: users, items, locations, balances, serials, lots, custody
//! records, transactions and audit entries, each selected and ordered as its query
//! says. Rows that tie on the ordering key may come in any order.
use vstd::prelude::*;
use crate::audit::AuditEntry;
use crate::db::{Database, UserRecord};
use crate::models::balance::StockBalance;
use crate::models::custody::{CustodyRecord, CustodyStatus};
use crate::models::item::Item;
use crate::models::location::Location;
use crate::models::lot::LotRecord;
use crate::models::serial::SerialRecord;
use crate::models::transaction::{Transaction, TransactionView};
use crate::models::user::User;
use crate::order::{lemma_listing_rows, lemma_select_rows, lemma_single_key_order,
    lemma_text_order_antisymmetric, text_order, dir_order, listing, rearranges, sorted_by, select, texts, sort_rows, key1, key4,
    lemma_select_step, lemma_rearranges_map, lemma_sorted_map};

verus! {

/// The users of the user table.
pub open spec fn users_of(rows: Seq<UserRecord>) -> Seq<User> {
    rows.map_values(|u: UserRecord| u.user)
}

/// Users are listed by display name.
pub open spec fn user_key() -> spec_fn(User) -> Seq<Seq<char>> {
    |u: User| seq![u.display_name@]
}

/// The items a listing keeps: the active ones, or all.
pub open spec fn item_kept(active_only: bool) -> spec_fn(Item) -> bool {
    |i: Item| !active_only || i.active
}

/// Items are listed by description.
pub open spec fn item_key() -> spec_fn(Item) -> Seq<Seq<char>> {
    |i: Item| seq![i.description@]
}

/// Locations are listed by warehouse, aisle, rack and bin.
pub open spec fn location_key() -> spec_fn(Location) -> Seq<Seq<char>> {
    |l: Location| seq![l.warehouse@, l.aisle@, l.rack@, l.bin@]
}

/// The balance rows of an item.
pub open spec fn balance_of_item(item_id: u128) -> spec_fn(StockBalance) -> bool {
    |b: StockBalance| b.item_id == item_id
}

/// Balance rows are listed by last update, latest first.
pub open spec fn balance_key() -> spec_fn(StockBalance) -> Seq<Seq<char>> {
    |b: StockBalance| seq![b.updated_at@]
}

/// The active serial records of an item.
pub open spec fn serial_of_item(item_id: u128) -> spec_fn(SerialRecord) -> bool {
    |s: SerialRecord| s.item_id == item_id && s.active
}

/// The active lots of an item.
pub open spec fn lot_of_item(item_id: u128) -> spec_fn(LotRecord) -> bool {
    |l: LotRecord| l.item_id == item_id && l.active
}

/// The active lots whose expiry date falls from day `today` to `within_days` days later.
pub open spec fn lot_expiring(today: int, within_days: int) -> spec_fn(LotRecord) -> bool {
    |l: LotRecord|
        l.active && l.expiry_date is Some && today <= l.expiry_date->Some_0 && l.expiry_date->Some_0
            <= today + within_days
}

/// The custody records that are active.
pub open spec fn custody_active() -> spec_fn(CustodyRecord) -> bool {
    |c: CustodyRecord| c.status == CustodyStatus::Active
}

/// Custody records are listed by issue time, latest first.
pub open spec fn custody_key() -> spec_fn(CustodyRecord) -> Seq<Seq<char>> {
    |c: CustodyRecord| seq![c.issued_at@]
}

/// Transactions are listed by time, latest first.
pub open spec fn transaction_key() -> spec_fn(TransactionView) -> Seq<Seq<char>> {
    |t: TransactionView| seq![t.timestamp@]
}

/// The transactions of an item.
pub open spec fn transaction_of_item(item_id: u128) -> spec_fn(TransactionView) -> bool {
    |t: TransactionView| t.item_id == item_id
}

/// The transactions as values.
pub open spec fn views(s: Seq<Transaction>) -> Seq<TransactionView> {
    s.map_values(|t: Transaction| t@)
}

/// How many of `n` rows a listing limited to `limit` gives: a limit beyond the
/// largest signed 64-bit value reads as negative to the store, which means no limit.
pub open spec fn limit_count(limit: usize, n: int) -> int {
    if limit > i64::MAX {
        n
    } else if limit < n {
        limit as int
    } else {
        n
    }
}

/// The item listing with `active_only` lists only active items (a listing, as
/// `list_items` gives, rearranges the kept items).
#[verifier::spinoff_prover]
pub proof fn law_item_listing_active(s: Seq<Item>, items: Seq<Item>)
    requires
        rearranges(s, select(items, item_kept(true))),
    ensures
        forall|j: int| 0 <= j < s.len() ==> (#[trigger] s[j]).active,
{
    lemma_listing_rows(s, items, item_kept(true));
    assert forall|j: int| 0 <= j < s.len() implies (#[trigger] s[j]).active by {
        assert(item_kept(true)(s[j]));
    }
}

/// Every active item is listed by the listing of active items, and every listed item
/// is one of the table's.
#[verifier::spinoff_prover]
pub proof fn law_active_items_listed(s: Seq<Item>, items: Seq<Item>)
    requires
        rearranges(s, select(items, item_kept(true))),
    ensures
        forall|j: int| 0 <= j < s.len() ==> exists|k: int| 0 <= k < items.len() && items[k] == #[trigger] s[j],
        forall|k: int| 0 <= k < items.len() && (#[trigger] items[k]).active ==> exists|j: int|
            0 <= j < s.len() && s[j] == items[k],
{
    lemma_listing_rows(s, items, item_kept(true));
    assert forall|k: int| 0 <= k < items.len() && (#[trigger] items[k]).active implies exists|j: int|
        0 <= j < s.len() && s[j] == items[k] by {
        assert(item_kept(true)(items[k]));
    }
}

/// The listing of all items keeps every item of the table, inactive ones too.
pub proof fn law_all_items_kept(items: Seq<Item>)
    ensures
        select(items, item_kept(false)) == items,
    decreases items.len(),
{
    if items.len() > 0 {
        law_all_items_kept(items.drop_last());
        assert(items.drop_last().push(items.last()) =~= items);
    } else {
        assert(select(items, item_kept(false)) =~= items);
    }
}

/// Items sorted by the item key come in ascending order of description.
#[verifier::spinoff_prover]
pub proof fn law_items_by_description(s: Seq<Item>)
    requires
        sorted_by(s, item_key(), false),
    ensures
        forall|i: int, j: int| 0 <= i < j < s.len() ==> text_order((#[trigger] s[i]).description@,
            (#[trigger] s[j]).description@) <= 0,
{
    assert forall|i: int, j: int| 0 <= i < j < s.len() implies text_order((#[trigger] s[i]).description@,
        (#[trigger] s[j]).description@) <= 0 by {
        lemma_single_key_order(s[i].description@, s[j].description@);
        assert(dir_order(item_key()(s[i]), item_key()(s[j]), false) <= 0);
    }
}

/// The active custody listing: every listed record is active and one of the table's,
/// every active record is listed, and the latest issue comes first.
pub proof fn law_active_custody_listing(s: Seq<CustodyRecord>, rows: Seq<CustodyRecord>)
    requires
        listing(s, rows, custody_active(), custody_key(), true),
    ensures
        forall|j: int| 0 <= j < s.len() ==> (#[trigger] s[j]).status == CustodyStatus::Active,
        forall|j: int| 0 <= j < s.len() ==> exists|k: int| 0 <= k < rows.len() && rows[k] == #[trigger] s[j],
        forall|k: int| 0 <= k < rows.len() && (#[trigger] rows[k]).status == CustodyStatus::Active ==> exists|j: int|
            0 <= j < s.len() && s[j] == rows[k],
        forall|i: int, j: int| 0 <= i < j < s.len() ==> text_order((#[trigger] s[i]).issued_at@,
            (#[trigger] s[j]).issued_at@) >= 0,
{
    lemma_listing_rows(s, rows, custody_active());
    assert forall|j: int| 0 <= j < s.len() implies (#[trigger] s[j]).status == CustodyStatus::Active by {
        assert(custody_active()(s[j]));
    }
    assert forall|k: int| 0 <= k < rows.len() && (#[trigger] rows[k]).status == CustodyStatus::Active implies
        exists|j: int| 0 <= j < s.len() && s[j] == rows[k] by {
        assert(custody_active()(rows[k]));
    }
    assert forall|i: int, j: int| 0 <= i < j < s.len() implies text_order((#[trigger] s[i]).issued_at@,
        (#[trigger] s[j]).issued_at@) >= 0 by {
        lemma_single_key_order(s[j].issued_at@, s[i].issued_at@);
        lemma_text_order_antisymmetric(s[j].issued_at@, s[i].issued_at@);
        assert(dir_order(custody_key()(s[i]), custody_key()(s[j]), true) <= 0);
    }
}

/// Transactions sorted by the transaction key come latest first.
pub proof fn law_transactions_latest_first(s: Seq<TransactionView>)
    requires
        sorted_by(s, transaction_key(), true),
    ensures
        forall|i: int, j: int| 0 <= i < j < s.len() ==> text_order((#[trigger] s[i]).timestamp@,
            (#[trigger] s[j]).timestamp@) >= 0,
{
    assert forall|i: int, j: int| 0 <= i < j < s.len() implies text_order((#[trigger] s[i]).timestamp@,
        (#[trigger] s[j]).timestamp@) >= 0 by {
        lemma_single_key_order(s[j].timestamp@, s[i].timestamp@);
        lemma_text_order_antisymmetric(s[j].timestamp@, s[i].timestamp@);
        assert(dir_order(transaction_key()(s[i]), transaction_key()(s[j]), true) <= 0);
    }
}

/// An item's transaction listing holds exactly the table's transactions of that item.
pub proof fn law_item_transactions_listing(s: Seq<TransactionView>, rows: Seq<TransactionView>, item_id: u128)
    requires
        listing(s, rows, transaction_of_item(item_id), transaction_key(), true),
    ensures
        forall|j: int| 0 <= j < s.len() ==> (#[trigger] s[j]).item_id == item_id,
        forall|j: int| 0 <= j < s.len() ==> exists|k: int| 0 <= k < rows.len() && rows[k] == #[trigger] s[j],
        forall|k: int| 0 <= k < rows.len() && (#[trigger] rows[k]).item_id == item_id ==> exists|j: int|
            0 <= j < s.len() && s[j] == rows[k],
{
    lemma_listing_rows(s, rows, transaction_of_item(item_id));
    assert forall|j: int| 0 <= j < s.len() implies (#[trigger] s[j]).item_id == item_id by {
        assert(transaction_of_item(item_id)(s[j]));
    }
    assert forall|k: int| 0 <= k < rows.len() && (#[trigger] rows[k]).item_id == item_id implies
        exists|j: int| 0 <= j < s.len() && s[j] == rows[k] by {
        assert(transaction_of_item(item_id)(rows[k]));
    }
}

/// An item's balance list holds exactly the table's balance rows of that item.
pub proof fn law_item_balances(rows: Seq<StockBalance>, item_id: u128)
    ensures
        forall|j: int| 0 <= j < select(rows, balance_of_item(item_id)).len() ==> (#[trigger] select(rows,
            balance_of_item(item_id))[j]).item_id == item_id,
        forall|k: int| 0 <= k < rows.len() && (#[trigger] rows[k]).item_id == item_id ==> exists|j: int|
            0 <= j < select(rows, balance_of_item(item_id)).len() && select(rows, balance_of_item(item_id))[j]
                == rows[k],
{
    let sel = select(rows, balance_of_item(item_id));
    lemma_select_rows(rows, balance_of_item(item_id));
    assert forall|j: int| 0 <= j < sel.len() implies (#[trigger] sel[j]).item_id == item_id by {
        assert(balance_of_item(item_id)(sel[j]));
    }
    assert forall|k: int| 0 <= k < rows.len() && (#[trigger] rows[k]).item_id == item_id implies exists|j: int|
        0 <= j < sel.len() && sel[j] == rows[k] by {
        assert(balance_of_item(item_id)(rows[k]));
    }
}

/// An item's serial list holds exactly the table's active serials of that item.
pub proof fn law_item_serials(rows: Seq<SerialRecord>, item_id: u128)
    ensures
        forall|j: int| 0 <= j < select(rows, serial_of_item(item_id)).len() ==> (#[trigger] select(rows,
            serial_of_item(item_id))[j]).item_id == item_id && select(rows, serial_of_item(item_id))[j].active,
        forall|k: int| 0 <= k < rows.len() && (#[trigger] rows[k]).item_id == item_id && rows[k].active ==> exists|j: int|
            0 <= j < select(rows, serial_of_item(item_id)).len() && select(rows, serial_of_item(item_id))[j]
                == rows[k],
{
    let sel = select(rows, serial_of_item(item_id));
    lemma_select_rows(rows, serial_of_item(item_id));
    assert forall|j: int| 0 <= j < sel.len() implies (#[trigger] sel[j]).item_id == item_id && sel[j].active by {
        assert(serial_of_item(item_id)(sel[j]));
    }
    assert forall|k: int| 0 <= k < rows.len() && (#[trigger] rows[k]).item_id == item_id && rows[k].active implies
        exists|j: int| 0 <= j < sel.len() && sel[j] == rows[k] by {
        assert(serial_of_item(item_id)(rows[k]));
    }
}

/// An item's lot list holds exactly the table's active lots of that item.
pub proof fn law_item_lots(rows: Seq<LotRecord>, item_id: u128)
    ensures
        forall|j: int| 0 <= j < select(rows, lot_of_item(item_id)).len() ==> (#[trigger] select(rows,
            lot_of_item(item_id))[j]).item_id == item_id && select(rows, lot_of_item(item_id))[j].active,
        forall|k: int| 0 <= k < rows.len() && (#[trigger] rows[k]).item_id == item_id && rows[k].active ==> exists|j: int|
            0 <= j < select(rows, lot_of_item(item_id)).len() && select(rows, lot_of_item(item_id))[j] == rows[k],
{
    let sel = select(rows, lot_of_item(item_id));
    lemma_select_rows(rows, lot_of_item(item_id));
    assert forall|j: int| 0 <= j < sel.len() implies (#[trigger] sel[j]).item_id == item_id && sel[j].active by {
        assert(lot_of_item(item_id)(sel[j]));
    }
    assert forall|k: int| 0 <= k < rows.len() && (#[trigger] rows[k]).item_id == item_id && rows[k].active implies
        exists|j: int| 0 <= j < sel.len() && sel[j] == rows[k] by {
        assert(lot_of_item(item_id)(rows[k]));
    }
}

/// The expiring-lot list holds exactly the active lots whose expiry date falls from
/// `today` to `within_days` days later.
pub proof fn law_expiring_lots(lots: Seq<LotRecord>, today: int, within_days: int)
    ensures
        forall|j: int| 0 <= j < select(lots, lot_expiring(today, within_days)).len() ==> {
            let l = #[trigger] select(lots, lot_expiring(today, within_days))[j];
            l.active && l.expiry_date is Some && today <= l.expiry_date->Some_0 && l.expiry_date->Some_0
                <= today + within_days
        },
        forall|k: int| 0 <= k < lots.len() && (#[trigger] lots[k]).active && lots[k].expiry_date is Some
            && today <= lots[k].expiry_date->Some_0 && lots[k].expiry_date->Some_0 <= today + within_days ==>
            exists|j: int| 0 <= j < select(lots, lot_expiring(today, within_days)).len() && select(lots,
            lot_expiring(today, within_days))[j] == lots[k],
{
    let sel = select(lots, lot_expiring(today, within_days));
    lemma_select_rows(lots, lot_expiring(today, within_days));
    assert forall|j: int| 0 <= j < sel.len() implies {
        let l = #[trigger] sel[j];
        l.active && l.expiry_date is Some && today <= l.expiry_date->Some_0 && l.expiry_date->Some_0
            <= today + within_days
    } by {
        assert(lot_expiring(today, within_days)(sel[j]));
    }
    assert forall|k: int| 0 <= k < lots.len() && (#[trigger] lots[k]).active && lots[k].expiry_date is Some
        && today <= lots[k].expiry_date->Some_0 && lots[k].expiry_date->Some_0 <= today + within_days implies
        exists|j: int| 0 <= j < sel.len() && sel[j] == lots[k] by {
        assert(lot_expiring(today, within_days)(lots[k]));
    }
}

/// A limited listing gives as many rows as the limit allows: the smaller of the limit
/// and the number of rows, or all of them for a limit the store reads as negative.
pub proof fn law_limit_count(limit: usize, n: int)
    requires
        0 <= n,
    ensures
        limit <= i64::MAX ==> limit_count(limit, n) == (if (limit as int) < n { limit as int } else { n }),
        limit > i64::MAX ==> limit_count(limit, n) == n,
        0 <= limit_count(limit, n) <= n,
{
}

/// The count of rows a limited listing gives.
fn limit_of(limit: usize, n: usize) -> (r: usize)
    ensures
        r == limit_count(limit, n as int),
{
    if limit as u128 > 9223372036854775807u128 {
        n
    } else if limit < n {
        limit
    } else {
        n
    }
}

impl Database {
    /// All users, by display name.
    pub fn list_users(&self) -> (r: crate::error::Result<Vec<User>>)
        ensures
            r matches Ok(s) && rearranges(s@, users_of(self@.users)) && sorted_by(s@, user_key(), false),
    {
        let mut rows: Vec<User> = Vec::new();
        let mut keys: Vec<Vec<String>> = Vec::new();
        let n = self.users.len();
        for i in 0..n
            invariant
                n == self@.users.len(),
                rows@ == users_of(self@.users).take(i as int),
                keys@.len() == rows@.len(),
                forall|j: int| 0 <= j < rows@.len() ==> texts(#[trigger] keys@[j]@) == user_key()(rows@[j]),
        {
            let u = self.users[i].user.duplicate();
            keys.push(key1(&u.display_name));
            rows.push(u);
            assert(users_of(self@.users).take(i + 1) =~= users_of(self@.users).take(i as int).push(u));
        }
        assert(users_of(self@.users).take(n as int) =~= users_of(self@.users));
        Ok(sort_rows(rows, keys, false, Ghost(user_key())))
    }

    /// The items (the active ones when `active_only`), by description.
    pub fn list_items(&self, active_only: bool) -> (r: crate::error::Result<Vec<Item>>)
        ensures
            r matches Ok(s) && listing(s@, self@.items, item_kept(active_only), item_key(), false),
    {
        let mut rows: Vec<Item> = Vec::new();
        let mut keys: Vec<Vec<String>> = Vec::new();
        let n = self.items.len();
        for i in 0..n
            invariant
                n == self@.items.len(),
                rows@ == select(self@.items.take(i as int), item_kept(active_only)),
                keys@.len() == rows@.len(),
                forall|j: int| 0 <= j < rows@.len() ==> texts(#[trigger] keys@[j]@) == item_key()(rows@[j]),
        {
            proof {
                lemma_select_step(self@.items, item_kept(active_only), i as int);
            }
            if !active_only || self.items[i].active {
                let it = self.items[i].duplicate();
                keys.push(key1(&it.description));
                rows.push(it);
            }
        }
        assert(self@.items.take(n as int) =~= self@.items);
        Ok(sort_rows(rows, keys, false, Ghost(item_key())))
    }

    /// All locations, by warehouse, aisle, rack and bin.
    pub fn list_locations(&self) -> (r: crate::error::Result<Vec<Location>>)
        ensures
            r matches Ok(s) && rearranges(s@, self@.locations) && sorted_by(s@, location_key(), false),
    {
        let mut rows: Vec<Location> = Vec::new();
        let mut keys: Vec<Vec<String>> = Vec::new();
        let n = self.locations.len();
        for i in 0..n
            invariant
                n == self@.locations.len(),
                rows@ == self@.locations.take(i as int),
                keys@.len() == rows@.len(),
                forall|j: int| 0 <= j < rows@.len() ==> texts(#[trigger] keys@[j]@) == location_key()(rows@[j]),
        {
            let l = self.locations[i].duplicate();
            keys.push(key4(&l.warehouse, &l.aisle, &l.rack, &l.bin));
            rows.push(l);
            assert(self@.locations.take(i + 1) =~= self@.locations.take(i as int).push(l));
        }
        assert(self@.locations.take(n as int) =~= self@.locations);
        Ok(sort_rows(rows, keys, false, Ghost(location_key())))
    }

    /// The balance rows of an item, in table order.
    pub fn list_balances_for_item(&self, item_id: u128) -> (r: crate::error::Result<Vec<StockBalance>>)
        ensures
            r matches Ok(s) && s@ == select(self@.balances, balance_of_item(item_id)),
    {
        let mut rows: Vec<StockBalance> = Vec::new();
        let n = self.balances.len();
        for i in 0..n
            invariant
                n == self@.balances.len(),
                rows@ == select(self@.balances.take(i as int), balance_of_item(item_id)),
        {
            proof {
                lemma_select_step(self@.balances, balance_of_item(item_id), i as int);
            }
            if self.balances[i].item_id == item_id {
                rows.push(self.balances[i].duplicate());
            }
        }
        assert(self@.balances.take(n as int) =~= self@.balances);
        Ok(rows)
    }

    /// All balance rows, latest update first.
    pub fn list_all_balances(&self) -> (r: crate::error::Result<Vec<StockBalance>>)
        ensures
            r matches Ok(s) && rearranges(s@, self@.balances) && sorted_by(s@, balance_key(), true),
    {
        let mut rows: Vec<StockBalance> = Vec::new();
        let mut keys: Vec<Vec<String>> = Vec::new();
        let n = self.balances.len();
        for i in 0..n
            invariant
                n == self@.balances.len(),
                rows@ == self@.balances.take(i as int),
                keys@.len() == rows@.len(),
                forall|j: int| 0 <= j < rows@.len() ==> texts(#[trigger] keys@[j]@) == balance_key()(rows@[j]),
        {
            let b = self.balances[i].duplicate();
            keys.push(key1(&b.updated_at));
            rows.push(b);
            assert(self@.balances.take(i + 1) =~= self@.balances.take(i as int).push(b));
        }
        assert(self@.balances.take(n as int) =~= self@.balances);
        Ok(sort_rows(rows, keys, true, Ghost(balance_key())))
    }

    /// The active serial records of an item, in table order.
    pub fn list_serials_for_item(&self, item_id: u128) -> (r: crate::error::Result<Vec<SerialRecord>>)
        ensures
            r matches Ok(s) && s@ == select(self@.serials, serial_of_item(item_id)),
    {
        let mut rows: Vec<SerialRecord> = Vec::new();
        let n = self.serials.len();
        for i in 0..n
            invariant
                n == self@.serials.len(),
                rows@ == select(self@.serials.take(i as int), serial_of_item(item_id)),
        {
            proof {
                lemma_select_step(self@.serials, serial_of_item(item_id), i as int);
            }
            if self.serials[i].item_id == item_id && self.serials[i].active {
                rows.push(self.serials[i].duplicate());
            }
        }
        assert(self@.serials.take(n as int) =~= self@.serials);
        Ok(rows)
    }

    /// The active lots of an item, in table order.
    pub fn list_lots_for_item(&self, item_id: u128) -> (r: crate::error::Result<Vec<LotRecord>>)
        ensures
            r matches Ok(s) && s@ == select(self@.lots, lot_of_item(item_id)),
    {
        let mut rows: Vec<LotRecord> = Vec::new();
        let n = self.lots.len();
        for i in 0..n
            invariant
                n == self@.lots.len(),
                rows@ == select(self@.lots.take(i as int), lot_of_item(item_id)),
        {
            proof {
                lemma_select_step(self@.lots, lot_of_item(item_id), i as int);
            }
            if self.lots[i].item_id == item_id && self.lots[i].active {
                rows.push(self.lots[i].duplicate());
            }
        }
        assert(self@.lots.take(n as int) =~= self@.lots);
        Ok(rows)
    }

    /// The active lots expiring from day `today` to `within_days` days later, in
    /// table order.
    pub fn list_expiring_lots_on(&self, today: i32, within_days: i64) -> (r: crate::error::Result<Vec<LotRecord>>)
        ensures
            r matches Ok(s) && s@ == select(self@.lots, lot_expiring(today as int, within_days as int)),
    {
        let cutoff: i128 = today as i128 + within_days as i128;
        let mut rows: Vec<LotRecord> = Vec::new();
        let n = self.lots.len();
        for i in 0..n
            invariant
                n == self@.lots.len(),
                cutoff == today + within_days,
                rows@ == select(self@.lots.take(i as int), lot_expiring(today as int, within_days as int)),
        {
            proof {
                lemma_select_step(self@.lots, lot_expiring(today as int, within_days as int), i as int);
            }
            let keep = match self.lots[i].expiry_date {
                Some(e) => self.lots[i].active && today <= e && (e as i128) <= cutoff,
                None => false,
            };
            if keep {
                rows.push(self.lots[i].duplicate());
            }
        }
        assert(self@.lots.take(n as int) =~= self@.lots);
        Ok(rows)
    }

    /// The active lots expiring from today (by the clock) to `within_days` days later.
    pub fn list_expiring_lots(&self, within_days: i64) -> (r: crate::error::Result<Vec<LotRecord>>)
        ensures
            exists|today: i32|
                r matches Ok(s) && s@ == select(self@.lots, #[trigger] lot_expiring(today as int, within_days as int)),
    {
        let today = crate::clock::current_day();
        self.list_expiring_lots_on(today, within_days)
    }

    /// The active custody records, latest issue first.
    pub fn list_active_custody(&self) -> (r: crate::error::Result<Vec<CustodyRecord>>)
        ensures
            r matches Ok(s) && listing(s@, self@.custody, custody_active(), custody_key(), true),
    {
        let mut rows: Vec<CustodyRecord> = Vec::new();
        let mut keys: Vec<Vec<String>> = Vec::new();
        let n = self.custody.len();
        for i in 0..n
            invariant
                n == self@.custody.len(),
                rows@ == select(self@.custody.take(i as int), custody_active()),
                keys@.len() == rows@.len(),
                forall|j: int| 0 <= j < rows@.len() ==> texts(#[trigger] keys@[j]@) == custody_key()(rows@[j]),
        {
            proof {
                lemma_select_step(self@.custody, custody_active(), i as int);
            }
            if self.custody[i].status == CustodyStatus::Active {
                let c = self.custody[i].duplicate();
                keys.push(key1(&c.issued_at));
                rows.push(c);
            }
        }
        assert(self@.custody.take(n as int) =~= self@.custody);
        Ok(sort_rows(rows, keys, true, Ghost(custody_key())))
    }

    /// All custody records, latest issue first.
    pub fn list_all_custody(&self) -> (r: crate::error::Result<Vec<CustodyRecord>>)
        ensures
            r matches Ok(s) && rearranges(s@, self@.custody) && sorted_by(s@, custody_key(), true),
    {
        let mut rows: Vec<CustodyRecord> = Vec::new();
        let mut keys: Vec<Vec<String>> = Vec::new();
        let n = self.custody.len();
        for i in 0..n
            invariant
                n == self@.custody.len(),
                rows@ == self@.custody.take(i as int),
                keys@.len() == rows@.len(),
                forall|j: int| 0 <= j < rows@.len() ==> texts(#[trigger] keys@[j]@) == custody_key()(rows@[j]),
        {
            let c = self.custody[i].duplicate();
            keys.push(key1(&c.issued_at));
            rows.push(c);
            assert(self@.custody.take(i + 1) =~= self@.custody.take(i as int).push(c));
        }
        assert(self@.custody.take(n as int) =~= self@.custody);
        Ok(sort_rows(rows, keys, true, Ghost(custody_key())))
    }

    /// The transactions `keep` holds of, latest first.
    fn sorted_transactions(&self, item: Option<u128>) -> (r: Vec<Transaction>)
        ensures
            rearranges(views(r@), match item {
                Some(id) => select(self@.transactions, transaction_of_item(id)),
                None => self@.transactions,
            }),
            sorted_by(views(r@), transaction_key(), true),
    {
        let ghost all = self@.transactions;
        let ghost wanted = match item {
            Some(id) => select(all, transaction_of_item(id)),
            None => all,
        };
        let mut rows: Vec<Transaction> = Vec::new();
        let mut keys: Vec<Vec<String>> = Vec::new();
        let n = self.transactions.len();
        for i in 0..n
            invariant
                n == all.len(),
                all == self@.transactions,
                views(rows@) == match item {
                    Some(id) => select(all.take(i as int), transaction_of_item(id)),
                    None => all.take(i as int),
                },
                keys@.len() == rows@.len(),
                forall|j: int| 0 <= j < rows@.len() ==> texts(#[trigger] keys@[j]@) == transaction_key()(rows@[j]@),
        {
            proof {
                if let Some(id) = item {
                    lemma_select_step(all, transaction_of_item(id), i as int);
                }
            }
            let keep = match item {
                Some(id) => self.transactions[i].item_id == id,
                None => true,
            };
            if keep {
                let t = self.transactions[i].duplicate();
                keys.push(key1(&t.timestamp));
                let ghost before = rows@;
                rows.push(t);
                assert(views(rows@) =~= views(before).push(t@));
            }
            assert(all[i as int] == self.transactions@[i as int]@);
            assert(all.take(i + 1) =~= all.take(i as int).push(all[i as int]));
        }
        assert(all.take(n as int) =~= all);
        let ghost tkey = |t: Transaction| transaction_key()(t@);
        let sorted = sort_rows(rows, keys, true, Ghost(tkey));
        proof {
            lemma_rearranges_map(sorted@, rows@, |t: Transaction| t@);
            assert(sorted@.map_values(|t: Transaction| t@) == views(sorted@));
            assert(rows@.map_values(|t: Transaction| t@) == views(rows@));
            lemma_sorted_map(sorted@, |t: Transaction| t@, tkey, transaction_key(), true);
        }
        sorted
    }

    /// The latest transactions, at most `limit` of them, latest first.
    pub fn list_transactions(&self, limit: usize) -> (r: crate::error::Result<Vec<Transaction>>)
        ensures
            r matches Ok(s) && exists|all: Seq<TransactionView>|
                rearranges(all, self@.transactions) && sorted_by(all, transaction_key(), true)
                    && views(s@) == all.take(limit_count(limit, self@.transactions.len() as int)),
    {
        let mut sorted = self.sorted_transactions(None);
        let ghost all = views(sorted@);
        let k = limit_of(limit, sorted.len());
        sorted.truncate(k);
        assert(views(sorted@) =~= all.take(k as int));
        Ok(sorted)
    }

    /// The transactions of an item, latest first.
    pub fn list_transactions_for_item(&self, item_id: u128) -> (r: crate::error::Result<Vec<Transaction>>)
        ensures
            r matches Ok(s) && listing(views(s@), self@.transactions, transaction_of_item(item_id),
                transaction_key(), true),
    {
        Ok(self.sorted_transactions(Some(item_id)))
    }

    /// The latest audit entries, at most `limit` of them, latest first.
    pub fn list_audit_entries(&self, limit: usize) -> (r: crate::error::Result<Vec<AuditEntry>>)
        ensures
            r matches Ok(s) && s@.len() == limit_count(limit, self@.audit_log.len() as int) && forall|j: int|
                0 <= j < s@.len() ==> #[trigger] s@[j] == self@.audit_log[self@.audit_log.len() - 1 - j],
    {
        let n = self.audit_log.len();
        let k = limit_of(limit, n);
        let mut rows: Vec<AuditEntry> = Vec::new();
        for j in 0..k
            invariant
                n == self@.audit_log.len(),
                k <= n,
                rows@.len() == j,
                forall|m: int| 0 <= m < j ==> #[trigger] rows@[m] == self@.audit_log[n - 1 - m],
        {
            rows.push(self.audit_log[n - 1 - j].duplicate());
        }
        Ok(rows)
    }
}

} // verus!

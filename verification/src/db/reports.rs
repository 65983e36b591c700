//! Reports: items at or below their reorder point, and CSV exports of stock and
//! transactions.
use vstd::prelude::*;
use crate::db::{Database, DatabaseView, has_item, has_location};
use crate::db::listings::{item_kept, item_key, transaction_key, limit_count, views};
use crate::error::StoremanError;
use crate::ids::id_text;
use crate::models::balance::{StockBalance, condition_text};
use crate::models::item::Item;
use crate::models::location::location_code;
use crate::models::transaction::{TransactionView, transaction_type_text};
use crate::order::{listing, rearranges, sorted_by, select, texts, sort_rows, key1, lemma_select_step,
    lemma_rearranges_map, lemma_sorted_map, lemma_rearranges_member, lemma_selected_in, lemma_kept_selected};
use crate::text::int_to_text;
use crate::text::{int_text, uuid_text, lemma_uuid_text_injective};

verus! {

/// A field's characters with each double quote doubled.
pub open spec fn doubled_quotes(f: Seq<char>) -> Seq<char>
    decreases f.len(),
{
    if f.len() == 0 {
        Seq::empty()
    } else {
        doubled_quotes(f.drop_last()) + if f.last() == '"' {
            seq!['"', '"']
        } else {
            seq![f.last()]
        }
    }
}

/// A field as CSV writes it: in double quotes, with its quotes doubled, when it holds
/// a comma, a double quote, a carriage return or a line feed; as it is otherwise.
pub open spec fn csv_field(f: Seq<char>) -> Seq<char> {
    if f.contains(',') || f.contains('"') || f.contains('\r') || f.contains('\n') {
        seq!['"'] + doubled_quotes(f) + seq!['"']
    } else {
        f
    }
}

/// Fields written one after another, separated by commas.
pub open spec fn csv_fields(fields: Seq<Seq<char>>) -> Seq<char>
    decreases fields.len(),
{
    if fields.len() == 0 {
        Seq::empty()
    } else if fields.len() == 1 {
        csv_field(fields[0])
    } else {
        csv_fields(fields.drop_last()) + seq![','] + csv_field(fields.last())
    }
}

/// A record of at least two fields as CSV writes it: the fields, then a line feed.
pub open spec fn csv_line(fields: Seq<Seq<char>>) -> Seq<char> {
    csv_fields(fields) + seq!['\n']
}

/// Records written one after another.
pub open spec fn csv_lines(rows: Seq<Seq<Seq<char>>>) -> Seq<char>
    decreases rows.len(),
{
    if rows.len() == 0 {
        Seq::empty()
    } else {
        csv_lines(rows.drop_last()) + csv_line(rows.last())
    }
}

/// One record written by a `csv::Writer` made with `Writer::from_writer` (default
/// settings: comma delimiter, double quotes doubled, quoting only where needed, line
/// feed terminator), taken back as text with `into_inner` and `String::from_utf8`.
/// The contract states the written text as `csv_line` gives it, for records of two
/// fields or more. Writing to a vector cannot fail and the written bytes are the
/// fields' own UTF-8 bytes with ASCII quotes, commas and line feeds, so the fallbacks
/// on the error paths are never taken.
#[verifier::external_body]
fn csv_record(fields: &Vec<String>) -> (r: String)
    requires
        fields@.len() >= 2,
    ensures
        r@ == csv_line(texts(fields@)),
{
    let mut writer = csv::Writer::from_writer(Vec::new());
    let _ = writer.write_record(fields.iter());
    String::from_utf8(writer.into_inner().unwrap_or_default()).unwrap_or_default()
}

/// The sum of the serviceable stock of an item over all balance rows.
pub open spec fn serviceable_total(rows: Seq<StockBalance>, item_id: u128) -> int
    decreases rows.len(),
{
    if rows.len() == 0 {
        0
    } else {
        serviceable_total(rows.drop_last(), item_id) + if rows.last().item_id == item_id
            && condition_text(rows.last().condition) == "Serviceable"@ {
            rows.last().quantity as int
        } else {
            0
        }
    }
}

/// The items of `items` with a reorder point that their serviceable stock does not
/// exceed, each with that stock, in order.
pub open spec fn reorder_rows(items: Seq<Item>, rows: Seq<StockBalance>) -> Seq<(Item, i64)>
    decreases items.len(),
{
    if items.len() == 0 {
        Seq::empty()
    } else {
        let rest = reorder_rows(items.drop_last(), rows);
        let it = items.last();
        let total = serviceable_total(rows, it.id);
        if it.reorder_point is Some && total <= it.reorder_point->Some_0 {
            rest.push((it, total as i64))
        } else {
            rest
        }
    }
}

/// Some active item with a reorder point has more serviceable stock than 64 bits hold.
pub open spec fn reorder_total_overflows(v: DatabaseView) -> bool {
    exists|i: int|
        0 <= i < v.items.len() && v.items[i].active && v.items[i].reorder_point is Some
            && #[trigger] serviceable_total(v.balances, v.items[i].id) > i64::MAX
}

/// The header of the stock export.
pub open spec fn stock_header() -> Seq<Seq<char>> {
    seq!["Item ID"@, "Description"@, "Location"@, "Condition"@, "Quantity"@, "Updated At"@]
}

/// A balance row whose item and location exist.
pub open spec fn stock_joinable(v: DatabaseView) -> spec_fn(StockBalance) -> bool {
    |b: StockBalance| has_item(v, b.item_id) && has_location(v, b.location_id)
}

/// The fields of the stock export for a balance row, with its item and location.
pub open spec fn stock_fields(b: StockBalance, item: Item, loc: crate::models::location::Location) -> Seq<Seq<char>> {
    seq![uuid_text(b.item_id), item.description@, location_code(loc), condition_text(b.condition),
        int_text(b.quantity as int), b.updated_at@]
}

/// The first item with the identifier.
pub open spec fn first_item(v: DatabaseView, id: u128) -> Item {
    v.items[choose|i: int| 0 <= i < v.items.len() && v.items[i].id == id && forall|j: int| 0 <= j < i ==> #[trigger] v.items[j].id != id]
}

/// The first location with the identifier.
pub open spec fn first_location(v: DatabaseView, id: u128) -> crate::models::location::Location {
    v.locations[choose|i: int| 0 <= i < v.locations.len() && v.locations[i].id == id && forall|j: int| 0 <= j < i ==> #[trigger] v.locations[j].id != id]
}

/// The export fields of a balance row, with its item and location.
pub open spec fn stock_row_of(v: DatabaseView, b: StockBalance) -> Seq<Seq<char>> {
    stock_fields(b, first_item(v, b.item_id), first_location(v, b.location_id))
}

/// The export rows of the balance rows that join with their item and location.
#[verifier::opaque]
pub open spec fn stock_rows(v: DatabaseView) -> Seq<Seq<Seq<char>>> {
    select(v.balances, stock_joinable(v)).map_values(|b: StockBalance| stock_row_of(v, b))
}

/// Export rows are ordered by item description, their second field.
pub open spec fn description_key() -> spec_fn(Seq<Seq<char>>) -> Seq<Seq<char>> {
    |f: Seq<Seq<char>>| seq![f[1]]
}

/// The header of the transaction export.
pub open spec fn transaction_header() -> Seq<Seq<char>> {
    seq!["ID"@, "Type"@, "Item"@, "Qty"@, "User"@, "Reference"@, "Timestamp"@]
}

/// The fields of the transaction export for a transaction.
pub open spec fn transaction_fields_text(t: TransactionView) -> Seq<Seq<char>> {
    seq![uuid_text(t.id), transaction_type_text(t.transaction_type), t.item_description@,
        int_text(t.quantity as int), t.user_name@, t.reference@, t.timestamp@]
}

/// Only serviceable stock counts toward the reorder check: a balance row in any other
/// condition, or of another item, adds nothing to an item's serviceable stock and
/// leaves the low-stock report unchanged, while a serviceable row of the item adds its
/// quantity.
pub proof fn law_only_serviceable_stock_counts(items: Seq<Item>, rows: Seq<StockBalance>, b: StockBalance,
    item_id: u128)
    ensures
        condition_text(b.condition) != "Serviceable"@ || b.item_id != item_id ==> serviceable_total(
            rows.push(b), item_id) == serviceable_total(rows, item_id),
        condition_text(b.condition) == "Serviceable"@ && b.item_id == item_id ==> serviceable_total(
            rows.push(b), item_id) == serviceable_total(rows, item_id) + b.quantity,
        condition_text(b.condition) != "Serviceable"@ ==> reorder_rows(items, rows.push(b)) == reorder_rows(
            items, rows),
    decreases items.len(),
{
    assert(rows.push(b).drop_last() =~= rows);
    if items.len() > 0 {
        law_only_serviceable_stock_counts(items.drop_last(), rows, b, item_id);
        assert(rows.push(b).drop_last() =~= rows);
        if condition_text(b.condition) != "Serviceable"@ {
            assert(serviceable_total(rows.push(b), items.last().id) == serviceable_total(rows, items.last().id));
        }
    }
}

/// The first field of an exported transaction record is the hyphenated form of that
/// transaction's own identifier, so two transactions export the same ID only when
/// they are the same transaction.
pub proof fn law_export_id_column(t1: TransactionView, t2: TransactionView)
    ensures
        transaction_fields_text(t1)[0] == uuid_text(t1.id),
        t1.id != t2.id ==> transaction_fields_text(t1)[0] != transaction_fields_text(t2)[0],
{
    if t1.id != t2.id && uuid_text(t1.id) == uuid_text(t2.id) {
        lemma_uuid_text_injective(t1.id, t2.id);
    }
}

/// The low-stock report: each reported pair is an item of the list that has a reorder
/// point, with its serviceable stock, which is at or below that point; and every item
/// of the list whose serviceable stock is at or below its reorder point is reported.
pub proof fn law_reorder_report(items: Seq<Item>, rows: Seq<StockBalance>)
    ensures
        forall|j: int| 0 <= j < reorder_rows(items, rows).len() ==> {
            let e = #[trigger] reorder_rows(items, rows)[j];
            &&& e.0.reorder_point is Some
            &&& serviceable_total(rows, e.0.id) <= e.0.reorder_point->Some_0
            &&& e.1 == serviceable_total(rows, e.0.id) as i64
            &&& exists|k: int| 0 <= k < items.len() && items[k] == e.0
        },
        forall|k: int| 0 <= k < items.len() && (#[trigger] items[k]).reorder_point is Some && serviceable_total(
            rows, items[k].id) <= items[k].reorder_point->Some_0 ==> exists|j: int| 0 <= j < reorder_rows(items,
            rows).len() && reorder_rows(items, rows)[j].0 == items[k],
    decreases items.len(),
{
    if items.len() > 0 {
        let init = items.drop_last();
        law_reorder_report(init, rows);
        let rest = reorder_rows(init, rows);
        let out = reorder_rows(items, rows);
        assert forall|j: int| 0 <= j < out.len() implies {
            let e = #[trigger] out[j];
            &&& e.0.reorder_point is Some
            &&& serviceable_total(rows, e.0.id) <= e.0.reorder_point->Some_0
            &&& e.1 == serviceable_total(rows, e.0.id) as i64
            &&& exists|k: int| 0 <= k < items.len() && items[k] == e.0
        } by {
            if j < rest.len() {
                assert(out[j] == rest[j]);
                let k = choose|k: int| 0 <= k < init.len() && init[k] == rest[j].0;
                assert(items[k] == init[k]);
            } else {
                assert(items[items.len() - 1] == items.last());
            }
        }
        assert forall|k: int| 0 <= k < items.len() && (#[trigger] items[k]).reorder_point is Some && serviceable_total(
            rows, items[k].id) <= items[k].reorder_point->Some_0 implies exists|j: int| 0 <= j < out.len()
            && out[j].0 == items[k] by {
            if k < init.len() {
                assert(init[k] == items[k]);
                let j = choose|j: int| 0 <= j < rest.len() && rest[j].0 == init[k];
                assert(out[j] == rest[j]);
            } else {
                assert(items[k] == items.last());
                assert(out[out.len() - 1].0 == items.last());
            }
        }
    }
}

/// The stock export's columns: item identifier, description, location code,
/// condition, quantity and update time of the balance row, its item and its location.
pub proof fn law_stock_export_columns(b: StockBalance, item: Item, loc: crate::models::location::Location)
    ensures
        stock_fields(b, item, loc).len() == 6,
        stock_fields(b, item, loc)[0] == uuid_text(b.item_id),
        stock_fields(b, item, loc)[1] == item.description@,
        stock_fields(b, item, loc)[2] == location_code(loc),
        stock_fields(b, item, loc)[3] == condition_text(b.condition),
        stock_fields(b, item, loc)[4] == int_text(b.quantity as int),
        stock_fields(b, item, loc)[5] == b.updated_at@,
{
}

/// The transaction export's columns after the identifier: type, item description,
/// quantity, user name, reference and time of the transaction.
pub proof fn law_transaction_export_columns(t: TransactionView)
    ensures
        transaction_fields_text(t).len() == 7,
        transaction_fields_text(t)[1] == transaction_type_text(t.transaction_type),
        transaction_fields_text(t)[2] == t.item_description@,
        transaction_fields_text(t)[3] == int_text(t.quantity as int),
        transaction_fields_text(t)[4] == t.user_name@,
        transaction_fields_text(t)[5] == t.reference@,
        transaction_fields_text(t)[6] == t.timestamp@,
{
}

/// A field with no comma, quote, carriage return or line feed is written as it is;
/// one with any of them is written between double quotes, longer by two and by one
/// for each quote it holds.
pub proof fn law_csv_quoting(f: Seq<char>)
    ensures
        !(f.contains(',') || f.contains('"') || f.contains('\r') || f.contains('\n')) ==> csv_field(f) == f,
        (f.contains(',') || f.contains('"') || f.contains('\r') || f.contains('\n')) ==> {
            &&& csv_field(f).len() >= f.len() + 2
            &&& csv_field(f)[0] == '"'
            &&& csv_field(f).last() == '"'
        },
{
    lemma_doubled_quotes_len(f);
}

/// Doubling quotes never shortens a field.
proof fn lemma_doubled_quotes_len(f: Seq<char>)
    ensures
        doubled_quotes(f).len() >= f.len(),
    decreases f.len(),
{
    if f.len() > 0 {
        lemma_doubled_quotes_len(f.drop_last());
    }
}

/// The field texts of a row of strings.
pub open spec fn row_texts(r: Vec<String>) -> Seq<Seq<char>> {
    texts(r@)
}

/// The rows of strings as field texts.
pub open spec fn rows_texts(rows: Seq<Vec<String>>) -> Seq<Seq<Seq<char>>> {
    rows.map_values(|r: Vec<String>| row_texts(r))
}

/// The export fields of a balance row with its item and location.
fn stock_line(b: &StockBalance, item: &Item, loc: &crate::models::location::Location) -> (r: Vec<String>)
    ensures
        row_texts(r) == stock_fields(*b, *item, *loc),
        r@.len() == 6,
{
    let mut f: Vec<String> = Vec::new();
    f.push(id_text(b.item_id));
    f.push(item.description.clone());
    f.push(loc.display_code());
    f.push(b.condition.to_string());
    f.push(int_to_text(b.quantity));
    f.push(b.updated_at.clone());
    assert(texts(f@) =~= stock_fields(*b, *item, *loc));
    f
}

/// Keys of the second field of each row.
fn second_field_keys(rows: &Vec<Vec<String>>) -> (keys: Vec<Vec<String>>)
    requires
        forall|j: int| 0 <= j < rows@.len() ==> (#[trigger] rows@[j])@.len() >= 2,
    ensures
        keys@.len() == rows@.len(),
        forall|j: int| 0 <= j < rows@.len() ==> texts(#[trigger] keys@[j]@) == seq![rows@[j]@[1]@],
{
    let mut keys: Vec<Vec<String>> = Vec::new();
    let n = rows.len();
    for i in 0..n
        invariant
            n == rows@.len(),
            forall|j: int| 0 <= j < n ==> (#[trigger] rows@[j])@.len() >= 2,
            keys@.len() == i,
            forall|j: int| 0 <= j < i ==> texts(#[trigger] keys@[j]@) == seq![rows@[j]@[1]@],
    {
        let row = &rows[i];
        assert(row@.len() >= 2);
        keys.push(key1(&row[1]));
    }
    keys
}

/// Writes the header and then each row as CSV records.
fn write_csv(header: &Vec<String>, rows: &Vec<Vec<String>>) -> (r: String)
    requires
        header@.len() >= 2,
        forall|j: int| 0 <= j < rows@.len() ==> (#[trigger] rows_texts(rows@)[j]).len() >= 2,
    ensures
        r@ == csv_line(texts(header@)) + csv_lines(rows_texts(rows@)),
{
    let mut out = csv_record(header);
    let n = rows.len();
    for i in 0..n
        invariant
            n == rows@.len(),
            header@.len() >= 2,
            forall|j: int| 0 <= j < rows@.len() ==> (#[trigger] rows_texts(rows@)[j]).len() >= 2,
            out@ == csv_line(texts(header@)) + csv_lines(rows_texts(rows@.take(i as int))),
    {
        assert(rows_texts(rows@)[i as int].len() >= 2);
        let line = csv_record(&rows[i]);
        out.append(line.as_str());
        assert(rows_texts(rows@.take(i + 1)).drop_last() =~= rows_texts(rows@.take(i as int)));
    }
    assert(rows@.take(n as int) =~= rows@);
    out
}

/// A row of strings from field texts pushed one by one.
fn header_row(Ghost(fields): Ghost<Seq<Seq<char>>>, a: &str, b: &str, c: &str, d: &str, e: &str, f: &str, g: Option<&str>)
    -> (r: Vec<String>)
    requires
        fields == (match g {
            Some(x) => seq![a@, b@, c@, d@, e@, f@, x@],
            None => seq![a@, b@, c@, d@, e@, f@],
        }),
    ensures
        texts(r@) == fields,
        r@.len() == fields.len(),
{
    let mut r: Vec<String> = Vec::new();
    r.push(a.to_string());
    r.push(b.to_string());
    r.push(c.to_string());
    r.push(d.to_string());
    r.push(e.to_string());
    r.push(f.to_string());
    if let Some(x) = g {
        r.push(x.to_string());
    }
    assert(texts(r@) =~= fields);
    r
}

impl Database {
    /// The serviceable stock of an item, or `None` when it exceeds 64 bits.
    fn serviceable_stock(&self, item_id: u128) -> (r: Option<i64>)
        requires
            self.wf(),
        ensures
            match r {
                Some(t) => t == serviceable_total(self@.balances, item_id),
                None => serviceable_total(self@.balances, item_id) > i64::MAX,
            },
    {
        let n = self.balances.len();
        let mut total: i64 = 0;
        for i in 0..n
            invariant
                n == self@.balances.len(),
                self.wf(),
                total == serviceable_total(self@.balances.take(i as int), item_id),
                total >= 0,
        {
            assert(self@.balances.take(i + 1).drop_last() =~= self@.balances.take(i as int));
            let b = &self.balances[i];
            if b.item_id == item_id {
                let c = b.condition.to_string();
                if crate::text::text_eq(c.as_str(), "Serviceable") {
                    assert(self@.balances[i as int].quantity >= 0);
                    match total.checked_add(b.quantity) {
                        Some(t) => total = t,
                        None => {
                            proof {
                                lemma_serviceable_total_grows(self@.balances, item_id, i + 1);
                            }
                            return None;
                        },
                    }
                }
            }
        }
        assert(self@.balances.take(n as int) =~= self@.balances);
        Some(total)
    }

    /// The active items with a reorder point that their serviceable stock does not
    /// exceed, each with that stock, by description; refused when a stock sum
    /// overflows.
    pub fn items_below_reorder(&self) -> (r: crate::error::Result<Vec<(Item, i64)>>)
        requires
            self.wf(),
        ensures
            r is Ok <==> !reorder_total_overflows(self@),
            r matches Ok(out) ==> exists|s: Seq<Item>|
                listing(s, self@.items, item_kept(true), item_key(), false) && out@ == reorder_rows(
                    s,
                    self@.balances,
                ),
            r matches Err(e) ==> e matches StoremanError::Database(m) && m@ == "integer overflow"@,
    {
        let items = match self.list_items(true) {
            Ok(s) => s,
            Err(e) => return Err(e),
        };
        let ghost listed = items@;
        proof {
            crate::order::lemma_select_kept(self@.items, item_kept(true));
        }
        let mut out: Vec<(Item, i64)> = Vec::new();
        let n = items.len();
        for i in 0..n
            invariant
                n == items@.len(),
                items@ == listed,
                self.wf(),
                listing(listed, self@.items, item_kept(true), item_key(), false),
                out@ == reorder_rows(listed.take(i as int), self@.balances),
                forall|j: int| 0 <= j < i && listed[j].reorder_point is Some ==> #[trigger] serviceable_total(
                    self@.balances, listed[j].id) <= i64::MAX,
        {
            assert(listed.take(i + 1).drop_last() =~= listed.take(i as int));
            if let Some(rp) = items[i].reorder_point {
                match self.serviceable_stock(items[i].id) {
                    Some(total) => {
                        if total <= rp {
                            out.push((items[i].duplicate(), total));
                        }
                    },
                    None => {
                        proof {
                            lemma_listed_item(listed, self@.items, i as int);
                        }
                        return Err(StoremanError::Database("integer overflow".to_string()));
                    },
                }
            }
        }
        assert(listed.take(n as int) =~= listed);
        proof {
            if reorder_total_overflows(self@) {
                let k = choose|k: int|
                    0 <= k < self@.items.len() && self@.items[k].active && self@.items[k].reorder_point is Some
                        && #[trigger] serviceable_total(self@.balances, self@.items[k].id) > i64::MAX;
                lemma_item_listed(listed, self@.items, k);
            }
        }
        Ok(out)
    }
}

/// Serviceable stock only grows as rows are added.
proof fn lemma_serviceable_total_grows(rows: Seq<StockBalance>, item_id: u128, k: int)
    requires
        0 <= k <= rows.len(),
        forall|j: int| 0 <= j < rows.len() ==> #[trigger] rows[j].quantity >= 0,
    ensures
        serviceable_total(rows.take(k), item_id) <= serviceable_total(rows, item_id),
    decreases rows.len() - k,
{
    if k < rows.len() {
        lemma_serviceable_total_grows(rows, item_id, k + 1);
        assert(rows.take(k + 1).drop_last() =~= rows.take(k));
    } else {
        assert(rows.take(k) =~= rows);
    }
}

/// A listed item is an active item of the table.
proof fn lemma_listed_item(listed: Seq<Item>, items: Seq<Item>, i: int)
    requires
        listing(listed, items, item_kept(true), item_key(), false),
        0 <= i < listed.len(),
    ensures
        exists|k: int| 0 <= k < items.len() && items[k] == listed[i] && items[k].active,
{
    crate::order::lemma_select_kept(items, item_kept(true));
    let sel = select(items, item_kept(true));
    let p = choose|p: Seq<int>|
        #[trigger] crate::order::is_permutation(p, sel.len() as int) && listed.len() == sel.len() && forall|j: int|
            0 <= j < listed.len() ==> listed[j] == sel[p[j]];
    assert(listed[i] == sel[p[i]]);
    assert(item_kept(true)(sel[p[i]]));
    lemma_selected_in(items, item_kept(true), p[i]);
    let k = choose|k: int| 0 <= k < items.len() && items[k] == sel[p[i]];
    assert(items[k].active);
}

/// An active item of the table is listed.
proof fn lemma_item_listed(listed: Seq<Item>, items: Seq<Item>, k: int)
    requires
        listing(listed, items, item_kept(true), item_key(), false),
        0 <= k < items.len(),
        items[k].active,
    ensures
        exists|i: int| 0 <= i < listed.len() && listed[i] == items[k],
{
    lemma_kept_selected(items, item_kept(true), k);
    let sel = select(items, item_kept(true));
    let m = choose|m: int| 0 <= m < sel.len() && sel[m] == items[k];
    let p = choose|p: Seq<int>|
        #[trigger] crate::order::is_permutation(p, sel.len() as int) && listed.len() == sel.len() && forall|j: int|
            0 <= j < listed.len() ==> listed[j] == sel[p[j]];
    assert(crate::order::occurs(p, m));
    let i = choose|i: int| 0 <= i < p.len() && #[trigger] p[i] == m;
    assert(listed[i] == sel[m]);
}

/// `i` is the first position of an item with the identifier.
proof fn lemma_first_item(v: DatabaseView, id: u128, i: int)
    requires
        0 <= i < v.items.len(),
        v.items[i].id == id,
        forall|j: int| 0 <= j < i ==> v.items[j].id != id,
    ensures
        first_item(v, id) == v.items[i],
{
    let k = choose|k: int| 0 <= k < v.items.len() && v.items[k].id == id && forall|j: int| 0 <= j < k ==> #[trigger] v.items[j].id != id;
    assert(0 <= k < v.items.len() && v.items[k].id == id);
    if k < i {
        assert(v.items[k].id != id);
    }
    if k > i {
        assert(v.items[i].id != id);
    }
}

/// `i` is the first position of a location with the identifier.
proof fn lemma_first_location(v: DatabaseView, id: u128, i: int)
    requires
        0 <= i < v.locations.len(),
        v.locations[i].id == id,
        forall|j: int| 0 <= j < i ==> v.locations[j].id != id,
    ensures
        first_location(v, id) == v.locations[i],
{
    let k = choose|k: int| 0 <= k < v.locations.len() && v.locations[k].id == id && forall|j: int| 0 <= j < k ==> #[trigger] v.locations[j].id != id;
    assert(0 <= k < v.locations.len() && v.locations[k].id == id);
    if k < i {
        assert(v.locations[k].id != id);
    }
    if k > i {
        assert(v.locations[i].id != id);
    }
}

impl Database {
    /// The export fields of the balance rows that join with their item and location.
    #[verifier::rlimit(30)]
    fn stock_export_rows(&self) -> (r: Vec<Vec<String>>)
        ensures
            r@.len() == stock_rows(self@).len(),
            forall|j: int| 0 <= j < r@.len() ==> #[trigger] row_texts(r@[j]) == stock_rows(self@)[j],
            forall|j: int| 0 <= j < r@.len() ==> (#[trigger] r@[j])@.len() == 6,
    {
        reveal(stock_rows);
        let ghost v = self@;
        let mut rows: Vec<Vec<String>> = Vec::new();
        let n = self.balances.len();
        for i in 0..n
            invariant
                n == v.balances.len(),
                v == self@,
                rows@.len() == select(v.balances.take(i as int), stock_joinable(v)).len(),
                forall|j: int| 0 <= j < rows@.len() ==> #[trigger] row_texts(rows@[j]) == stock_row_of(v,
                    select(v.balances.take(i as int), stock_joinable(v))[j]),
                forall|j: int| 0 <= j < rows@.len() ==> (#[trigger] rows@[j])@.len() == 6,
        {
            proof {
                lemma_select_step(v.balances, stock_joinable(v), i as int);
            }
            let b = &self.balances[i];
            let found_item = self.find_item(b.item_id);
            let found_location = self.find_location(b.location_id);
            match found_item {
                Some(ii) => match found_location {
                    Some(li) => {
                        proof {
                            lemma_first_item(v, b.item_id, ii as int);
                            lemma_first_location(v, b.location_id, li as int);
                        }
                        let f = stock_line(b, &self.items[ii], &self.locations[li]);
                        rows.push(f);
                    },
                    None => {},
                },
                None => {},
            }
        }
        assert(v.balances.take(n as int) =~= v.balances);
        rows
    }

    /// The stock export: a header, then one record per balance row with its item and
    /// location, by item description.
    #[verifier::rlimit(30)]
    pub fn export_stock_csv(&self) -> (r: crate::error::Result<String>)
        ensures
            r matches Ok(text) && exists|rows: Seq<Seq<Seq<char>>>|
                rearranges(rows, stock_rows(self@)) && sorted_by(rows, description_key(), false)
                    && text@ == csv_line(stock_header()) + csv_lines(rows),
    {
        let rows = self.stock_export_rows();
        let keys = second_field_keys(&rows);
        assert forall|j: int| 0 <= j < rows@.len() implies texts(#[trigger] keys@[j]@) == description_key()(
            row_texts(rows@[j])) by {
            assert(row_texts(rows@[j])[1] == rows@[j]@[1]@);
        }
        let ghost vkey = |r: Vec<String>| description_key()(row_texts(r));
        let sorted = sort_rows(rows, keys, false, Ghost(vkey));
        let ghost to_texts = |r: Vec<String>| row_texts(r);
        proof {
            assert(rows_texts(rows@) =~= stock_rows(self@));
            lemma_rearranges_map(sorted@, rows@, to_texts);
            assert(sorted@.map_values(to_texts) =~= rows_texts(sorted@));
            assert(rows@.map_values(to_texts) =~= rows_texts(rows@));
            lemma_sorted_map(sorted@, to_texts, vkey, description_key(), false);
            assert forall|j: int| 0 <= j < sorted@.len() implies (#[trigger] rows_texts(sorted@)[j]).len() >= 2 by {
                lemma_rearranges_member(rows_texts(sorted@), rows_texts(rows@), j);
                let k = choose|k: int| 0 <= k < rows@.len() && rows_texts(sorted@)[j] == rows_texts(rows@)[k];
                assert(rows@[k]@.len() == 6);
            }
        }
        let header = header_row(Ghost(stock_header()), "Item ID", "Description", "Location", "Condition",
            "Quantity", "Updated At", None);
        Ok(write_csv(&header, &sorted))
    }

    /// The transaction export: a header, then one record for each of the latest
    /// transactions, at most `limit` of them, latest first.
    pub fn export_transactions_csv(&self, limit: usize) -> (r: crate::error::Result<String>)
        ensures
            r matches Ok(text) && exists|all: Seq<TransactionView>|
                rearranges(all, self@.transactions) && sorted_by(all, transaction_key(), true)
                    && text@ == csv_line(transaction_header()) + csv_lines(all.take(
                    limit_count(limit, self@.transactions.len() as int),
                ).map_values(|t: TransactionView| transaction_fields_text(t))),
    {
        let txs = match self.list_transactions(limit) {
            Ok(s) => s,
            Err(e) => return Err(e),
        };
        let mut rows: Vec<Vec<String>> = Vec::new();
        let n = txs.len();
        for i in 0..n
            invariant
                n == txs@.len(),
                rows_texts(rows@) == views(txs@).take(i as int).map_values(|t: TransactionView| transaction_fields_text(t)),
        {
            let t = &txs[i];
            let mut f: Vec<String> = Vec::new();
            f.push(id_text(t.id));
            f.push(t.transaction_type.to_string());
            f.push(t.item_description.clone());
            f.push(int_to_text(t.quantity));
            f.push(t.user_name.clone());
            f.push(t.reference.clone());
            f.push(t.timestamp.clone());
            assert(texts(f@) =~= transaction_fields_text(t@));
            let ghost before = rows@;
            rows.push(f);
            assert(rows_texts(rows@) =~= rows_texts(before).push(row_texts(f)));
            assert(views(txs@).take(i + 1).map_values(|t: TransactionView| transaction_fields_text(t)) =~= views(txs@).take(
                i as int).map_values(|t: TransactionView| transaction_fields_text(t)).push(transaction_fields_text(txs@[i as int]@)));
        }
        assert(views(txs@).take(n as int) =~= views(txs@));
        assert forall|j: int| 0 <= j < rows@.len() implies (#[trigger] rows_texts(rows@)[j]).len() >= 2 by {
            assert(rows_texts(rows@)[j] == transaction_fields_text(views(txs@)[j]));
        }
        let header = header_row(Ghost(transaction_header()), "ID", "Type", "Item", "Qty", "User", "Reference",
            Some("Timestamp"));
        Ok(write_csv(&header, &rows))
    }
}

} // verus!

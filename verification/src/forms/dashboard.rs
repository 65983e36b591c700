//! The dashboard: counts and alert lines.
use vstd::prelude::*;
use crate::db::Database;
use crate::db::listings::{item_kept, custody_active, limit_count};
use crate::models::item::Item;
use crate::models::lot::LotRecord;
use crate::models::user::{User, role_text};
use crate::order::select;
use crate::text::{int_text, nat_text, push_int_text, usize_to_text};

verus! {

/// The number of active items, as text.
pub fn item_count_text(db: &Database) -> (r: String)
    ensures
        r@ == nat_text(select(db@.items, item_kept(true)).len()),
{
    match db.list_items(true) {
        Ok(v) => usize_to_text(v.len()),
        Err(_) => "—".to_string(),
    }
}

/// The number of recent transactions (at most 1000), as text.
pub fn transaction_count_text(db: &Database) -> (r: String)
    ensures
        r@ == nat_text(limit_count(1000, db@.transactions.len() as int) as nat),
{
    match db.list_transactions(1000) {
        Ok(v) => {
            assert(v@.map_values(|t: crate::models::transaction::Transaction| t@).len() == v@.len());
            usize_to_text(v.len())
        },
        Err(_) => "—".to_string(),
    }
}

/// The number of active custody records, as text.
pub fn custody_count_text(db: &Database) -> (r: String)
    ensures
        r@ == nat_text(select(db@.custody, custody_active()).len()),
{
    match db.list_active_custody() {
        Ok(v) => usize_to_text(v.len()),
        Err(_) => "—".to_string(),
    }
}

/// The alert line of an item at or below its reorder point.
pub open spec fn reorder_alert_text(item: Item, stock: i64) -> Seq<char> {
    "⚠ "@ + item.description@ + " — Stock: "@ + int_text(stock as int) + " (Reorder at: "@ + int_text(
        match item.reorder_point {
            Some(p) => p as int,
            None => 0,
        },
    ) + ")"@
}

/// The alert line of an item at or below its reorder point.
pub fn reorder_alert_line(item: &Item, stock: i64) -> (r: String)
    ensures
        r@ == reorder_alert_text(*item, stock),
{
    let mut r = "⚠ ".to_string();
    r.append(item.description.as_str());
    r.append(" — Stock: ");
    push_int_text(stock, &mut r);
    r.append(" (Reorder at: ");
    let p: i64 = match item.reorder_point {
        Some(p) => p,
        None => 0,
    };
    push_int_text(p, &mut r);
    r.append(")");
    r
}

/// The alert line of a lot about to expire.
pub open spec fn expiring_lot_text(lot: LotRecord, days: i64) -> Seq<char> {
    "  Lot "@ + lot.lot_number@ + " — expires in "@ + int_text(days as int) + " days"@
}

/// The alert line of a lot about to expire, `days` days from now.
pub fn expiring_lot_line(lot: &LotRecord, days: i64) -> (r: String)
    ensures
        r@ == expiring_lot_text(*lot, days),
{
    let mut r = "  Lot ".to_string();
    r.append(lot.lot_number.as_str());
    r.append(" — expires in ");
    push_int_text(days, &mut r);
    r.append(" days");
    r
}

/// The line naming the signed-in user.
pub fn signed_in_line(user: &User) -> (r: String)
    ensures
        r@ == "Logged in as: "@ + user.display_name@ + " ("@ + role_text(user.role) + ")"@,
{
    let mut r = "Logged in as: ".to_string();
    r.append(user.display_name.as_str());
    r.append(" (");
    let t = user.role.to_string();
    r.append(t.as_str());
    r.append(")");
    r
}

} // verus!

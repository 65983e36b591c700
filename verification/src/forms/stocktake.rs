//! The stocktake form.
use vstd::prelude::*;
use crate::db::{Database, DatabaseView, balance_of};
use crate::models::balance::lemma_condition_text_round_trip;
use crate::forms::{error_message, error_status, parse_condition, read_i64, status_is, typed_i64};
use crate::models::balance::parses_to_condition;
use crate::models::user::User;
use crate::transactions::Stamp;
use crate::transactions::stocktake::{StocktakeCountParams, apply_stocktake_adjustment, count_outcome,
    record_stocktake_count, stocktake_adjust_outcome};

verus! {

/// What the stocktake form holds.
pub struct StocktakeState {
    pub selected_item_id: Option<u128>,
    pub selected_location_id: Option<u128>,
    pub condition: String,
    pub counted_qty: String,
    pub notes: String,
    pub apply_adjustment: bool,
    pub status_msg: Option<String>,
}

/// The stocktake form as it opens: condition `Serviceable`, count `0`, no adjustment.
pub open spec fn is_blank_stocktake(s: StocktakeState) -> bool {
    &&& s.selected_item_id is None
    &&& s.selected_location_id is None
    &&& s.condition@ == "Serviceable"@
    &&& s.counted_qty@ == "0"@
    &&& s.notes@ == Seq::<char>::empty()
    &&& !s.apply_adjustment
}

impl Default for StocktakeState {
    fn default() -> (r: Self)
        ensures
            is_blank_stocktake(r),
            r.status_msg is None,
    {
        StocktakeState {
            selected_item_id: None,
            selected_location_id: None,
            condition: "Serviceable".to_string(),
            counted_qty: "0".to_string(),
            notes: String::new(),
            apply_adjustment: false,
            status_msg: None,
        }
    }
}

/// The count a checked form asks for.
pub open spec fn count_form_params(s: StocktakeState, p: StocktakeCountParams) -> bool {
    &&& s.selected_item_id == Some(p.item_id)
    &&& s.selected_location_id == Some(p.location_id)
    &&& parses_to_condition(s.condition@, p.condition)
    &&& p.counted_qty == typed_i64(s.counted_qty@, -1i64)
    &&& p.notes == s.notes
}

/// The form shows the message, all else unchanged.
pub open spec fn stocktake_shows(old: StocktakeState, new: StocktakeState, m: Seq<char>) -> bool {
    status_is(new.status_msg, m) && new == (StocktakeState { status_msg: new.status_msg, ..old })
}

/// The outcome of submitting the stocktake form: an item, a location and a count of
/// zero or more are asked for in turn; then the count is recorded, or the balance is
/// adjusted to it when the form says so, and the form is cleared with a message, or
/// keeps its fields with the error.
pub open spec fn stocktake_form_outcome(
    old_db: DatabaseView,
    new_db: DatabaseView,
    user: User,
    old: StocktakeState,
    new: StocktakeState,
) -> bool {
    let q = typed_i64(old.counted_qty@, -1i64);
    if old.selected_item_id is None {
        stocktake_shows(old, new, "✗ Please select an item"@) && new_db == old_db
    } else if old.selected_location_id is None {
        stocktake_shows(old, new, "✗ Please select a location"@) && new_db == old_db
    } else if q < 0 {
        stocktake_shows(old, new, "✗ Quantity must be >= 0"@) && new_db == old_db
    } else {
        exists|p: StocktakeCountParams, st: Stamp, r: crate::error::Result<crate::models::transaction::Transaction>|
            #![trigger count_form_params(old, p), count_outcome(old_db, new_db, user, p, st, r)]
            #![trigger count_form_params(old, p), stocktake_adjust_outcome(old_db, new_db, user, p, st, r)]
            count_form_params(old, p) && (if old.apply_adjustment {
                stocktake_adjust_outcome(old_db, new_db, user, p, st, r)
            } else {
                count_outcome(old_db, new_db, user, p, st, r)
            }) && match r {
                Ok(_) => is_blank_stocktake(new) && status_is(new.status_msg, if old.apply_adjustment {
                    "✓ Stocktake count recorded and adjustment applied"@
                } else {
                    "✓ Stocktake count recorded"@
                }),
                Err(e) => stocktake_shows(old, new, error_message(e)),
            }
    }
}

/// Submits the stocktake form.
pub fn submit_stocktake(db: &mut Database, user: &User, state: &mut StocktakeState)
    requires
        old(db).wf(),
    ensures
        final(db).wf(),
        stocktake_form_outcome(old(db)@, final(db)@, *user, *old(state), *final(state)),
{
    let qty = read_i64(state.counted_qty.as_str(), -1);
    let (item_id, location_id) = match (state.selected_item_id, state.selected_location_id) {
        (None, _) => {
            state.status_msg = Some("✗ Please select an item".to_string());
            return;
        },
        (Some(_), None) => {
            state.status_msg = Some("✗ Please select a location".to_string());
            return;
        },
        (Some(i), Some(l)) => (i, l),
    };
    if qty < 0 {
        state.status_msg = Some("✗ Quantity must be >= 0".to_string());
        return;
    }
    let condition = parse_condition(state.condition.as_str());
    let params = StocktakeCountParams {
        item_id,
        location_id,
        condition,
        counted_qty: qty,
        notes: state.notes.clone(),
    };
    let ghost gp = params;
    proof {
        crate::db::balances::lemma_balances_stay_nonnegative(db@.balances);
        crate::db::balances::lemma_balance_index_range(db@.balances, item_id, location_id,
            crate::models::balance::condition_text(condition));
    }
    assert(count_form_params(*old(state), gp));
    let adjust = state.apply_adjustment;
    let r = if adjust {
        apply_stocktake_adjustment(db, user, params)
    } else {
        record_stocktake_count(db, user, params)
    };
    match r {
        Ok(_) => {
            *state = StocktakeState::default();
            state.status_msg = Some(if adjust {
                "✓ Stocktake count recorded and adjustment applied".to_string()
            } else {
                "✓ Stocktake count recorded".to_string()
            });
        },
        Err(e) => {
            state.status_msg = Some(error_status(&e));
        },
    }
}

/// The balance the form's count is compared with, the typed count (zero when none is
/// typed) and their difference, once an item and a location are chosen.
pub fn count_preview(db: &Database, state: &StocktakeState) -> (r: Option<(i64, i64, i128)>)
    requires
        db.wf(),
    ensures
        match r {
            Some((e, c, v)) => state.selected_item_id is Some && state.selected_location_id is Some
                && e == balance_of(db@.balances, state.selected_item_id->Some_0,
                state.selected_location_id->Some_0, state.condition@) && c == typed_i64(state.counted_qty@, 0)
                && v == c - e,
            None => state.selected_item_id is None || state.selected_location_id is None,
        },
{
    let (item_id, location_id) = match (state.selected_item_id, state.selected_location_id) {
        (Some(i), Some(l)) => (i, l),
        _ => return None,
    };
    let condition = parse_condition(state.condition.as_str());
    proof {
        lemma_condition_text_round_trip(state.condition@, condition);
    }
    let expected = match db.get_balance(item_id, location_id, &condition) {
        Ok(e) => e,
        Err(_) => return None,
    };
    let counted = read_i64(state.counted_qty.as_str(), 0);
    Some((expected, counted, counted as i128 - expected as i128))
}

} // verus!

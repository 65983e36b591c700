//! The receipt form.
use vstd::prelude::*;
use crate::db::{Database, DatabaseView, has_item, balance_of};
use crate::forms::{error_message, error_status, parse_condition, read_i64, status_is, typed_i64};
use crate::models::balance::{lemma_condition_text_round_trip, parses_to_condition};
use crate::models::user::{User, role_can_transact};
use crate::text::{int_text, push_int_text};
use crate::transactions::Stamp;
use crate::transactions::receive::{ReceiveParams, receive, receive_outcome};

verus! {

/// What the receipt form holds.
pub struct ReceiveState {
    pub item_search: String,
    pub selected_item_id: Option<u128>,
    pub selected_location_id: Option<u128>,
    pub quantity: String,
    pub condition: String,
    pub lot_number: String,
    pub reference: String,
    pub notes: String,
    pub status_msg: Option<String>,
}

/// The receipt form as it opens: quantity `1`, condition `Serviceable`, nothing else.
pub open spec fn is_blank_receive(s: ReceiveState) -> bool {
    &&& s.item_search@ == Seq::<char>::empty()
    &&& s.selected_item_id is None
    &&& s.selected_location_id is None
    &&& s.quantity@ == "1"@
    &&& s.condition@ == "Serviceable"@
    &&& s.lot_number@ == Seq::<char>::empty()
    &&& s.reference@ == Seq::<char>::empty()
    &&& s.notes@ == Seq::<char>::empty()
}

impl Default for ReceiveState {
    fn default() -> (r: Self)
        ensures
            is_blank_receive(r),
            r.status_msg is None,
    {
        ReceiveState {
            item_search: String::new(),
            selected_item_id: None,
            selected_location_id: None,
            quantity: "1".to_string(),
            condition: "Serviceable".to_string(),
            lot_number: String::new(),
            reference: String::new(),
            notes: String::new(),
            status_msg: None,
        }
    }
}

/// The receipt a checked form asks for: the chosen item and location, the typed
/// quantity, the chosen condition, the lot number when one is typed, no expiry date,
/// no serial numbers, and the reference and notes.
pub open spec fn receive_form_params(s: ReceiveState, p: ReceiveParams) -> bool {
    &&& s.selected_item_id == Some(p.item_id)
    &&& s.selected_location_id == Some(p.to_location_id)
    &&& p.quantity == typed_i64(s.quantity@, 0)
    &&& parses_to_condition(s.condition@, p.condition)
    &&& if s.lot_number@.len() == 0 {
        p.lot_number is None
    } else {
        p.lot_number == Some(s.lot_number)
    }
    &&& p.expiry_date is None
    &&& p.serial_numbers@.len() == 0
    &&& p.reference == s.reference
    &&& p.notes == s.notes
}

/// The form shows the message, all else unchanged.
pub open spec fn receive_shows(old: ReceiveState, new: ReceiveState, m: Seq<char>) -> bool {
    status_is(new.status_msg, m) && new == (ReceiveState { status_msg: new.status_msg, ..old })
}

/// The outcome of submitting the receipt form: an item, a location and a quantity
/// above zero are asked for in turn; then the receipt is made, and the form is
/// cleared with a message of the quantity received, or keeps its fields with the
/// error.
pub open spec fn receive_form_outcome(
    old_db: DatabaseView,
    new_db: DatabaseView,
    user: User,
    old: ReceiveState,
    new: ReceiveState,
) -> bool {
    let q = typed_i64(old.quantity@, 0);
    if old.selected_item_id is None {
        receive_shows(old, new, "✗ Please select an item"@) && new_db == old_db
    } else if old.selected_location_id is None {
        receive_shows(old, new, "✗ Please select a location"@) && new_db == old_db
    } else if q <= 0 {
        receive_shows(old, new, "✗ Quantity must be > 0"@) && new_db == old_db
    } else {
        exists|p: ReceiveParams, st: Stamp, r: crate::error::Result<crate::models::transaction::Transaction>|
            #[trigger] receive_outcome(old_db, new_db, user, p, st, r) && receive_form_params(old, p)
                && match r {
                Ok(_) => is_blank_receive(new) && status_is(new.status_msg, "✓ Received "@ + int_text(q as int)
                    + " units successfully"@),
                Err(e) => receive_shows(old, new, error_message(e)),
            }
    }
}

/// The stock a checked form would receive fits in 64 bits.
pub open spec fn receive_form_in_range(v: DatabaseView, user: User, s: ReceiveState) -> bool {
    (s.selected_item_id matches Some(i) && s.selected_location_id matches Some(l) && typed_i64(s.quantity@, 0)
        > 0 && role_can_transact(user.role) && has_item(v, i)) ==> balance_of(v.balances,
        s.selected_item_id->Some_0, s.selected_location_id->Some_0, s.condition@) + typed_i64(s.quantity@, 0)
        <= i64::MAX
}

/// Submits the receipt form.
pub fn submit_receive(db: &mut Database, user: &User, state: &mut ReceiveState)
    requires
        old(db).wf(),
        receive_form_in_range(old(db)@, *user, *old(state)),
    ensures
        final(db).wf(),
        receive_form_outcome(old(db)@, final(db)@, *user, *old(state), *final(state)),
{
    let qty = read_i64(state.quantity.as_str(), 0);
    let (item_id, location_id) = match (state.selected_item_id, state.selected_location_id) {
        (None, _) => {
            state.status_msg = Some("✗ Please select an item".to_string());
            return;
        },
        (Some(_), None) => {
            state.status_msg = Some("✗ Please select a location".to_string());
            return;
        },
        (Some(i), Some(l)) => (i, l),
    };
    if qty <= 0 {
        state.status_msg = Some("✗ Quantity must be > 0".to_string());
        return;
    }
    let condition = parse_condition(state.condition.as_str());
    proof {
        lemma_condition_text_round_trip(state.condition@, condition);
    }
    let params = ReceiveParams {
        item_id,
        to_location_id: location_id,
        quantity: qty,
        condition,
        lot_number: if state.lot_number.as_str().is_empty() {
            None
        } else {
            Some(state.lot_number.clone())
        },
        expiry_date: None,
        serial_numbers: Vec::new(),
        reference: state.reference.clone(),
        notes: state.notes.clone(),
    };
    let ghost gp = params;
    assert(receive_form_params(*old(state), gp));
    let r = receive(db, user, params);
    match r {
        Ok(_) => {
            let mut m = "✓ Received ".to_string();
            push_int_text(qty, &mut m);
            m.append(" units successfully");
            *state = ReceiveState::default();
            state.status_msg = Some(m);
        },
        Err(e) => {
            state.status_msg = Some(error_status(&e));
        },
    }
}

} // verus!

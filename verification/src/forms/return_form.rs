//! The return form.
use vstd::prelude::*;
use crate::db::{Database, DatabaseView, has_item, balance_of};
use crate::forms::{error_message, error_status, parse_condition, status_is};
use crate::models::balance::{lemma_condition_text_round_trip, parses_to_condition};
use crate::models::custody::{CustodyRecord, CustodyStatus};
use crate::models::user::{User, role_can_transact};
use crate::transactions::Stamp;
use crate::transactions::returning::{ReturnParams, process_return, return_outcome};

verus! {

/// What the return form holds.
pub struct ReturnsState {
    pub selected_custody_id: Option<u128>,
    pub selected_location_id: Option<u128>,
    pub condition: String,
    pub notes: String,
    pub status_msg: Option<String>,
}

/// The return form as it opens: condition `Serviceable`, nothing else.
pub open spec fn is_blank_return(s: ReturnsState) -> bool {
    &&& s.selected_custody_id is None
    &&& s.selected_location_id is None
    &&& s.condition@ == "Serviceable"@
    &&& s.notes@ == Seq::<char>::empty()
}

impl Default for ReturnsState {
    fn default() -> (r: Self)
        ensures
            is_blank_return(r),
            r.status_msg is None,
    {
        ReturnsState {
            selected_custody_id: None,
            selected_location_id: None,
            condition: "Serviceable".to_string(),
            notes: String::new(),
            status_msg: None,
        }
    }
}

/// `i` is the position of the first active custody record with the identifier.
pub open spec fn is_first_active(rows: Seq<CustodyRecord>, id: u128, i: int) -> bool {
    &&& 0 <= i < rows.len()
    &&& rows[i].id == id
    &&& rows[i].status == CustodyStatus::Active
    &&& forall|j: int| 0 <= j < i ==> !(#[trigger] rows[j].id == id && rows[j].status == CustodyStatus::Active)
}

/// The first active custody record with the identifier, if any.
pub open spec fn active_custody(v: DatabaseView, id: u128) -> Option<CustodyRecord> {
    if exists|i: int| #[trigger] is_first_active(v.custody, id, i) {
        Some(v.custody[choose|i: int| #[trigger] is_first_active(v.custody, id, i)])
    } else {
        None
    }
}

/// The return a checked form asks for: all of the custody record's quantity, back
/// to the chosen location in the chosen condition.
pub open spec fn return_form_params(s: ReturnsState, c: CustodyRecord, p: ReturnParams) -> bool {
    &&& p.custody_id == c.id
    &&& p.item_id == c.item_id
    &&& s.selected_location_id == Some(p.to_location_id)
    &&& p.quantity == c.quantity
    &&& parses_to_condition(s.condition@, p.condition)
    &&& p.notes == s.notes
}

/// The form shows the message, all else unchanged.
pub open spec fn return_shows(old: ReturnsState, new: ReturnsState, m: Seq<char>) -> bool {
    status_is(new.status_msg, m) && new == (ReturnsState { status_msg: new.status_msg, ..old })
}

/// The outcome of submitting the return form: a custody record and a location are
/// asked for in turn; a record that is no longer active is passed over silently;
/// otherwise the return is processed, and the form is cleared with a message, or keeps
/// its fields with the error.
pub open spec fn return_form_outcome(
    old_db: DatabaseView,
    new_db: DatabaseView,
    user: User,
    old: ReturnsState,
    new: ReturnsState,
) -> bool {
    if old.selected_custody_id is None {
        return_shows(old, new, "✗ Please select a custody record"@) && new_db == old_db
    } else if old.selected_location_id is None {
        return_shows(old, new, "✗ Please select a return location"@) && new_db == old_db
    } else {
        match active_custody(old_db, old.selected_custody_id->Some_0) {
            None => new == old && new_db == old_db,
            Some(c) => exists|p: ReturnParams, st: Stamp, r: crate::error::Result<crate::models::transaction::Transaction>|
                #[trigger] return_outcome(old_db, new_db, user, p, st, r) && return_form_params(old, c, p) && match r {
                    Ok(_) => is_blank_return(new) && status_is(new.status_msg, "✓ Return processed successfully"@),
                    Err(e) => return_shows(old, new, error_message(e)),
                },
        }
    }
}

/// The stock a checked form would return fits in 64 bits.
pub open spec fn return_form_in_range(v: DatabaseView, user: User, s: ReturnsState) -> bool {
    forall|c: CustodyRecord|
        (s.selected_custody_id matches Some(id) && s.selected_location_id matches Some(l)
            && active_custody(v, id) == Some(c) && role_can_transact(user.role) && has_item(v, c.item_id))
            ==> #[trigger] c.quantity > i64::MIN && balance_of(v.balances, c.item_id, s.selected_location_id->Some_0,
            s.condition@) + c.quantity <= i64::MAX
}

impl Database {
    /// Position of the first active custody record with the identifier.
    fn find_active_custody(&self, id: u128) -> (r: Option<usize>)
        ensures
            match r {
                Some(i) => is_first_active(self@.custody, id, i as int) && active_custody(self@, id)
                    == Some(self@.custody[i as int]),
                None => active_custody(self@, id) is None,
            },
    {
        let n = self.custody.len();
        for i in 0..n
            invariant
                n == self@.custody.len(),
                forall|j: int| 0 <= j < i ==> !(#[trigger] self@.custody[j].id == id && self@.custody[j].status
                    == CustodyStatus::Active),
        {
            if self.custody[i].id == id && self.custody[i].status == CustodyStatus::Active {
                proof {
                    assert(is_first_active(self@.custody, id, i as int));
                    let k = choose|k: int| #[trigger] is_first_active(self@.custody, id, k);
                    if k < i {
                        assert(!(self@.custody[k].id == id && self@.custody[k].status == CustodyStatus::Active));
                    }
                    if k > i {
                        assert(!(self@.custody[i as int].id == id && self@.custody[i as int].status
                            == CustodyStatus::Active));
                    }
                }
                return Some(i);
            }
        }
        proof {
            if exists|k: int| #[trigger] is_first_active(self@.custody, id, k) {
                let k = choose|k: int| #[trigger] is_first_active(self@.custody, id, k);
                assert(!(self@.custody[k].id == id && self@.custody[k].status == CustodyStatus::Active));
            }
        }
        None
    }
}

/// Submits the return form.
pub fn submit_return(db: &mut Database, user: &User, state: &mut ReturnsState)
    requires
        old(db).wf(),
        return_form_in_range(old(db)@, *user, *old(state)),
    ensures
        final(db).wf(),
        return_form_outcome(old(db)@, final(db)@, *user, *old(state), *final(state)),
{
    let (custody_id, location_id) = match (state.selected_custody_id, state.selected_location_id) {
        (None, _) => {
            state.status_msg = Some("✗ Please select a custody record".to_string());
            return;
        },
        (Some(_), None) => {
            state.status_msg = Some("✗ Please select a return location".to_string());
            return;
        },
        (Some(c), Some(l)) => (c, l),
    };
    let c = match db.find_active_custody(custody_id) {
        Some(i) => db.custody[i].duplicate(),
        None => return,
    };
    let condition = parse_condition(state.condition.as_str());
    proof {
        lemma_condition_text_round_trip(state.condition@, condition);
        assert(c.quantity > i64::MIN || !(role_can_transact(user.role) && has_item(db@, c.item_id)));
    }
    let params = ReturnParams {
        custody_id: c.id,
        item_id: c.item_id,
        to_location_id: location_id,
        quantity: c.quantity,
        condition,
        notes: state.notes.clone(),
    };
    let ghost gp = params;
    assert(return_form_params(*old(state), c, gp));
    let r = process_return(db, user, params);
    match r {
        Ok(_) => {
            *state = ReturnsState::default();
            state.status_msg = Some("✓ Return processed successfully".to_string());
        },
        Err(e) => {
            state.status_msg = Some(error_status(&e));
        },
    }
}

} // verus!

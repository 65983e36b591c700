//! The issue form.
use vstd::prelude::*;
use crate::db::{Database, DatabaseView};
use crate::forms::{error_message, error_status, parse_condition, read_i64, status_is, typed_i64};
use crate::forms::input::{trimmed, trim_text};
use crate::models::balance::parses_to_condition;
use crate::models::user::User;
use crate::text::{int_text, push_int_text};
use crate::transactions::Stamp;
use crate::transactions::issue::{IssueParams, issue, issue_outcome};

verus! {

/// What the issue form holds.
pub struct IssueState {
    pub selected_item_id: Option<u128>,
    pub selected_location_id: Option<u128>,
    pub quantity: String,
    pub condition: String,
    pub custodian_name: String,
    pub rank: String,
    pub unit: String,
    pub reference: String,
    pub notes: String,
    pub status_msg: Option<String>,
}

/// The issue form as it opens: quantity `1`, condition `Serviceable`, nothing else.
pub open spec fn is_blank_issue(s: IssueState) -> bool {
    &&& s.selected_item_id is None
    &&& s.selected_location_id is None
    &&& s.quantity@ == "1"@
    &&& s.condition@ == "Serviceable"@
    &&& s.custodian_name@ == Seq::<char>::empty()
    &&& s.rank@ == Seq::<char>::empty()
    &&& s.unit@ == Seq::<char>::empty()
    &&& s.reference@ == Seq::<char>::empty()
    &&& s.notes@ == Seq::<char>::empty()
}

impl Default for IssueState {
    fn default() -> (r: Self)
        ensures
            is_blank_issue(r),
            r.status_msg is None,
    {
        IssueState {
            selected_item_id: None,
            selected_location_id: None,
            quantity: "1".to_string(),
            condition: "Serviceable".to_string(),
            custodian_name: String::new(),
            rank: String::new(),
            unit: String::new(),
            reference: String::new(),
            notes: String::new(),
            status_msg: None,
        }
    }
}

/// The issue a checked form asks for.
pub open spec fn issue_form_params(s: IssueState, p: IssueParams) -> bool {
    &&& s.selected_item_id == Some(p.item_id)
    &&& s.selected_location_id == Some(p.from_location_id)
    &&& p.quantity == typed_i64(s.quantity@, 0)
    &&& parses_to_condition(s.condition@, p.condition)
    &&& p.custodian_name == s.custodian_name
    &&& p.rank == s.rank
    &&& p.unit == s.unit
    &&& p.reference == s.reference
    &&& p.notes == s.notes
}

/// The form shows the message, all else unchanged.
pub open spec fn issue_shows(old: IssueState, new: IssueState, m: Seq<char>) -> bool {
    status_is(new.status_msg, m) && new == (IssueState { status_msg: new.status_msg, ..old })
}

/// The outcome of submitting the issue form: an item, a location, a quantity above
/// zero and a custodian name that is not blank are asked for in turn; then the issue
/// is made, and the form is cleared with a message of the quantity issued, or keeps
/// its fields with the error.
pub open spec fn issue_form_outcome(
    old_db: DatabaseView,
    new_db: DatabaseView,
    user: User,
    old: IssueState,
    new: IssueState,
) -> bool {
    let q = typed_i64(old.quantity@, 0);
    if old.selected_item_id is None {
        issue_shows(old, new, "✗ Please select an item"@) && new_db == old_db
    } else if old.selected_location_id is None {
        issue_shows(old, new, "✗ Please select a location"@) && new_db == old_db
    } else if q <= 0 {
        issue_shows(old, new, "✗ Quantity must be > 0"@) && new_db == old_db
    } else if trimmed(old.custodian_name@).len() == 0 {
        issue_shows(old, new, "✗ Custodian name is required"@) && new_db == old_db
    } else {
        exists|p: IssueParams, st: Stamp, r: crate::error::Result<crate::models::transaction::Transaction>|
            #[trigger] issue_outcome(old_db, new_db, user, p, st, r) && issue_form_params(old, p) && match r {
                Ok(_) => is_blank_issue(new) && status_is(new.status_msg, "✓ Issued "@ + int_text(q as int)
                    + " units successfully"@),
                Err(e) => issue_shows(old, new, error_message(e)),
            }
    }
}

/// Submits the issue form.
pub fn submit_issue(db: &mut Database, user: &User, state: &mut IssueState)
    requires
        old(db).wf(),
    ensures
        final(db).wf(),
        issue_form_outcome(old(db)@, final(db)@, *user, *old(state), *final(state)),
{
    let qty = read_i64(state.quantity.as_str(), 0);
    let (item_id, location_id) = match (state.selected_item_id, state.selected_location_id) {
        (None, _) => {
            state.status_msg = Some("✗ Please select an item".to_string());
            return;
        },
        (Some(_), None) => {
            state.status_msg = Some("✗ Please select a location".to_string());
            return;
        },
        (Some(i), Some(l)) => (i, l),
    };
    if qty <= 0 {
        state.status_msg = Some("✗ Quantity must be > 0".to_string());
        return;
    }
    let name = trim_text(state.custodian_name.as_str());
    if name.as_str().is_empty() {
        state.status_msg = Some("✗ Custodian name is required".to_string());
        return;
    }
    let condition = parse_condition(state.condition.as_str());
    let params = IssueParams {
        item_id,
        from_location_id: location_id,
        quantity: qty,
        condition,
        custodian_name: state.custodian_name.clone(),
        rank: state.rank.clone(),
        unit: state.unit.clone(),
        reference: state.reference.clone(),
        notes: state.notes.clone(),
    };
    let ghost gp = params;
    proof {
        crate::db::balances::lemma_balances_stay_nonnegative(db@.balances);
        crate::db::balances::lemma_balance_index_range(db@.balances, item_id, location_id,
            crate::models::balance::condition_text(condition));
    }
    assert(issue_form_params(*old(state), gp));
    let r = issue(db, user, params);
    match r {
        Ok(_) => {
            let mut m = "✓ Issued ".to_string();
            push_int_text(qty, &mut m);
            m.append(" units successfully");
            *state = IssueState::default();
            state.status_msg = Some(m);
        },
        Err(e) => {
            state.status_msg = Some(error_status(&e));
        },
    }
}

} // verus!

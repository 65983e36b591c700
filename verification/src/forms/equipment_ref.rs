//! The equipment reference screen: filtering the catalogue and picking an item.
use vstd::prelude::*;
use crate::forms::input::{contains_text, lowercase, text_contains, to_lowercase};
use crate::models::equipment::{EquipmentItem, equipment_category_text, service_branch_text,
    equipment_status_text};
use crate::order::{select, lemma_select_step};
use crate::text::{nat_text, opt_text, text_eq, usize_to_text};

verus! {

/// What the equipment reference screen holds.
pub struct EquipmentRefState {
    pub search: String,
    pub category_filter: String,
    pub branch_filter: String,
    pub status_filter: String,
    pub selected_item_id: Option<u128>,
}

impl Default for EquipmentRefState {
    fn default() -> (r: Self)
        ensures
            r.search@ == Seq::<char>::empty(),
            r.category_filter@ == "All"@,
            r.branch_filter@ == "All"@,
            r.status_filter@ == "All"@,
            r.selected_item_id is None,
    {
        EquipmentRefState {
            search: String::new(),
            category_filter: "All".to_string(),
            branch_filter: "All".to_string(),
            status_filter: "All".to_string(),
            selected_item_id: None,
        }
    }
}

/// A filter that is `All` or the given text.
pub open spec fn filter_allows(filter: Seq<char>, value: Seq<char>) -> bool {
    filter == "All"@ || filter == value
}

/// An equipment item passes the filters: its category, branch and status are allowed,
/// and the lowercase search text is empty or occurs in its lowercase common name,
/// official designation or manufacturer.
pub open spec fn equipment_matches(e: EquipmentItem, s: EquipmentRefState) -> bool {
    let needle = lowercase(s.search@);
    &&& filter_allows(s.category_filter@, equipment_category_text(e.equipment_category))
    &&& filter_allows(s.branch_filter@, service_branch_text(e.service_branch))
    &&& filter_allows(s.status_filter@, equipment_status_text(e.status))
    &&& (needle.len() == 0 || contains_text(lowercase(e.common_name@), needle) || contains_text(
        lowercase(e.official_designation@),
        needle,
    ) || contains_text(lowercase(opt_text(e.manufacturer)), needle))
}

/// The equipment items that pass the screen's filters.
pub open spec fn equipment_filter(s: EquipmentRefState) -> spec_fn(EquipmentItem) -> bool {
    |e: EquipmentItem| equipment_matches(e, s)
}

/// A filter other than `All` keeps only equipment with exactly the chosen category,
/// service branch or status text; with every filter at `All`, an item is kept when
/// there is no search text or its lowercase common name, designation or manufacturer
/// contains the lowercase search text.
pub proof fn law_equipment_filters_keep_chosen(e: EquipmentItem, s: EquipmentRefState)
    ensures
        equipment_filter(s)(e) && s.branch_filter@ != "All"@ ==> service_branch_text(e.service_branch)
            == s.branch_filter@,
        equipment_filter(s)(e) && s.category_filter@ != "All"@ ==> equipment_category_text(
            e.equipment_category) == s.category_filter@,
        equipment_filter(s)(e) && s.status_filter@ != "All"@ ==> equipment_status_text(e.status)
            == s.status_filter@,
        s.branch_filter@ == "All"@ && s.category_filter@ == "All"@ && s.status_filter@ == "All"@
            && lowercase(s.search@).len() == 0 ==> equipment_filter(s)(e),
        s.branch_filter@ == "All"@ && s.category_filter@ == "All"@ && s.status_filter@ == "All"@ && (
            contains_text(lowercase(e.common_name@), lowercase(s.search@)) || contains_text(lowercase(
            e.official_designation@), lowercase(s.search@)) || contains_text(lowercase(opt_text(e.manufacturer)),
            lowercase(s.search@))) ==> equipment_filter(s)(e),
{
}

/// Whether a filter allows a value.
fn allows(filter: &String, value: &String) -> (r: bool)
    ensures
        r == filter_allows(filter@, value@),
{
    text_eq(filter.as_str(), "All") || text_eq(filter.as_str(), value.as_str())
}

/// The equipment items that pass the screen's filters, in order.
pub fn filter_equipment(items: &Vec<EquipmentItem>, state: &EquipmentRefState) -> (r: Vec<EquipmentItem>)
    ensures
        r@ == select(items@, equipment_filter(*state)),
{
    let needle = to_lowercase(state.search.as_str());
    let mut out: Vec<EquipmentItem> = Vec::new();
    let n = items.len();
    for k in 0..n
        invariant
            n == items@.len(),
            needle@ == lowercase(state.search@),
            out@ == select(items@.take(k as int), equipment_filter(*state)),
    {
        proof {
            lemma_select_step(items@, equipment_filter(*state), k as int);
        }
        let e = &items[k];
        let manufacturer = match &e.manufacturer {
            Some(m) => m.clone(),
            None => String::new(),
        };
        let text_ok = needle.as_str().is_empty() || text_contains(to_lowercase(e.common_name.as_str()).as_str(),
            needle.as_str()) || text_contains(to_lowercase(e.official_designation.as_str()).as_str(),
            needle.as_str()) || text_contains(to_lowercase(manufacturer.as_str()).as_str(), needle.as_str());
        let keep = allows(&state.category_filter, &e.equipment_category.to_string()) && allows(
            &state.branch_filter,
            &e.service_branch.to_string(),
        ) && allows(&state.status_filter, &e.status.to_string()) && text_ok;
        if keep {
            out.push(e.duplicate());
        }
    }
    assert(items@.take(n as int) =~= items@);
    out
}

/// Picks an item, or drops the pick when the item was already picked.
pub fn toggle_selection(state: &mut EquipmentRefState, id: u128)
    ensures
        final(state).selected_item_id == if old(state).selected_item_id == Some(id) {
            None
        } else {
            Some(id)
        },
        final(state).search == old(state).search,
        final(state).category_filter == old(state).category_filter,
        final(state).branch_filter == old(state).branch_filter,
        final(state).status_filter == old(state).status_filter,
{
    state.selected_item_id = if state.selected_item_id == Some(id) {
        None
    } else {
        Some(id)
    };
}

/// The first of the items with the picked identifier, if any item is picked.
pub fn selected_equipment(items: &Vec<EquipmentItem>, state: &EquipmentRefState) -> (r: Option<EquipmentItem>)
    ensures
        match r {
            Some(e) => state.selected_item_id == Some(e.id) && exists|i: int| 0 <= i < items@.len() && items@[i] == e
                && forall|j: int| 0 <= j < i ==> #[trigger] items@[j].id != e.id,
            None => state.selected_item_id is None || forall|i: int| 0 <= i < items@.len() ==> #[trigger] items@[i].id
                != state.selected_item_id->Some_0,
        },
{
    let id = match state.selected_item_id {
        Some(id) => id,
        None => return None,
    };
    let n = items.len();
    for k in 0..n
        invariant
            n == items@.len(),
            state.selected_item_id == Some(id),
            forall|j: int| 0 <= j < k ==> #[trigger] items@[j].id != id,
    {
        if items[k].id == id {
            return Some(items[k].duplicate());
        }
    }
    None
}

/// The count line above the list: `n item(s) (of total)`.
pub open spec fn count_label_text(shown: nat, total: nat) -> Seq<char> {
    nat_text(shown) + " item"@ + (if shown == 1 { ""@ } else { "s"@ }) + " (of "@ + nat_text(total) + ")"@
}

/// The count line above the list.
pub fn count_label(shown: usize, total: usize) -> (r: String)
    ensures
        r@ == count_label_text(shown as nat, total as nat),
{
    let mut r = usize_to_text(shown);
    r.append(" item");
    if shown != 1 {
        r.append("s");
    }
    r.append(" (of ");
    let t = usize_to_text(total);
    r.append(t.as_str());
    r.append(")");
    proof {
        reveal_strlit("");
    }
    r
}

} // verus!

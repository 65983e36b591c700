//! The item master screen: searching items, and the new / edit item form.
use vstd::prelude::*;
use crate::db::{Database, DatabaseView};
use crate::db::catalog::{create_item_outcome, update_item_outcome};
use crate::forms::{error_message, error_status, status_is};
use crate::forms::input::{contains_text, lowercase, text_contains, to_lowercase, trimmed, trim_text,
    i64_value, parse_i64};
use crate::models::item::{ControlledCategory, Item, item_type_from_text, item_type_text, parse_item_type};
use crate::order::{select, lemma_select_step};
use crate::text::{int_text, int_to_text, opt_text};

verus! {

/// What the item screen holds: the search text, and the item form.
pub struct ItemsState {
    pub search: String,
    pub selected_id: Option<u128>,
    pub show_form: bool,
    pub edit_item: Option<Item>,
    pub form_description: String,
    pub form_category: String,
    pub form_item_type: String,
    pub form_uoi: String,
    pub form_nsn: String,
    pub form_barcode: String,
    pub form_part_number: String,
    pub form_reorder: String,
    pub form_notes: String,
    pub status_msg: Option<String>,
}

/// The form fields as they are when cleared: type `Consumable`, unit `EA`, the rest
/// empty.
pub open spec fn form_cleared(s: ItemsState) -> bool {
    &&& s.form_description@ == Seq::<char>::empty()
    &&& s.form_category@ == Seq::<char>::empty()
    &&& s.form_item_type@ == "Consumable"@
    &&& s.form_uoi@ == "EA"@
    &&& s.form_nsn@ == Seq::<char>::empty()
    &&& s.form_barcode@ == Seq::<char>::empty()
    &&& s.form_part_number@ == Seq::<char>::empty()
    &&& s.form_reorder@ == Seq::<char>::empty()
    &&& s.form_notes@ == Seq::<char>::empty()
}

impl Default for ItemsState {
    fn default() -> (r: Self)
        ensures
            r.search@ == Seq::<char>::empty(),
            r.selected_id is None,
            !r.show_form,
            r.edit_item is None,
            form_cleared(r),
            r.status_msg is None,
    {
        ItemsState {
            search: String::new(),
            selected_id: None,
            show_form: false,
            edit_item: None,
            form_description: String::new(),
            form_category: String::new(),
            form_item_type: "Consumable".to_string(),
            form_uoi: "EA".to_string(),
            form_nsn: String::new(),
            form_barcode: String::new(),
            form_part_number: String::new(),
            form_reorder: String::new(),
            form_notes: String::new(),
            status_msg: None,
        }
    }
}

/// Clears the item form.
pub fn clear_form(state: &mut ItemsState)
    ensures
        form_cleared(*final(state)),
        final(state).search == old(state).search,
        final(state).selected_id == old(state).selected_id,
        final(state).show_form == old(state).show_form,
        final(state).edit_item == old(state).edit_item,
        final(state).status_msg == old(state).status_msg,
{
    state.form_description = String::new();
    state.form_category = String::new();
    state.form_item_type = "Consumable".to_string();
    state.form_uoi = "EA".to_string();
    state.form_nsn = String::new();
    state.form_barcode = String::new();
    state.form_part_number = String::new();
    state.form_reorder = String::new();
    state.form_notes = String::new();
}

/// The text of an optional number, empty when absent.
pub open spec fn opt_number_text(n: Option<i64>) -> Seq<char> {
    match n {
        Some(v) => int_text(v as int),
        None => Seq::empty(),
    }
}

/// Fills the item form from an item.
pub fn populate_form(state: &mut ItemsState, item: &Item)
    ensures
        final(state).form_description@ == item.description@,
        final(state).form_category@ == item.category@,
        final(state).form_item_type@ == item_type_text(item.item_type),
        final(state).form_uoi@ == item.unit_of_issue@,
        final(state).form_nsn@ == opt_text(item.nsn),
        final(state).form_barcode@ == opt_text(item.barcode),
        final(state).form_part_number@ == opt_text(item.part_number),
        final(state).form_reorder@ == opt_number_text(item.reorder_point),
        final(state).form_notes@ == item.notes@,
        final(state).search == old(state).search,
        final(state).selected_id == old(state).selected_id,
        final(state).show_form == old(state).show_form,
        final(state).edit_item == old(state).edit_item,
        final(state).status_msg == old(state).status_msg,
{
    state.form_description = item.description.clone();
    state.form_category = item.category.clone();
    state.form_item_type = item.item_type.to_string();
    state.form_uoi = item.unit_of_issue.clone();
    state.form_nsn = text_or_empty(&item.nsn);
    state.form_barcode = text_or_empty(&item.barcode);
    state.form_part_number = text_or_empty(&item.part_number);
    state.form_reorder = match item.reorder_point {
        Some(r) => int_to_text(r),
        None => String::new(),
    };
    state.form_notes = item.notes.clone();
}

/// The text of an optional string, empty when absent.
fn text_or_empty(o: &Option<String>) -> (r: String)
    ensures
        r@ == opt_text(*o),
{
    match o {
        Some(s) => s.clone(),
        None => String::new(),
    }
}

/// An optional text box: absent when nothing is typed, else the trimmed text.
pub open spec fn optional_field(typed: Seq<char>, field: Option<String>) -> bool {
    if typed.len() == 0 {
        field is None
    } else {
        field matches Some(f) && f@ == trimmed(typed)
    }
}

/// The item a checked form writes: the trimmed texts, the chosen type, no controlled
/// category, the typed reorder point when it reads as a number, no shelf life, the
/// notes, active; an edited item keeps its identifier, creation time and equipment
/// variant, a new one takes `id`, `now` and none.
pub open spec fn item_form_fields(i: Item, s: ItemsState, id: u128, now: String) -> bool {
    &&& i.description@ == trimmed(s.form_description@)
    &&& i.category@ == trimmed(s.form_category@)
    &&& i.item_type == item_type_from_text(s.form_item_type@)
    &&& i.unit_of_issue@ == trimmed(s.form_uoi@)
    &&& optional_field(s.form_nsn@, i.nsn)
    &&& optional_field(s.form_barcode@, i.barcode)
    &&& optional_field(s.form_part_number@, i.part_number)
    &&& i.controlled_category is NotControlled
    &&& i.reorder_point == i64_value(trimmed(s.form_reorder@))
    &&& i.shelf_life_days is None
    &&& i.notes == s.form_notes
    &&& i.active
    &&& i.updated_at == now
    &&& match s.edit_item {
        Some(e) => i.id == e.id && i.created_at == e.created_at && i.equipment_variant_id == e.equipment_variant_id,
        None => i.id == id && i.created_at == now && i.equipment_variant_id is None,
    }
}

/// The form shows the message, all else unchanged.
pub open spec fn items_shows(old: ItemsState, new: ItemsState, m: Seq<char>) -> bool {
    status_is(new.status_msg, m) && new == (ItemsState { status_msg: new.status_msg, ..old })
}

/// The outcome of saving the item form: a description that is not blank is asked for;
/// then the item is updated (when editing) or written as new, and the form closes with
/// a message, or stays with the error.
pub open spec fn save_item_outcome(
    old_db: DatabaseView,
    new_db: DatabaseView,
    old: ItemsState,
    new: ItemsState,
    id: u128,
    now: String,
) -> bool {
    if trimmed(old.form_description@).len() == 0 {
        items_shows(old, new, "✗ Description is required"@) && new_db == old_db
    } else {
        exists|i: Item, r: crate::error::Result<()>|
            #![trigger item_form_fields(i, old, id, now), update_item_outcome(old_db, new_db, i, now, r)]
            #![trigger item_form_fields(i, old, id, now), create_item_outcome(old_db, new_db, i, r)]
            item_form_fields(i, old, id, now) && (if old.edit_item is Some {
                update_item_outcome(old_db, new_db, i, now, r)
            } else {
                create_item_outcome(old_db, new_db, i, r)
            }) && match r {
                Ok(_) => status_is(new.status_msg, "✓ Item saved"@) && new == (ItemsState {
                    status_msg: new.status_msg,
                    show_form: false,
                    ..old
                }),
                Err(e) => items_shows(old, new, error_message(e)),
            }
    }
}

/// The text of an optional text box.
fn optional_text(typed: &String) -> (r: Option<String>)
    ensures
        optional_field(typed@, r),
{
    if typed.as_str().is_empty() {
        None
    } else {
        Some(trim_text(typed.as_str()))
    }
}

/// Saves the item form; a new item takes identifier `id`, and the item is stamped `now`.
pub fn save_item_at(db: &mut Database, state: &mut ItemsState, id: u128, now: &String)
    requires
        old(db).wf(),
    ensures
        final(db).wf(),
        save_item_outcome(old(db)@, final(db)@, *old(state), *final(state), id, *now),
{
    let description = trim_text(state.form_description.as_str());
    if description.as_str().is_empty() {
        state.status_msg = Some("✗ Description is required".to_string());
        return;
    }
    let reorder = trim_text(state.form_reorder.as_str());
    let (item_id, created_at, variant) = match &state.edit_item {
        Some(e) => (e.id, e.created_at.clone(), e.equipment_variant_id),
        None => (id, now.clone(), None),
    };
    let item = Item {
        id: item_id,
        barcode: optional_text(&state.form_barcode),
        nsn: optional_text(&state.form_nsn),
        part_number: optional_text(&state.form_part_number),
        description,
        category: trim_text(state.form_category.as_str()),
        item_type: parse_item_type(state.form_item_type.as_str()),
        unit_of_issue: trim_text(state.form_uoi.as_str()),
        controlled_category: ControlledCategory::NotControlled,
        reorder_point: parse_i64(reorder.as_str()),
        shelf_life_days: None,
        notes: state.form_notes.clone(),
        active: true,
        created_at,
        updated_at: now.clone(),
        equipment_variant_id: variant,
    };
    assert(item_form_fields(item, *old(state), id, *now));
    let r = if state.edit_item.is_some() {
        db.update_item_at(&item, now)
    } else {
        db.create_item(&item)
    };
    match r {
        Ok(()) => {
            state.status_msg = Some("✓ Item saved".to_string());
            state.show_form = false;
        },
        Err(e) => {
            state.status_msg = Some(error_status(&e));
        },
    }
}

/// Saves the item form with a fresh identifier for a new item and the current time.
pub fn save_item(db: &mut Database, state: &mut ItemsState)
    requires
        old(db).wf(),
    ensures
        final(db).wf(),
        exists|id: u128, now: String| #[trigger] save_item_outcome(old(db)@, final(db)@, *old(state),
            *final(state), id, now),
{
    let id = crate::ids::new_id();
    let now = crate::clock::current_timestamp();
    save_item_at(db, state, id, &now)
}

/// An item matches the lowercase search text: the text is empty, or occurs in the
/// lowercase description, the NSN, the barcode or the lowercase category.
pub open spec fn item_matches(i: Item, search_lower: Seq<char>) -> bool {
    search_lower.len() == 0 || contains_text(lowercase(i.description@), search_lower) || contains_text(
        opt_text(i.nsn),
        search_lower,
    ) || contains_text(opt_text(i.barcode), search_lower) || contains_text(lowercase(i.category@), search_lower)
}

/// The items that match a search.
pub open spec fn item_search(search: Seq<char>) -> spec_fn(Item) -> bool {
    |i: Item| item_matches(i, lowercase(search))
}

/// The item search keeps an item whose lowercase description, NSN, barcode or
/// lowercase category contains the lowercase search text, and keeps every item for an
/// empty search.
pub proof fn law_item_search_fields(i: Item, search: Seq<char>)
    ensures
        lowercase(search).len() == 0 ==> item_search(search)(i),
        contains_text(lowercase(i.category@), lowercase(search)) ==> item_search(search)(i),
        contains_text(lowercase(i.description@), lowercase(search)) ==> item_search(search)(i),
        (i.nsn matches Some(n) && contains_text(n@, lowercase(search))) ==> item_search(search)(i),
        (i.barcode matches Some(b) && contains_text(b@, lowercase(search))) ==> item_search(search)(i),
{
}

/// The items that match the search text, in order.
pub fn filter_items(items: &Vec<Item>, search: &str) -> (r: Vec<Item>)
    ensures
        r@ == select(items@, item_search(search@)),
{
    let needle = to_lowercase(search);
    let mut out: Vec<Item> = Vec::new();
    let n = items.len();
    for k in 0..n
        invariant
            n == items@.len(),
            needle@ == lowercase(search@),
            out@ == select(items@.take(k as int), item_search(search@)),
    {
        proof {
            lemma_select_step(items@, item_search(search@), k as int);
        }
        let it = &items[k];
        let keep = needle.as_str().is_empty() || text_contains(to_lowercase(it.description.as_str()).as_str(),
            needle.as_str()) || text_contains(text_or_empty(&it.nsn).as_str(), needle.as_str()) || text_contains(
            text_or_empty(&it.barcode).as_str(),
            needle.as_str(),
        ) || text_contains(to_lowercase(it.category.as_str()).as_str(), needle.as_str());
        if keep {
            out.push(it.duplicate());
        }
    }
    assert(items@.take(n as int) =~= items@);
    out
}

} // verus!

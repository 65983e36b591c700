//! The master equipment reference: equipment items, their variants and the NATO
//! references of the variants.
use vstd::prelude::*;
use crate::db::{Database, DatabaseView, has_equipment_item, has_equipment_variant, refused_by_store,
    foreign_key_failed};
use crate::error::StoremanError;
use crate::models::equipment::{EquipmentItem, EquipmentVariant, NatoReference, equipment_category_text};
use crate::order::{listing, rearranges, sorted_by, select, texts, sort_rows, key1, key2,
    lemma_select_step};

verus! {

/// The equipment items a listing keeps: the active ones, or all.
pub open spec fn equipment_kept(active_only: bool) -> spec_fn(EquipmentItem) -> bool {
    |e: EquipmentItem| !active_only || e.active
}

/// Equipment items are listed by category text, then common name.
pub open spec fn equipment_key() -> spec_fn(EquipmentItem) -> Seq<Seq<char>> {
    |e: EquipmentItem| seq![equipment_category_text(e.equipment_category), e.common_name@]
}

/// The variants of an equipment item.
pub open spec fn variant_of(equipment_id: u128) -> spec_fn(EquipmentVariant) -> bool {
    |v: EquipmentVariant| v.equipment_id == equipment_id
}

/// Variants are listed by name.
pub open spec fn variant_key() -> spec_fn(EquipmentVariant) -> Seq<Seq<char>> {
    |v: EquipmentVariant| seq![v.variant_name@]
}

/// The NATO references of a variant.
pub open spec fn reference_of(variant_id: u128) -> spec_fn(NatoReference) -> bool {
    |n: NatoReference| n.variant_id == variant_id
}

/// Every reference but those with the identifier.
pub open spec fn reference_other_than(id: u128) -> spec_fn(NatoReference) -> bool {
    |n: NatoReference| n.id != id
}

/// The outcome of writing a new equipment item.
pub open spec fn create_equipment_item_outcome(old: DatabaseView, new: DatabaseView, e: EquipmentItem,
    r: std::result::Result<(), StoremanError>) -> bool {
    if has_equipment_item(old, e.id) {
        refused_by_store(r, "UNIQUE constraint failed: equipment_items.id"@) && new == old
    } else {
        r is Ok && new == DatabaseView { equipment_items: old.equipment_items.push(e), ..old }
    }
}

/// The equipment table after every row of `e.id` takes the other fields of `e`.
pub open spec fn update_equipment_item_outcome(old: DatabaseView, new: DatabaseView, e: EquipmentItem) -> bool {
    &&& new.equipment_items.len() == old.equipment_items.len()
    &&& forall|i: int| 0 <= i < old.equipment_items.len() ==> #[trigger] new.equipment_items[i] == if old.equipment_items[i].id
        == e.id {
        e
    } else {
        old.equipment_items[i]
    }
    &&& new == DatabaseView { equipment_items: new.equipment_items, ..old }
}

/// The outcome of writing a new variant.
pub open spec fn create_variant_outcome(old: DatabaseView, new: DatabaseView, v: EquipmentVariant,
    r: std::result::Result<(), StoremanError>) -> bool {
    if has_equipment_variant(old, v.id) {
        refused_by_store(r, "UNIQUE constraint failed: equipment_variants.id"@) && new == old
    } else if !has_equipment_item(old, v.equipment_id) {
        refused_by_store(r, foreign_key_failed()) && new == old
    } else {
        r is Ok && new == DatabaseView { equipment_variants: old.equipment_variants.push(v), ..old }
    }
}

/// The outcome of writing a NATO reference over any with the same identifier: the
/// old rows of that identifier go and the new one is appended, unless its variant is
/// missing.
pub open spec fn upsert_reference_outcome(old: DatabaseView, new: DatabaseView, n: NatoReference,
    r: std::result::Result<(), StoremanError>) -> bool {
    if !has_equipment_variant(old, n.variant_id) {
        refused_by_store(r, foreign_key_failed()) && new == old
    } else {
        &&& r is Ok
        &&& new == DatabaseView {
            nato_references: select(old.nato_references, reference_other_than(n.id)).push(n),
            ..old
        }
    }
}

impl Database {
    /// The equipment items (the active ones when `active_only`), by category and name.
    pub fn list_equipment_items(&self, active_only: bool) -> (r: crate::error::Result<Vec<EquipmentItem>>)
        ensures
            r matches Ok(s) && listing(s@, self@.equipment_items, equipment_kept(active_only),
                equipment_key(), false),
    {
        let mut rows: Vec<EquipmentItem> = Vec::new();
        let mut keys: Vec<Vec<String>> = Vec::new();
        let n = self.equipment_items.len();
        for i in 0..n
            invariant
                n == self@.equipment_items.len(),
                rows@ == select(self@.equipment_items.take(i as int), equipment_kept(active_only)),
                keys@.len() == rows@.len(),
                forall|j: int| 0 <= j < rows@.len() ==> texts(#[trigger] keys@[j]@) == equipment_key()(rows@[j]),
        {
            proof {
                lemma_select_step(self@.equipment_items, equipment_kept(active_only), i as int);
            }
            if !active_only || self.equipment_items[i].active {
                let e = self.equipment_items[i].duplicate();
                let category = e.equipment_category.to_string();
                keys.push(key2(&category, &e.common_name));
                rows.push(e);
            }
        }
        assert(self@.equipment_items.take(n as int) =~= self@.equipment_items);
        Ok(sort_rows(rows, keys, false, Ghost(equipment_key())))
    }

    /// The first equipment item with the identifier.
    pub fn get_equipment_item(&self, id: u128) -> (r: crate::error::Result<Option<EquipmentItem>>)
        ensures
            r is Ok,
            r matches Ok(None) ==> !has_equipment_item(self@, id),
            r matches Ok(Some(e)) ==> exists|i: int| 0 <= i < self@.equipment_items.len()
                && #[trigger] self@.equipment_items[i] == e && e.id == id
                && forall|j: int| 0 <= j < i ==> self@.equipment_items[j].id != id,
    {
        match self.find_equipment_item(id) {
            Some(i) => Ok(Some(self.equipment_items[i].duplicate())),
            None => Ok(None),
        }
    }

    /// Writes a new equipment item.
    pub fn create_equipment_item(&mut self, e: &EquipmentItem) -> (r: crate::error::Result<()>)
        requires
            old(self).wf(),
        ensures
            final(self).wf(),
            create_equipment_item_outcome(old(self)@, final(self)@, *e, r),
    {
        if self.find_equipment_item(e.id).is_some() {
            return Err(StoremanError::Database("UNIQUE constraint failed: equipment_items.id".to_string()));
        }
        self.equipment_items.push(e.duplicate());
        Ok(())
    }

    /// Replaces the fields of the equipment item `e.id`.
    pub fn update_equipment_item(&mut self, e: &EquipmentItem) -> (r: crate::error::Result<()>)
        requires
            old(self).wf(),
        ensures
            final(self).wf(),
            r is Ok,
            update_equipment_item_outcome(old(self)@, final(self)@, *e),
    {
        let n = self.equipment_items.len();
        for i in 0..n
            invariant
                n == self.equipment_items@.len() == old(self)@.equipment_items.len(),
                forall|j: int| 0 <= j < n ==> #[trigger] self.equipment_items@[j] == if j < i
                    && old(self)@.equipment_items[j].id == e.id {
                    *e
                } else {
                    old(self)@.equipment_items[j]
                },
                self@ == (DatabaseView { equipment_items: self@.equipment_items, ..old(self)@ }),
        {
            if self.equipment_items[i].id == e.id {
                self.equipment_items.set(i, e.duplicate());
            }
        }
        Ok(())
    }

    /// The variants of an equipment item, by name.
    pub fn list_equipment_variants(&self, equipment_id: u128) -> (r: crate::error::Result<Vec<EquipmentVariant>>)
        ensures
            r matches Ok(s) && listing(s@, self@.equipment_variants, variant_of(equipment_id),
                variant_key(), false),
    {
        let mut rows: Vec<EquipmentVariant> = Vec::new();
        let mut keys: Vec<Vec<String>> = Vec::new();
        let n = self.equipment_variants.len();
        for i in 0..n
            invariant
                n == self@.equipment_variants.len(),
                rows@ == select(self@.equipment_variants.take(i as int), variant_of(equipment_id)),
                keys@.len() == rows@.len(),
                forall|j: int| 0 <= j < rows@.len() ==> texts(#[trigger] keys@[j]@) == variant_key()(rows@[j]),
        {
            proof {
                lemma_select_step(self@.equipment_variants, variant_of(equipment_id), i as int);
            }
            if self.equipment_variants[i].equipment_id == equipment_id {
                let v = self.equipment_variants[i].duplicate();
                keys.push(key1(&v.variant_name));
                rows.push(v);
            }
        }
        assert(self@.equipment_variants.take(n as int) =~= self@.equipment_variants);
        Ok(sort_rows(rows, keys, false, Ghost(variant_key())))
    }

    /// All variants, by name.
    pub fn list_all_equipment_variants(&self) -> (r: crate::error::Result<Vec<EquipmentVariant>>)
        ensures
            r matches Ok(s) && rearranges(s@, self@.equipment_variants) && sorted_by(s@, variant_key(), false),
    {
        let mut rows: Vec<EquipmentVariant> = Vec::new();
        let mut keys: Vec<Vec<String>> = Vec::new();
        let n = self.equipment_variants.len();
        for i in 0..n
            invariant
                n == self@.equipment_variants.len(),
                rows@ == self@.equipment_variants.take(i as int),
                keys@.len() == rows@.len(),
                forall|j: int| 0 <= j < rows@.len() ==> texts(#[trigger] keys@[j]@) == variant_key()(rows@[j]),
        {
            let v = self.equipment_variants[i].duplicate();
            keys.push(key1(&v.variant_name));
            rows.push(v);
            assert(self@.equipment_variants.take(i + 1) =~= self@.equipment_variants.take(i as int).push(v));
        }
        assert(self@.equipment_variants.take(n as int) =~= self@.equipment_variants);
        Ok(sort_rows(rows, keys, false, Ghost(variant_key())))
    }

    /// The first variant with the identifier.
    pub fn get_equipment_variant(&self, id: u128) -> (r: crate::error::Result<Option<EquipmentVariant>>)
        ensures
            r is Ok,
            r matches Ok(None) ==> !has_equipment_variant(self@, id),
            r matches Ok(Some(v)) ==> exists|i: int| 0 <= i < self@.equipment_variants.len()
                && #[trigger] self@.equipment_variants[i] == v && v.id == id
                && forall|j: int| 0 <= j < i ==> self@.equipment_variants[j].id != id,
    {
        match self.find_equipment_variant(id) {
            Some(i) => Ok(Some(self.equipment_variants[i].duplicate())),
            None => Ok(None),
        }
    }

    /// Writes a new variant of an existing equipment item.
    pub fn create_equipment_variant(&mut self, v: &EquipmentVariant) -> (r: crate::error::Result<()>)
        requires
            old(self).wf(),
        ensures
            final(self).wf(),
            create_variant_outcome(old(self)@, final(self)@, *v, r),
    {
        if self.find_equipment_variant(v.id).is_some() {
            return Err(StoremanError::Database("UNIQUE constraint failed: equipment_variants.id".to_string()));
        }
        if self.find_equipment_item(v.equipment_id).is_none() {
            return Err(StoremanError::Database("FOREIGN KEY constraint failed".to_string()));
        }
        self.equipment_variants.push(v.duplicate());
        Ok(())
    }

    /// The NATO references of a variant, in table order.
    pub fn list_nato_references(&self, variant_id: u128) -> (r: crate::error::Result<Vec<NatoReference>>)
        ensures
            r matches Ok(s) && s@ == select(self@.nato_references, reference_of(variant_id)),
    {
        let mut rows: Vec<NatoReference> = Vec::new();
        let n = self.nato_references.len();
        for i in 0..n
            invariant
                n == self@.nato_references.len(),
                rows@ == select(self@.nato_references.take(i as int), reference_of(variant_id)),
        {
            proof {
                lemma_select_step(self@.nato_references, reference_of(variant_id), i as int);
            }
            if self.nato_references[i].variant_id == variant_id {
                rows.push(self.nato_references[i].duplicate());
            }
        }
        assert(self@.nato_references.take(n as int) =~= self@.nato_references);
        Ok(rows)
    }

    /// Writes a NATO reference, replacing any with the same identifier.
    pub fn upsert_nato_reference(&mut self, nr: &NatoReference) -> (r: crate::error::Result<()>)
        requires
            old(self).wf(),
        ensures
            final(self).wf(),
            upsert_reference_outcome(old(self)@, final(self)@, *nr, r),
    {
        if self.find_equipment_variant(nr.variant_id).is_none() {
            return Err(StoremanError::Database("FOREIGN KEY constraint failed".to_string()));
        }
        let mut kept: Vec<NatoReference> = Vec::new();
        let n = self.nato_references.len();
        for i in 0..n
            invariant
                n == self@.nato_references.len(),
                self@ == old(self)@,
                kept@ == select(self@.nato_references.take(i as int), reference_other_than(nr.id)),
        {
            proof {
                lemma_select_step(self@.nato_references, reference_other_than(nr.id), i as int);
            }
            if self.nato_references[i].id != nr.id {
                kept.push(self.nato_references[i].duplicate());
            }
        }
        assert(self@.nato_references.take(n as int) =~= self@.nato_references);
        kept.push(nr.duplicate());
        self.nato_references = kept;
        Ok(())
    }
}

} // verus!

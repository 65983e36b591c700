//! Setting up a new store: the default administrator and locations, and the
//! equipment catalogue, each written only into a store that has none yet.
use vstd::prelude::*;
use crate::auth::{hash_password, password_matches, argon2id_prefix, authenticate_outcome, is_first_named};
use crate::clock::current_timestamp;
use crate::db::{Database, DatabaseView, UserRecord, has_location, has_equipment_item,
    has_equipment_variant, refused_by_store};
use crate::db::catalogue::{CatalogueItem, CatalogueVariant, catalogue_items, catalogue_variants,
    catalogue_items_are, catalogue_variants_are};
use crate::error::StoremanError;
use crate::ids::new_id;
use crate::models::equipment::{EquipmentItem, EquipmentVariant};
use crate::models::location::Location;
use crate::models::user::{Role, User};
use crate::text::{text_eq, dup_opt_text};

verus! {

/// The default administrator: user name `admin`, display name `System Admin`, rank
/// `N/A`, active, created at `now`, never signed in, with the password hash `hash`.
pub open spec fn is_default_admin(u: UserRecord, id: u128, hash: Seq<char>, now: String) -> bool {
    &&& u.user.id == id
    &&& u.user.username@ == "admin"@
    &&& u.user.display_name@ == "System Admin"@
    &&& u.user.role == Role::Admin
    &&& u.user.rank@ == "N/A"@
    &&& u.user.active
    &&& u.user.created_at == now
    &&& u.user.last_login is None
    &&& u.password_hash@ == hash
}

/// A default location: warehouse `WH-1`, the given aisle, rack `01`, bin `01`, the
/// given description, no capacity note, active.
pub open spec fn is_default_location(l: Location, id: u128, aisle: Seq<char>, description: Seq<char>) -> bool {
    &&& l.id == id
    &&& l.warehouse@ == "WH-1"@
    &&& l.aisle@ == aisle
    &&& l.rack@ == "01"@
    &&& l.bin@ == "01"@
    &&& l.description@ == description
    &&& l.capacity_note@ == Seq::<char>::empty()
    &&& l.active
}

/// The outcome of the default seeding: nothing when the store has users; otherwise
/// the administrator, then locations A and B of warehouse `WH-1`, each location
/// refused when its identifier is taken.
pub open spec fn seed_defaults_outcome(
    old: DatabaseView,
    new: DatabaseView,
    admin_id: u128,
    hash: Seq<char>,
    now: String,
    first_location: u128,
    second_location: u128,
    r: std::result::Result<(), StoremanError>,
) -> bool {
    if old.users.len() > 0 {
        r is Ok && new == old
    } else {
        &&& new.users.len() == 1
        &&& is_default_admin(new.users[0], admin_id, hash, now)
        &&& new == DatabaseView { users: new.users, locations: new.locations, ..old }
        &&& if has_location(old, first_location) {
            refused_by_store(r, "UNIQUE constraint failed: locations.id"@) && new.locations == old.locations
        } else {
            &&& new.locations.len() >= old.locations.len() + 1
            &&& new.locations.take(old.locations.len() + 1int) == old.locations.push(new.locations[old.locations.len() as int])
            &&& is_default_location(new.locations[old.locations.len() as int], first_location, "A"@,
                "Main Warehouse Row A"@)
            &&& if has_location(old, second_location) || second_location == first_location {
                refused_by_store(r, "UNIQUE constraint failed: locations.id"@) && new.locations.len()
                    == old.locations.len() + 1
            } else {
                &&& r is Ok
                &&& new.locations.len() == old.locations.len() + 2
                &&& is_default_location(new.locations.last(), second_location, "B"@, "Main Warehouse Row B"@)
            }
        }
    }
}

/// Some seeding of the defaults, with some identifiers, time and an Argon2id hash of
/// `admin`, leads from `old` to `new` with result `r`.
pub open spec fn defaults_seeded(old: DatabaseView, new: DatabaseView, r: std::result::Result<(), StoremanError>) -> bool {
    exists|admin_id: u128, hash: Seq<char>, now: String, l1: u128, l2: u128|
        #[trigger] seed_defaults_outcome(old, new, admin_id, hash, now, l1, l2, r)
            && password_matches("admin"@, hash) && hash.len() >= 10
            && hash.subrange(0, 10) == argon2id_prefix()
}

/// Seeding the catalogue, with some identifiers, leads from `old` to `new` with
/// result `r`.
pub open spec fn catalogue_seeded(old: DatabaseView, new: DatabaseView, r: std::result::Result<(), StoremanError>) -> bool {
    exists|items: Seq<CatalogueItem>, variants: Seq<CatalogueVariant>, item_ids: Seq<u128>, variant_ids: Seq<u128>|
        #[trigger] seed_catalogue_outcome(old, new, items, variants, item_ids, variant_ids, r)
            && catalogue_items_are(items) && catalogue_variants_are(variants)
}

/// The outcome of setting up a store: the defaults are seeded, then (unless that
/// failed) the catalogue.
pub open spec fn migrated(old: DatabaseView, new: DatabaseView, r: std::result::Result<(), StoremanError>) -> bool {
    exists|mid: DatabaseView, d: std::result::Result<(), StoremanError>|
        #[trigger] defaults_seeded(old, mid, d) && match d {
            Err(e) => r == Err::<(), StoremanError>(e) && new == mid,
            Ok(_) => catalogue_seeded(mid, new, r),
        }
}

/// The equipment row written for a catalogue item.
pub open spec fn catalogue_row(c: CatalogueItem, id: u128) -> EquipmentItem {
    EquipmentItem {
        id,
        common_name: c.common_name,
        official_designation: c.official_designation,
        equipment_category: c.category,
        nato_category_code: None,
        manufacturer: Some(c.manufacturer),
        country_of_origin: Some(c.country_of_origin),
        service_branch: c.service_branch,
        status: c.status,
        introduction_year: c.introduction_year,
        notes: c.notes,
        active: true,
    }
}

/// `k` is the first catalogue item with the common name.
pub open spec fn is_catalogue_link(items: Seq<CatalogueItem>, name: Seq<char>, k: int) -> bool {
    &&& 0 <= k < items.len()
    &&& items[k].common_name@ == name
    &&& forall|j: int| 0 <= j < k ==> #[trigger] items[j].common_name@ != name
}

/// The position of the first catalogue item with the common name, or -1.
pub open spec fn catalogue_link(items: Seq<CatalogueItem>, name: Seq<char>) -> int {
    if exists|k: int| #[trigger] is_catalogue_link(items, name, k) {
        choose|k: int| #[trigger] is_catalogue_link(items, name, k)
    } else {
        -1
    }
}

/// When some catalogue item has the common name, a first one has.
proof fn lemma_link_found(items: Seq<CatalogueItem>, name: Seq<char>, k: int)
    requires
        0 <= k < items.len(),
        items[k].common_name@ == name,
    ensures
        catalogue_link(items, name) >= 0,
    decreases k,
{
    if exists|j: int| 0 <= j < k && #[trigger] items[j].common_name@ == name {
        let j = choose|j: int| 0 <= j < k && #[trigger] items[j].common_name@ == name;
        lemma_link_found(items, name, j);
    } else {
        assert(is_catalogue_link(items, name, k));
    }
}

/// Every variant of the catalogue names an item of the catalogue, so seeding it can
/// only be refused for a clash of identifiers.
pub proof fn lemma_catalogue_variants_linked(items: Seq<CatalogueItem>, variants: Seq<CatalogueVariant>)
    requires
        catalogue_items_are(items),
        catalogue_variants_are(variants),
    ensures
        forall|k: int| 0 <= k < variants.len() ==> #[trigger] catalogue_link(items, variants[k].equipment_name@) >= 0,
{
    let witness: Seq<int> = seq![0, 0, 0, 1, 1, 2, 3, 3, 11, 13, 13, 12, 15, 15, 16, 16, 22, 25, 25];
    assert forall|k: int| 0 <= k < variants.len() implies #[trigger] catalogue_link(items, variants[k].equipment_name@) >= 0 by {
        lemma_link_found(items, variants[k].equipment_name@, witness[k]);
    }
}

/// The variant row written for a catalogue variant.
pub open spec fn variant_row(v: CatalogueVariant, id: u128, equipment_id: u128) -> EquipmentVariant {
    EquipmentVariant {
        id,
        equipment_id,
        variant_name: v.variant_name,
        calibre_or_spec: v.calibre_or_spec,
        compatible_accessories: v.compatible_accessories,
        notes: v.notes,
    }
}

/// No identifier occurs twice.
pub open spec fn distinct_ids(ids: Seq<u128>) -> bool {
    forall|i: int, j: int| 0 <= i < j < ids.len() ==> #[trigger] ids[i] != #[trigger] ids[j]
}

/// The catalogue can be written with the identifiers: they are distinct, the variant
/// identifiers are free, and every variant names an item of the catalogue.
pub open spec fn catalogue_writable(old: DatabaseView, items: Seq<CatalogueItem>, variants: Seq<CatalogueVariant>,
    item_ids: Seq<u128>, variant_ids: Seq<u128>) -> bool {
    &&& distinct_ids(item_ids)
    &&& distinct_ids(variant_ids)
    &&& forall|k: int| 0 <= k < variant_ids.len() ==> !has_equipment_variant(old, #[trigger] variant_ids[k])
    &&& forall|k: int| 0 <= k < variants.len() ==> #[trigger] catalogue_link(items, variants[k].equipment_name@) >= 0
}

/// The outcome of seeding the catalogue: nothing when the store has equipment items;
/// otherwise, when the catalogue can be written, each item with its identifier and
/// each variant with its identifier, linked to the first item of its common name;
/// when it cannot, a refusal, with only the equipment tables changed.
pub open spec fn seed_catalogue_outcome(
    old: DatabaseView,
    new: DatabaseView,
    items: Seq<CatalogueItem>,
    variants: Seq<CatalogueVariant>,
    item_ids: Seq<u128>,
    variant_ids: Seq<u128>,
    r: std::result::Result<(), StoremanError>,
) -> bool {
    if old.equipment_items.len() > 0 {
        r is Ok && new == old
    } else {
        &&& r is Ok <==> catalogue_writable(old, items, variants, item_ids, variant_ids)
        &&& new == DatabaseView {
            equipment_items: new.equipment_items,
            equipment_variants: new.equipment_variants,
            ..old
        }
        &&& r is Ok ==> {
            &&& new.equipment_items.len() == items.len()
            &&& forall|k: int| 0 <= k < items.len() ==> #[trigger] new.equipment_items[k] == catalogue_row(items[k],
                item_ids[k])
            &&& new.equipment_variants.len() == old.equipment_variants.len() + variants.len()
            &&& new.equipment_variants.take(old.equipment_variants.len() as int) == old.equipment_variants
            &&& forall|k: int| 0 <= k < variants.len() ==> #[trigger] new.equipment_variants[old.equipment_variants.len() + k]
                == variant_row(variants[k], variant_ids[k], item_ids[catalogue_link(items, variants[k].equipment_name@)])
        }
    }
}

/// The position of the first catalogue item with the common name.
fn find_catalogue_item(items: &Vec<CatalogueItem>, name: &str) -> (r: Option<usize>)
    ensures
        match r {
            Some(k) => is_catalogue_link(items@, name@, k as int) && catalogue_link(items@, name@) == k,
            None => catalogue_link(items@, name@) == -1,
        },
{
    let n = items.len();
    for k in 0..n
        invariant
            n == items@.len(),
            forall|j: int| 0 <= j < k ==> #[trigger] items@[j].common_name@ != name@,
    {
        if text_eq(items[k].common_name.as_str(), name) {
            proof {
                assert(is_catalogue_link(items@, name@, k as int));
                let c = choose|c: int| #[trigger] is_catalogue_link(items@, name@, c);
                if c < k {
                    assert(items@[c].common_name@ != name@);
                }
                if c > k {
                    assert(items@[k as int].common_name@ != name@);
                }
            }
            return Some(k);
        }
    }
    proof {
        if exists|c: int| #[trigger] is_catalogue_link(items@, name@, c) {
            let c = choose|c: int| #[trigger] is_catalogue_link(items@, name@, c);
            assert(items@[c].common_name@ != name@);
        }
    }
    None
}

/// The default location with the given aisle and description.
fn default_location(id: u128, aisle: &str, description: &str) -> (r: Location)
    ensures
        is_default_location(r, id, aisle@, description@),
{
    let r = Location {
        id,
        warehouse: "WH-1".to_string(),
        aisle: aisle.to_string(),
        rack: "01".to_string(),
        bin: "01".to_string(),
        description: description.to_string(),
        capacity_note: String::new(),
        active: true,
    };
    r
}

impl Database {
    /// Writes the default administrator and locations, with the given identifiers,
    /// hash and time, into a store without users.
    pub fn seed_defaults_with(
        &mut self,
        admin_id: u128,
        hash: &str,
        now: &String,
        first_location: u128,
        second_location: u128,
    ) -> (r: crate::error::Result<()>)
        requires
            old(self).wf(),
        ensures
            final(self).wf(),
            seed_defaults_outcome(old(self)@, final(self)@, admin_id, hash@, *now, first_location,
                second_location, r),
    {
        if self.users.len() > 0 {
            return Ok(());
        }
        let admin = User {
            id: admin_id,
            username: "admin".to_string(),
            display_name: "System Admin".to_string(),
            role: Role::Admin,
            rank: "N/A".to_string(),
            active: true,
            created_at: now.clone(),
            last_login: None,
        };
        assert(!crate::db::has_user(self@, admin_id));
        match self.create_user(&admin, hash) {
            Ok(()) => {},
            Err(e) => return Err(e),
        }
        let ghost v1 = self@;
        assert(v1.users.len() == 1 && v1.users[0] == v1.users.last());
        let first = default_location(first_location, "A", "Main Warehouse Row A");
        match self.create_location(&first) {
            Ok(()) => {},
            Err(e) => return Err(e),
        }
        let ghost v2 = self@;
        assert(v2.locations.take(old(self)@.locations.len() + 1int) =~= v2.locations);
        let second = default_location(second_location, "B", "Main Warehouse Row B");
        proof {
            if second_location == first_location {
                assert(v2.locations.last().id == first_location);
                assert(has_location(v2, second_location));
            }
            if has_location(old(self)@, second_location) {
                let i = choose|i: int| 0 <= i < old(self)@.locations.len() && #[trigger] old(self)@.locations[i].id
                    == second_location;
                assert(v2.locations[i].id == second_location);
            }
            if has_location(v2, second_location) && second_location != first_location {
                let i = choose|i: int| 0 <= i < v2.locations.len() && #[trigger] v2.locations[i].id == second_location;
                assert(old(self)@.locations[i].id == second_location);
            }
        }
        match self.create_location(&second) {
            Ok(()) => {},
            Err(e) => return Err(e),
        }
        assert(self@.locations.take(old(self)@.locations.len() + 1int) =~= v2.locations);
        Ok(())
    }

    /// Writes the default administrator (password `admin`) and locations into a store
    /// without users, with fresh identifiers and the current time.
    pub fn seed_defaults(&mut self) -> (r: crate::error::Result<()>)
        requires
            old(self).wf(),
        ensures
            final(self).wf(),
            defaults_seeded(old(self)@, final(self)@, r),
    {
        let admin_id = new_id();
        let first_location = new_id();
        let second_location = new_id();
        let now = current_timestamp();
        proof {
            reveal_strlit("admin");
        }
        let hash = match hash_password("admin") {
            Ok(h) => h,
            Err(_) => String::new(),
        };
        assert(password_matches("admin"@, hash@));
        self.seed_defaults_with(admin_id, hash.as_str(), &now, first_location, second_location)
    }

    /// Writes the catalogue with the given identifiers into a store without equipment
    /// items.
    pub fn seed_equipment_reference_with(
        &mut self,
        items: &Vec<CatalogueItem>,
        variants: &Vec<CatalogueVariant>,
        item_ids: &Vec<u128>,
        variant_ids: &Vec<u128>,
    ) -> (r: crate::error::Result<()>)
        requires
            old(self).wf(),
            item_ids@.len() == items@.len(),
            variant_ids@.len() == variants@.len(),
        ensures
            final(self).wf(),
            seed_catalogue_outcome(old(self)@, final(self)@, items@, variants@, item_ids@, variant_ids@, r),
    {
        if self.equipment_items.len() > 0 {
            return Ok(());
        }
        let ghost v0 = self@;
        let n = items.len();
        for k in 0..n
            invariant
                n == items@.len() == item_ids@.len(),
                variant_ids@.len() == variants@.len(),
                v0 == old(self)@,
                v0.equipment_items.len() == 0,
                self.wf(),
                self@ == (DatabaseView { equipment_items: self@.equipment_items, ..v0 }),
                self@.equipment_items.len() == k,
                forall|j: int| 0 <= j < k ==> #[trigger] self@.equipment_items[j] == catalogue_row(items@[j], item_ids@[j]),
                forall|i: int, j: int| 0 <= i < j < k ==> #[trigger] item_ids@[i] != #[trigger] item_ids@[j],
        {
            let c = &items[k];
            let row = EquipmentItem {
                id: item_ids[k],
                common_name: c.common_name.clone(),
                official_designation: c.official_designation.clone(),
                equipment_category: c.category,
                nato_category_code: None,
                manufacturer: Some(c.manufacturer.clone()),
                country_of_origin: Some(c.country_of_origin.clone()),
                service_branch: c.service_branch,
                status: c.status,
                introduction_year: c.introduction_year,
                notes: c.notes.clone(),
                active: true,
            };
            let ghost before = self@;
            proof {
                if has_equipment_item(before, item_ids@[k as int]) {
                    let i = choose|i: int| 0 <= i < before.equipment_items.len() && #[trigger] before.equipment_items[i].id
                        == item_ids@[k as int];
                    assert(item_ids@[i] == item_ids@[k as int]);
                    assert(!distinct_ids(item_ids@));
                }
            }
            match self.create_equipment_item(&row) {
                Ok(()) => {},
                Err(e) => return Err(e),
            }
            proof {
                assert forall|i: int, j: int| 0 <= i < j < k + 1 implies #[trigger] item_ids@[i] != #[trigger] item_ids@[j] by {
                    if j == k {
                        assert(before.equipment_items[i].id == item_ids@[i]);
                    }
                }
            }
        }
        assert(distinct_ids(item_ids@));
        let ghost v1 = self@;
        let base = self.equipment_variants.len();
        let m = variants.len();
        for k in 0..m
            invariant
                n == items@.len() == item_ids@.len(),
                m == variants@.len() == variant_ids@.len(),
                v0 == old(self)@,
                v0.equipment_items.len() == 0,
                distinct_ids(item_ids@),
                base == v0.equipment_variants.len(),
                self.wf(),
                self@ == (DatabaseView {
                    equipment_items: v1.equipment_items,
                    equipment_variants: self@.equipment_variants,
                    ..v0
                }),
                v1.equipment_items.len() == n,
                forall|j: int| 0 <= j < n ==> #[trigger] v1.equipment_items[j] == catalogue_row(items@[j], item_ids@[j]),
                self@.equipment_variants.len() == base + k,
                self@.equipment_variants.take(base as int) == v0.equipment_variants,
                forall|j: int| 0 <= j < k ==> #[trigger] self@.equipment_variants[base + j] == variant_row(variants@[j],
                    variant_ids@[j], item_ids@[catalogue_link(items@, variants@[j].equipment_name@)]),
                forall|j: int| 0 <= j < k ==> !has_equipment_variant(v0, #[trigger] variant_ids@[j]),
                forall|i: int, j: int| 0 <= i < j < k ==> #[trigger] variant_ids@[i] != #[trigger] variant_ids@[j],
                forall|j: int| 0 <= j < k ==> #[trigger] catalogue_link(items@, variants@[j].equipment_name@) >= 0,
        {
            let v = &variants[k];
            let link = match find_catalogue_item(items, v.equipment_name.as_str()) {
                Some(i) => i,
                None => {
                    assert(catalogue_link(items@, variants@[k as int].equipment_name@) < 0);
                    return Err(StoremanError::Database("FOREIGN KEY constraint failed".to_string()));
                },
            };
            let row = EquipmentVariant {
                id: variant_ids[k],
                equipment_id: item_ids[link],
                variant_name: v.variant_name.clone(),
                calibre_or_spec: dup_opt_text(&v.calibre_or_spec),
                compatible_accessories: dup_opt_text(&v.compatible_accessories),
                notes: v.notes.clone(),
            };
            let ghost before = self@;
            let ghost id = variant_ids@[k as int];
            proof {
                assert(self@.equipment_items[link as int].id == item_ids@[link as int]);
                assert(has_equipment_item(self@, item_ids@[link as int]));
                if has_equipment_variant(before, id) {
                    let i = choose|i: int| 0 <= i < before.equipment_variants.len() && #[trigger] before.equipment_variants[i].id
                        == id;
                    if i < base {
                        assert(before.equipment_variants.take(base as int)[i] == v0.equipment_variants[i]);
                        assert(has_equipment_variant(v0, id));
                    } else {
                        assert(before.equipment_variants[base + (i - base)] == before.equipment_variants[i]);
                        assert(variant_ids@[i - base] == id);
                        assert(!distinct_ids(variant_ids@));
                    }
                }
            }
            match self.create_equipment_variant(&row) {
                Ok(()) => {},
                Err(e) => return Err(e),
            }
            proof {
                assert(!has_equipment_variant(before, id));
                assert(!has_equipment_variant(v0, id)) by {
                    if has_equipment_variant(v0, id) {
                        let i = choose|i: int| 0 <= i < v0.equipment_variants.len() && #[trigger] v0.equipment_variants[i].id == id;
                        assert(before.equipment_variants.take(base as int)[i] == v0.equipment_variants[i]);
                        assert(before.equipment_variants[i].id == id);
                    }
                }
                assert forall|i: int, j: int| 0 <= i < j < k + 1 implies #[trigger] variant_ids@[i] != #[trigger] variant_ids@[j] by {
                    if j == k {
                        assert(before.equipment_variants[base + i].id == variant_ids@[i]);
                    }
                }
                assert(self@.equipment_variants.take(base as int) =~= v0.equipment_variants) by {
                    assert forall|i: int| 0 <= i < base implies self@.equipment_variants.take(base as int)[i] == v0.equipment_variants[i] by {
                        assert(before.equipment_variants.take(base as int)[i] == v0.equipment_variants[i]);
                    }
                }
            }
        }
        Ok(())
    }

    /// Writes the catalogue, with fresh identifiers, into a store without equipment
    /// items.
    pub fn seed_equipment_reference(&mut self) -> (r: crate::error::Result<()>)
        requires
            old(self).wf(),
        ensures
            final(self).wf(),
            catalogue_seeded(old(self)@, final(self)@, r),
    {
        let items = catalogue_items();
        let variants = catalogue_variants();
        let mut item_ids: Vec<u128> = Vec::new();
        for k in 0..items.len()
            invariant
                item_ids@.len() == k,
        {
            item_ids.push(new_id());
        }
        let mut variant_ids: Vec<u128> = Vec::new();
        for k in 0..variants.len()
            invariant
                variant_ids@.len() == k,
        {
            variant_ids.push(new_id());
        }
        self.seed_equipment_reference_with(&items, &variants, &item_ids, &variant_ids)
    }

    /// Sets up the store: the default administrator and locations, then the
    /// equipment catalogue.
    pub fn run_migrations(&mut self) -> (r: crate::error::Result<()>)
        requires
            old(self).wf(),
        ensures
            final(self).wf(),
            migrated(old(self)@, final(self)@, r),
    {
        let d = self.seed_defaults();
        let ghost mid = self@;
        let ghost gd = d;
        match d {
            Ok(()) => {},
            Err(e) => {
                assert(defaults_seeded(old(self)@, mid, gd));
                return Err(e);
            },
        }
        let r = self.seed_equipment_reference();
        assert(defaults_seeded(old(self)@, mid, gd));
        r
    }

    /// A new store, set up with the defaults and the catalogue.
    pub fn open_in_memory() -> (r: crate::error::Result<Database>)
        ensures
            exists|new: DatabaseView, m: std::result::Result<(), StoremanError>|
                #[trigger] migrated(crate::db::empty_store(), new, m) && match m {
                    Ok(_) => r matches Ok(db) && db.wf() && db@ == new,
                    Err(e) => r == Err::<Database, StoremanError>(e),
                },
    {
        let mut db = Database::new();
        let m = db.run_migrations();
        let ghost new = db@;
        let ghost gm = m;
        match m {
            Ok(()) => Ok(db),
            Err(e) => Err(e),
        }
    }
}

/// In a store whose one user is the default administrator, with a hash of `admin`,
/// signing in as `admin` with password `admin` succeeds and gives the administrator.
pub proof fn law_default_admin_signs_in(
    v: DatabaseView,
    c: DatabaseView,
    admin_id: u128,
    hash: Seq<char>,
    created: String,
    now: String,
    r: std::result::Result<User, StoremanError>,
)
    requires
        v.users.len() == 1,
        is_default_admin(v.users[0], admin_id, hash, created),
        password_matches("admin"@, hash),
        authenticate_outcome(v, c, "admin"@, "admin"@, now, r),
    ensures
        r matches Ok(u) && u.id == admin_id && u.role == Role::Admin,
{
    assert(is_first_named(v.users, "admin"@, 0));
    let k = choose|k: int| #[trigger] is_first_named(v.users, "admin"@, k);
    assert(k == 0);
}

/// A newly set-up store lets `admin` sign in with password `admin`, as the
/// administrator, whether or not the rest of the setup was refused.
pub proof fn law_new_store_admin_signs_in(
    new: DatabaseView,
    m: std::result::Result<(), StoremanError>,
    c: DatabaseView,
    now: String,
    r: std::result::Result<User, StoremanError>,
)
    requires
        migrated(crate::db::empty_store(), new, m),
        authenticate_outcome(new, c, "admin"@, "admin"@, now, r),
    ensures
        r matches Ok(u) && u.role == Role::Admin && u.username@ == "admin"@ && u.active,
{
    let (mid, d) = choose|mid: DatabaseView, d: std::result::Result<(), StoremanError>|
        #[trigger] defaults_seeded(crate::db::empty_store(), mid, d) && match d {
            Err(e) => m == Err::<(), StoremanError>(e) && new == mid,
            Ok(_) => catalogue_seeded(mid, new, m),
        };
    let (admin_id, hash, created, l1, l2) = choose|admin_id: u128, hash: Seq<char>, created: String, l1: u128, l2: u128|
        #[trigger] seed_defaults_outcome(crate::db::empty_store(), mid, admin_id, hash, created, l1, l2, d)
            && password_matches("admin"@, hash) && hash.len() >= 10
            && hash.subrange(0, 10) == argon2id_prefix();
    if d is Ok {
        let (items, variants, item_ids, variant_ids) = choose|items: Seq<CatalogueItem>, variants: Seq<CatalogueVariant>,
            item_ids: Seq<u128>, variant_ids: Seq<u128>|
            #[trigger] seed_catalogue_outcome(mid, new, items, variants, item_ids, variant_ids, m)
                && catalogue_items_are(items) && catalogue_variants_are(variants);
        assert(new.users == mid.users);
    }
    assert(new.users == mid.users);
    law_default_admin_signs_in(new, c, admin_id, hash, created, now, r);
}

} // verus!

//! Users, items and locations: lookups, new rows and updates.
use vstd::prelude::*;
use crate::db::{Database, DatabaseView, UserRecord, has_user, has_item, has_location,
    has_equipment_variant, refused_by_store, foreign_key_failed};
use crate::error::StoremanError;
use crate::models::item::Item;
use crate::models::location::Location;
use crate::models::user::User;
use crate::text::text_eq;
use crate::clock::current_timestamp;

verus! {

/// An optional reference to an equipment variant that is absent or names an existing one.
pub open spec fn variant_ref_ok(v: DatabaseView, id: Option<u128>) -> bool {
    match id { Some(x) => has_equipment_variant(v, x), None => true }
}

/// The outcome of writing a new user with the password hash `hash`: the user is kept
/// without a last login.
pub open spec fn create_user_outcome(old: DatabaseView, new: DatabaseView, user: User, hash: Seq<char>,
    r: std::result::Result<(), StoremanError>) -> bool {
    if has_user(old, user.id) {
        refused_by_store(r, "UNIQUE constraint failed: users.id"@) && new == old
    } else if exists|i: int| 0 <= i < old.users.len() && #[trigger] old.users[i].user.username@ == user.username@ {
        refused_by_store(r, "UNIQUE constraint failed: users.username"@) && new == old
    } else {
        &&& r is Ok
        &&& new.users.len() == old.users.len() + 1
        &&& new.users.drop_last() == old.users
        &&& new.users.last().user == (User { last_login: None, ..user })
        &&& new.users.last().password_hash@ == hash
        &&& new == DatabaseView { users: new.users, ..old }
    }
}

/// The user row with the display name, role, rank and active flag of `user`.
pub open spec fn user_row_updated(u: UserRecord, user: User) -> UserRecord {
    UserRecord {
        user: User {
            display_name: user.display_name,
            role: user.role,
            rank: user.rank,
            active: user.active,
            ..u.user
        },
        ..u
    }
}

/// The user row with `now` as its last login.
pub open spec fn user_row_logged_in(u: UserRecord, now: String) -> UserRecord {
    UserRecord { user: User { last_login: Some(now), ..u.user }, ..u }
}

/// Every row of the user `user.id` takes the display name, role, rank and active flag
/// of `user`; all else is unchanged.
pub open spec fn users_updated(old: DatabaseView, new: DatabaseView, user: User) -> bool {
    &&& new.users.len() == old.users.len()
    &&& forall|i: int| 0 <= i < old.users.len() ==> #[trigger] new.users[i] == if old.users[i].user.id == user.id {
        user_row_updated(old.users[i], user)
    } else {
        old.users[i]
    }
    &&& new == DatabaseView { users: new.users, ..old }
}

/// Every row of the user `user_id` has `now` as its last login, all else unchanged.
pub open spec fn login_recorded(old: DatabaseView, new: DatabaseView, user_id: u128, now: String) -> bool {
    &&& new.users.len() == old.users.len()
    &&& forall|i: int| 0 <= i < old.users.len() ==> #[trigger] new.users[i] == if old.users[i].user.id == user_id {
        user_row_logged_in(old.users[i], now)
    } else {
        old.users[i]
    }
    &&& new == DatabaseView { users: new.users, ..old }
}

/// The outcome of writing a new item.
pub open spec fn create_item_outcome(old: DatabaseView, new: DatabaseView, item: Item,
    r: std::result::Result<(), StoremanError>) -> bool {
    if has_item(old, item.id) {
        refused_by_store(r, "UNIQUE constraint failed: items.id"@) && new == old
    } else if !variant_ref_ok(old, item.equipment_variant_id) {
        refused_by_store(r, foreign_key_failed()) && new == old
    } else {
        &&& r is Ok
        &&& new.items.len() == old.items.len() + 1
        &&& new.items.drop_last() == old.items
        &&& new.items.last() == item
        &&& new == DatabaseView { items: new.items, ..old }
    }
}

/// The outcome of updating the item rows of `item.id` at `now`: every field but the
/// identifier and creation time is taken from `item`, and the update time is `now`.
pub open spec fn update_item_outcome(old: DatabaseView, new: DatabaseView, item: Item, now: String,
    r: std::result::Result<(), StoremanError>) -> bool {
    if has_item(old, item.id) && !variant_ref_ok(old, item.equipment_variant_id) {
        refused_by_store(r, foreign_key_failed()) && new == old
    } else {
        &&& r is Ok
        &&& new.items.len() == old.items.len()
        &&& forall|i: int| 0 <= i < old.items.len() ==> if old.items[i].id == item.id {
            #[trigger] new.items[i] == (Item {
                id: old.items[i].id,
                created_at: old.items[i].created_at,
                updated_at: now,
                ..item
            })
        } else {
            new.items[i] == old.items[i]
        }
        &&& new == DatabaseView { items: new.items, ..old }
    }
}

/// The outcome of writing a new location.
pub open spec fn create_location_outcome(old: DatabaseView, new: DatabaseView, loc: Location,
    r: std::result::Result<(), StoremanError>) -> bool {
    if has_location(old, loc.id) {
        refused_by_store(r, "UNIQUE constraint failed: locations.id"@) && new == old
    } else {
        r is Ok && new == DatabaseView { locations: old.locations.push(loc), ..old }
    }
}

/// The locations table after every row of `loc.id` takes the other fields of `loc`.
pub open spec fn update_location_outcome(old: DatabaseView, new: DatabaseView, loc: Location) -> bool {
    &&& new.locations.len() == old.locations.len()
    &&& forall|i: int| 0 <= i < old.locations.len() ==> #[trigger] new.locations[i] == if old.locations[i].id
        == loc.id {
        loc
    } else {
        old.locations[i]
    }
    &&& new == DatabaseView { locations: new.locations, ..old }
}

impl Database {
    /// The first user with the username, with the user's password hash.
    pub fn get_user_by_username(&self, username: &str) -> (r: crate::error::Result<Option<(User, String)>>)
        ensures
            r is Ok,
            r matches Ok(None) ==> forall|i: int| 0 <= i < self@.users.len()
                ==> #[trigger] self@.users[i].user.username@ != username@,
            r matches Ok(Some(p)) ==> exists|i: int| 0 <= i < self@.users.len()
                && #[trigger] self@.users[i] == (UserRecord { user: p.0, password_hash: p.1 })
                && self@.users[i].user.username@ == username@
                && forall|j: int| 0 <= j < i ==> self@.users[j].user.username@ != username@,
    {
        let n = self.users.len();
        for i in 0..n
            invariant
                n == self.users@.len(),
                forall|j: int| 0 <= j < i ==> self.users@[j].user.username@ != username@,
        {
            if text_eq(self.users[i].user.username.as_str(), username) {
                let u = self.users[i].user.duplicate();
                let h = self.users[i].password_hash.clone();
                assert(self@.users[i as int] == (UserRecord { user: u, password_hash: h }));
                return Ok(Some((u, h)));
            }
        }
        Ok(None)
    }

    /// The first user with the identifier.
    pub fn get_user(&self, id: u128) -> (r: crate::error::Result<Option<User>>)
        ensures
            r is Ok,
            r matches Ok(None) ==> !has_user(self@, id),
            r matches Ok(Some(u)) ==> exists|i: int| 0 <= i < self@.users.len()
                && #[trigger] self@.users[i].user == u && u.id == id
                && forall|j: int| 0 <= j < i ==> self@.users[j].user.id != id,
    {
        match self.find_user(id) {
            Some(i) => Ok(Some(self.users[i].user.duplicate())),
            None => Ok(None),
        }
    }

    /// Writes a new user with the password hash; the user is kept without a last login.
    pub fn create_user(&mut self, user: &User, password_hash: &str) -> (r: crate::error::Result<()>)
        requires
            old(self).wf(),
        ensures
            final(self).wf(),
            create_user_outcome(old(self)@, final(self)@, *user, password_hash@, r),
    {
        if self.find_user(user.id).is_some() {
            return Err(StoremanError::Database("UNIQUE constraint failed: users.id".to_string()));
        }
        let n = self.users.len();
        for i in 0..n
            invariant
                n == self.users@.len(),
                self@ == old(self)@,
                self.wf(),
                !has_user(self@, user.id),
                forall|j: int| 0 <= j < i ==> self.users@[j].user.username@ != user.username@,
        {
            if text_eq(self.users[i].user.username.as_str(), user.username.as_str()) {
                assert(old(self)@.users[i as int].user.username@ == user.username@);
                assert(self@ == old(self)@);
                return Err(StoremanError::Database("UNIQUE constraint failed: users.username".to_string()));
            }
        }
        let stored = User { last_login: None, ..user.duplicate() };
        self.users.push(UserRecord { user: stored, password_hash: password_hash.to_string() });
        assert(self@.users.drop_last() =~= old(self)@.users);
        Ok(())
    }

    /// Changes the display name, role, rank and active flag of the user `user.id`.
    pub fn update_user(&mut self, user: &User) -> (r: crate::error::Result<()>)
        requires
            old(self).wf(),
        ensures
            final(self).wf(),
            r is Ok,
            users_updated(old(self)@, final(self)@, *user),
    {
        let n = self.users.len();
        for i in 0..n
            invariant
                n == self.users@.len() == old(self)@.users.len(),
                forall|j: int| 0 <= j < n ==> #[trigger] self.users@[j] == if j < i && old(self)@.users[j].user.id
                    == user.id {
                    user_row_updated(old(self)@.users[j], *user)
                } else {
                    old(self)@.users[j]
                },
                self@ == (DatabaseView { users: self@.users, ..old(self)@ }),
        {
            if self.users[i].user.id == user.id {
                assert(self.users@[i as int] == old(self)@.users[i as int]);
                let r = self.users[i].duplicate_record();
                let updated = UserRecord {
                    user: User {
                        display_name: user.display_name.clone(),
                        role: user.role,
                        rank: user.rank.clone(),
                        active: user.active,
                        ..r.user
                    },
                    ..r
                };
                assert(updated.user.display_name == user.display_name);
                assert(updated.user.id == old(self)@.users[i as int].user.id);
                assert(updated.password_hash == old(self)@.users[i as int].password_hash);
                assert(updated == user_row_updated(old(self)@.users[i as int], *user));
                self.users.set(i, updated);
                assert(self.users@[i as int] == user_row_updated(old(self)@.users[i as int], *user));
            }
        }
        Ok(())
    }

    /// Replaces the password hash of the user `user_id`.
    pub fn update_user_password(&mut self, user_id: u128, hash: &str) -> (r: crate::error::Result<()>)
        requires
            old(self).wf(),
        ensures
            final(self).wf(),
            r is Ok,
            final(self)@.users.len() == old(self)@.users.len(),
            forall|i: int| 0 <= i < old(self)@.users.len() ==> if old(self)@.users[i].user.id == user_id {
                #[trigger] final(self)@.users[i].user == old(self)@.users[i].user
                    && final(self)@.users[i].password_hash@ == hash@
            } else {
                final(self)@.users[i] == old(self)@.users[i]
            },
            final(self)@ == (DatabaseView { users: final(self)@.users, ..old(self)@ }),
    {
        let n = self.users.len();
        for i in 0..n
            invariant
                n == self.users@.len() == old(self)@.users.len(),
                forall|j: int| 0 <= j < n ==> if j < i && old(self)@.users[j].user.id == user_id {
                    #[trigger] self.users@[j].user == old(self)@.users[j].user
                        && self.users@[j].password_hash@ == hash@
                } else {
                    self.users@[j] == old(self)@.users[j]
                },
                self@ == (DatabaseView { users: self@.users, ..old(self)@ }),
        {
            if self.users[i].user.id == user_id {
                let u = self.users[i].user.duplicate();
                self.users.set(i, UserRecord { user: u, password_hash: hash.to_string() });
            }
        }
        Ok(())
    }

    /// Records `now` as the last login of the user `user_id`.
    pub fn update_last_login_at(&mut self, user_id: u128, now: &String) -> (r: crate::error::Result<()>)
        requires
            old(self).wf(),
        ensures
            final(self).wf(),
            r is Ok,
            login_recorded(old(self)@, final(self)@, user_id, *now),
    {
        let n = self.users.len();
        for i in 0..n
            invariant
                n == self.users@.len() == old(self)@.users.len(),
                forall|j: int| 0 <= j < n ==> #[trigger] self.users@[j] == if j < i && old(self)@.users[j].user.id
                    == user_id {
                    user_row_logged_in(old(self)@.users[j], *now)
                } else {
                    old(self)@.users[j]
                },
                self@ == (DatabaseView { users: self@.users, ..old(self)@ }),
        {
            if self.users[i].user.id == user_id {
                assert(self.users@[i as int] == old(self)@.users[i as int]);
                let r = self.users[i].duplicate_record();
                let updated = UserRecord { user: User { last_login: Some(now.clone()), ..r.user }, ..r };
                assert(updated.user.last_login == Some(*now));
                assert(updated.user.id == old(self)@.users[i as int].user.id);
                assert(updated.password_hash == old(self)@.users[i as int].password_hash);
                assert(updated == user_row_logged_in(old(self)@.users[i as int], *now));
                self.users.set(i, updated);
                assert(self.users@[i as int] == user_row_logged_in(old(self)@.users[i as int], *now));
            }
        }
        Ok(())
    }

    /// Records the current time as the last login of the user `user_id`.
    pub fn update_last_login(&mut self, user_id: u128) -> (r: crate::error::Result<()>)
        requires
            old(self).wf(),
        ensures
            final(self).wf(),
            r is Ok,
            exists|now: String| #[trigger] login_recorded(old(self)@, final(self)@, user_id, now),
    {
        let now = current_timestamp();
        self.update_last_login_at(user_id, &now)
    }

    /// The first item with the identifier.
    pub fn get_item(&self, id: u128) -> (r: crate::error::Result<Option<Item>>)
        ensures
            r is Ok,
            r matches Ok(None) ==> !has_item(self@, id),
            r matches Ok(Some(it)) ==> exists|i: int| 0 <= i < self@.items.len()
                && #[trigger] self@.items[i] == it && it.id == id
                && forall|j: int| 0 <= j < i ==> self@.items[j].id != id,
    {
        match self.find_item(id) {
            Some(i) => Ok(Some(self.items[i].duplicate())),
            None => Ok(None),
        }
    }

    fn variant_ref_exists(&self, id: Option<u128>) -> (r: bool)
        ensures
            r == variant_ref_ok(self@, id),
    {
        match id {
            Some(x) => self.find_equipment_variant(x).is_some(),
            None => true,
        }
    }

    /// Writes a new item.
    pub fn create_item(&mut self, item: &Item) -> (r: crate::error::Result<()>)
        requires
            old(self).wf(),
        ensures
            final(self).wf(),
            create_item_outcome(old(self)@, final(self)@, *item, r),
    {
        if self.find_item(item.id).is_some() {
            return Err(StoremanError::Database("UNIQUE constraint failed: items.id".to_string()));
        }
        if !self.variant_ref_exists(item.equipment_variant_id) {
            return Err(StoremanError::Database("FOREIGN KEY constraint failed".to_string()));
        }
        self.items.push(item.duplicate());
        assert(self@.items.drop_last() =~= old(self)@.items);
        Ok(())
    }

    /// Updates the item `item.id` from `item`, stamping it with `now`; its identifier
    /// and creation time stay.
    pub fn update_item_at(&mut self, item: &Item, now: &String) -> (r: crate::error::Result<()>)
        requires
            old(self).wf(),
        ensures
            final(self).wf(),
            update_item_outcome(old(self)@, final(self)@, *item, *now, r),
    {
        if self.find_item(item.id).is_some() && !self.variant_ref_exists(item.equipment_variant_id) {
            return Err(StoremanError::Database("FOREIGN KEY constraint failed".to_string()));
        }
        let n = self.items.len();
        for i in 0..n
            invariant
                n == self.items@.len() == old(self)@.items.len(),
                forall|j: int| 0 <= j < n ==> if j < i && old(self)@.items[j].id == item.id {
                    #[trigger] self@.items[j] == (Item {
                        id: old(self)@.items[j].id,
                        created_at: old(self)@.items[j].created_at,
                        updated_at: *now,
                        ..*item
                    })
                } else {
                    self@.items[j] == old(self)@.items[j]
                },
                self@ == (DatabaseView { items: self@.items, ..old(self)@ }),
        {
            if self.items[i].id == item.id {
                let id = self.items[i].id;
                let created_at = self.items[i].created_at.clone();
                let updated = Item {
                    id,
                    created_at,
                    updated_at: now.clone(),
                    ..item.duplicate()
                };
                self.items.set(i, updated);
            }
        }
        Ok(())
    }

    /// Updates the item `item.id` from `item`, stamping it with the current time.
    pub fn update_item(&mut self, item: &Item) -> (r: crate::error::Result<()>)
        requires
            old(self).wf(),
        ensures
            final(self).wf(),
            exists|now: String| update_item_outcome(old(self)@, final(self)@, *item, now, r),
    {
        let now = current_timestamp();
        self.update_item_at(item, &now)
    }

    /// The first location with the identifier.
    pub fn get_location(&self, id: u128) -> (r: crate::error::Result<Option<Location>>)
        ensures
            r is Ok,
            r matches Ok(None) ==> !has_location(self@, id),
            r matches Ok(Some(l)) ==> exists|i: int| 0 <= i < self@.locations.len()
                && #[trigger] self@.locations[i] == l && l.id == id
                && forall|j: int| 0 <= j < i ==> self@.locations[j].id != id,
    {
        match self.find_location(id) {
            Some(i) => Ok(Some(self.locations[i].duplicate())),
            None => Ok(None),
        }
    }

    /// Writes a new location.
    pub fn create_location(&mut self, loc: &Location) -> (r: crate::error::Result<()>)
        requires
            old(self).wf(),
        ensures
            final(self).wf(),
            create_location_outcome(old(self)@, final(self)@, *loc, r),
    {
        if self.find_location(loc.id).is_some() {
            return Err(StoremanError::Database("UNIQUE constraint failed: locations.id".to_string()));
        }
        self.locations.push(loc.duplicate());
        Ok(())
    }

    /// Replaces the fields of the location `loc.id`.
    pub fn update_location(&mut self, loc: &Location) -> (r: crate::error::Result<()>)
        requires
            old(self).wf(),
        ensures
            final(self).wf(),
            r is Ok,
            update_location_outcome(old(self)@, final(self)@, *loc),
    {
        let n = self.locations.len();
        for i in 0..n
            invariant
                n == self.locations@.len() == old(self)@.locations.len(),
                forall|j: int| 0 <= j < n ==> #[trigger] self.locations@[j] == if j < i
                    && old(self)@.locations[j].id == loc.id {
                    *loc
                } else {
                    old(self)@.locations[j]
                },
                self@ == (DatabaseView { locations: self@.locations, ..old(self)@ }),
        {
            if self.locations[i].id == loc.id {
                self.locations.set(i, loc.duplicate());
            }
        }
        Ok(())
    }
}

impl UserRecord {
    /// A copy of the record.
    pub fn duplicate_record(&self) -> (r: UserRecord)
        ensures
            r == *self,
    {
        UserRecord { user: self.user.duplicate(), password_hash: self.password_hash.clone() }
    }
}

} // verus!

//! The administrator's new-user form.
use vstd::prelude::*;
use crate::auth::{hash_password, hash_result};
use crate::db::{Database, DatabaseView};
use crate::db::catalog::create_user_outcome;
use crate::error::error_text;
use crate::forms::{error_message, error_status, status_is};
use crate::forms::input::{trimmed, trim_text};
use crate::ids::new_id;
use crate::clock::current_timestamp;
use crate::models::user::{User, parse_role, role_from_text, role_can_admin};

verus! {

/// What the new-user form holds.
pub struct AdminState {
    pub show_user_form: bool,
    pub form_username: String,
    pub form_display_name: String,
    pub form_role: String,
    pub form_rank: String,
    pub form_password: String,
    pub status_msg: Option<String>,
}

impl Default for AdminState {
    fn default() -> (r: Self)
        ensures
            !r.show_user_form,
            r.form_username@ == Seq::<char>::empty(),
            r.form_display_name@ == Seq::<char>::empty(),
            r.form_role@ == "Storeman"@,
            r.form_rank@ == Seq::<char>::empty(),
            r.form_password@ == Seq::<char>::empty(),
            r.status_msg is None,
    {
        AdminState {
            show_user_form: false,
            form_username: String::new(),
            form_display_name: String::new(),
            form_role: "Storeman".to_string(),
            form_rank: String::new(),
            form_password: String::new(),
            status_msg: None,
        }
    }
}

/// The user a checked form creates: the trimmed user name, display name and rank,
/// the chosen role, active, created at `now`, never signed in.
pub open spec fn new_user_fields(u: User, s: AdminState, id: u128, now: String) -> bool {
    &&& u.id == id
    &&& u.username@ == trimmed(s.form_username@)
    &&& u.display_name@ == trimmed(s.form_display_name@)
    &&& u.role == role_from_text(s.form_role@)
    &&& u.rank@ == trimmed(s.form_rank@)
    &&& u.active
    &&& u.created_at == now
    &&& u.last_login is None
}

/// The form shows the message, all else unchanged.
pub open spec fn admin_shows(old: AdminState, new: AdminState, m: Seq<char>) -> bool {
    status_is(new.status_msg, m) && new == (AdminState { status_msg: new.status_msg, ..old })
}

/// The outcome of submitting the new-user form: a user name, a display name (neither
/// blank) and a password are asked for in turn; then the password is hashed (only a
/// password too long to hash fails, and the failure is shown) and the user is written with identifier `id` at `now`. On
/// success the form closes and its user name, display name and password are cleared.
pub open spec fn create_user_form_outcome(
    old_db: DatabaseView,
    new_db: DatabaseView,
    old: AdminState,
    new: AdminState,
    id: u128,
    now: String,
) -> bool {
    if trimmed(old.form_username@).len() == 0 {
        admin_shows(old, new, "✗ Username is required"@) && new_db == old_db
    } else if trimmed(old.form_display_name@).len() == 0 {
        admin_shows(old, new, "✗ Display name is required"@) && new_db == old_db
    } else if old.form_password@.len() == 0 {
        admin_shows(old, new, "✗ Password is required"@) && new_db == old_db
    } else {
        exists|h: crate::error::Result<String>|
            #[trigger] hash_result(old.form_password@, h) && match h {
                Err(e) => admin_shows(old, new, "✗ Hash error: "@ + error_text(e)) && new_db == old_db,
                Ok(hash) => exists|u: User, c: crate::error::Result<()>|
                    #[trigger] create_user_outcome(old_db, new_db, u, hash@, c) && {
                    &&& new_user_fields(u, old, id, now)
                    &&& match c {
                        Ok(_) => {
                            &&& status_is(new.status_msg, "✓ User '"@ + u.username@ + "' created"@)
                            &&& !new.show_user_form
                            &&& new.form_username@ == Seq::<char>::empty()
                            &&& new.form_display_name@ == Seq::<char>::empty()
                            &&& new.form_password@ == Seq::<char>::empty()
                            &&& new.form_role == old.form_role
                            &&& new.form_rank == old.form_rank
                        },
                        Err(e) => admin_shows(old, new, error_message(e)),
                    }
                },
            }
    }
}

/// Submits the new-user form, the user taking identifier `id` and creation time `now`.
pub fn create_user_form_at(db: &mut Database, state: &mut AdminState, id: u128, now: &String)
    requires
        old(db).wf(),
    ensures
        final(db).wf(),
        create_user_form_outcome(old(db)@, final(db)@, *old(state), *final(state), id, *now),
{
    let username = trim_text(state.form_username.as_str());
    if username.as_str().is_empty() {
        state.status_msg = Some("✗ Username is required".to_string());
        return;
    }
    let display_name = trim_text(state.form_display_name.as_str());
    if display_name.as_str().is_empty() {
        state.status_msg = Some("✗ Display name is required".to_string());
        return;
    }
    if state.form_password.as_str().is_empty() {
        state.status_msg = Some("✗ Password is required".to_string());
        return;
    }
    let h = hash_password(state.form_password.as_str());
    assert(hash_result(state.form_password@, h));
    let hash = match h {
        Ok(x) => x,
        Err(e) => {
            let mut m = "✗ Hash error: ".to_string();
            let t = e.to_string();
            m.append(t.as_str());
            state.status_msg = Some(m);
            return;
        },
    };
    let user = User {
        id,
        username,
        display_name,
        role: parse_role(state.form_role.as_str()),
        rank: trim_text(state.form_rank.as_str()),
        active: true,
        created_at: now.clone(),
        last_login: None,
    };
    let c = db.create_user(&user, hash.as_str());
    match c {
        Ok(()) => {
            let mut m = "✓ User '".to_string();
            m.append(user.username.as_str());
            m.append("' created");
            state.status_msg = Some(m);
            state.show_user_form = false;
            state.form_username = String::new();
            state.form_display_name = String::new();
            state.form_password = String::new();
        },
        Err(e) => {
            state.status_msg = Some(error_status(&e));
        },
    }
    assert(new_user_fields(user, *old(state), id, *now));
}

/// Submits the new-user form with a fresh identifier and the current time.
pub fn create_user_form(db: &mut Database, state: &mut AdminState)
    requires
        old(db).wf(),
    ensures
        final(db).wf(),
        exists|id: u128, now: String| #[trigger] create_user_form_outcome(old(db)@, final(db)@, *old(state),
            *final(state), id, now),
{
    let id = new_id();
    let now = current_timestamp();
    create_user_form_at(db, state, id, &now)
}

/// The notice shown instead of the admin screen to a user whose role may not
/// administer.
pub fn admin_notice(user: &User) -> (r: Option<String>)
    ensures
        r is Some <==> !role_can_admin(user.role),
        r matches Some(m) ==> m@ == "⚠ Administrator access required."@,
{
    if user.role.can_admin() {
        None
    } else {
        Some("⚠ Administrator access required.".to_string())
    }
}

} // verus!

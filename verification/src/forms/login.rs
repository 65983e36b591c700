//! The sign-in form.
use vstd::prelude::*;
use crate::auth::{authenticate, authenticate_outcome};
use crate::db::{Database, DatabaseView};
use crate::forms::{Screen, status_is};
use crate::models::user::User;

verus! {

/// What the sign-in form holds.
pub struct LoginState {
    pub username: String,
    pub password: String,
    pub error: Option<String>,
}

impl Default for LoginState {
    fn default() -> (r: Self)
        ensures
            r.username@ == Seq::<char>::empty(),
            r.password@ == Seq::<char>::empty(),
            r.error is None,
    {
        LoginState { username: String::new(), password: String::new(), error: None }
    }
}

/// The outcome of submitting the sign-in form: nothing without a user name;
/// otherwise the sign-in is tried, and gives the user and clears the error, or shows
/// that the user name or password is wrong.
pub open spec fn login_form_outcome(
    old_db: DatabaseView,
    new_db: DatabaseView,
    old: LoginState,
    new: LoginState,
    r: Option<User>,
) -> bool {
    if old.username@.len() == 0 {
        r is None && new == old && new_db == old_db
    } else {
        exists|now: String, a: crate::error::Result<User>|
            #[trigger] authenticate_outcome(old_db, new_db, old.username@, old.password@, now, a) && match a {
                Ok(u) => r == Some(u) && new == (LoginState { error: None, ..old }),
                Err(_) => r is None && status_is(new.error, "Invalid username or password"@) && new == (
                LoginState { error: new.error, ..old }),
            }
    }
}

/// Submits the sign-in form.
pub fn submit_login(db: &mut Database, state: &mut LoginState) -> (r: Option<User>)
    requires
        old(db).wf(),
    ensures
        final(db).wf(),
        login_form_outcome(old(db)@, final(db)@, *old(state), *final(state), r),
{
    if state.username.as_str().is_empty() {
        return None;
    }
    match authenticate(db, state.username.as_str(), state.password.as_str()) {
        Ok(u) => {
            state.error = None;
            Some(u)
        },
        Err(_) => {
            state.error = Some("Invalid username or password".to_string());
            None
        },
    }
}

/// Signs out: no user, the sign-in screen, and a blank sign-in form.
pub fn sign_out(user: &mut Option<User>, screen: &mut Screen, login: &mut LoginState)
    ensures
        *final(user) is None,
        *final(screen) == Screen::Login,
        final(login).username@ == Seq::<char>::empty(),
        final(login).password@ == Seq::<char>::empty(),
        final(login).error is None,
{
    *user = None;
    *screen = Screen::Login;
    *login = LoginState::default();
}

} // verus!

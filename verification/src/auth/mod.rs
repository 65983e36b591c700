//! Authentication (Argon2 password hashes) and role-based access control.
use vstd::prelude::*;
use crate::db::{Database, DatabaseView, UserRecord};
use crate::db::catalog::{login_recorded, create_user_outcome};
use crate::error::StoremanError;
use crate::models::user::User;
use crate::clock::current_timestamp;

pub mod rbac;

verus! {

/// Whether `password` matches the Argon2 hash `hash`, a PHC string.
pub uninterp spec fn password_matches(password: Seq<char>, hash: Seq<char>) -> bool;

/// The PHC string of the Argon2 hash of `password` with the default parameters and the
/// salt `salt` (Base64 text).
pub uninterp spec fn argon2_phc(password: Seq<char>, salt: Seq<char>) -> Seq<char>;

/// Whether the password matches the hash: `argon2::PasswordHash::new` parses the PHC
/// string (a string that does not parse matches nothing) and
/// `Argon2::default().verify_password` recomputes the hash of the password with the
/// parsed algorithm, version, parameters and salt and compares it with the parsed
/// output. The contract names that answer: it depends on the two texts alone. It also
/// states what the parser shows of texts that are no PHC string at all: an empty
/// text, or one that does not start with `$`, fails to parse and so matches nothing.
#[verifier::external_body]
fn argon2_verify(password: &str, hash: &str) -> (r: bool)
    ensures
        r == password_matches(password@, hash@),
        hash@.len() == 0 || hash@[0] != '$' ==> !r,
{
    match argon2::PasswordHash::new(hash) {
        Ok(parsed) => argon2::PasswordVerifier::verify_password(&argon2::Argon2::default(),
            password.as_bytes(), &parsed).is_ok(),
        Err(_) => false,
    }
}

/// A character of the standard Base64 alphabet (`A`-`Z`, `a`-`z`, `0`-`9`, `+`, `/`).
pub open spec fn is_b64_char(c: char) -> bool {
    ('A' <= c && c <= 'Z') || ('a' <= c && c <= 'z') || ('0' <= c && c <= '9') || c == '+' || c == '/'
}

/// The unpadded Base64 text of 16 bytes: 22 characters of the alphabet, the last of
/// which carries only two bits (so it is `A`, `Q`, `g` or `w`).
pub open spec fn is_b64_salt16(s: Seq<char>) -> bool {
    &&& s.len() == 22
    &&& forall|i: int| 0 <= i < 22 ==> #[trigger] is_b64_char(s[i])
    &&& (s[21] == 'A' || s[21] == 'Q' || s[21] == 'g' || s[21] == 'w')
}

/// The text an Argon2id PHC string starts with.
pub open spec fn argon2id_prefix() -> Seq<char> {
    "$argon2id$"@
}

/// A fresh random salt, as Base64 text (`SaltString::generate` with the operating
/// system's generator, `rand::rngs::OsRng`): it encodes 16 random bytes with the
/// unpadded standard Base64 alphabet. Which bytes is not stated: they are random.
#[verifier::external_body]
fn random_salt() -> (r: String)
    ensures
        is_b64_salt16(r@),
{
    argon2::password_hash::SaltString::generate(&mut rand::rngs::OsRng).as_str().to_string()
}

/// The Argon2 hash of the password with the given salt (`SaltString::from_b64`, then
/// `Argon2::default().hash_password`), as a PHC string, or the message of the error.
/// The contract names the hash and states what the crates show of it: the password it
/// was made from verifies against it, and the string starts `$argon2id$` (the default
/// algorithm, written first by the PHC display). The hasher refuses only a salt that is
/// not canonical Base64 of 8 bytes or more, or a password over `0xFFFF_FFFF` bytes, so
/// a 16-byte Base64 salt and a password of at most that many bytes (four per
/// character at most) hash. The message of an error is left unsaid.
#[verifier::external_body]
fn argon2_hash_with_salt(password: &str, salt: &str) -> (r: std::result::Result<String, String>)
    ensures
        r matches Ok(h) ==> h@ == argon2_phc(password@, salt@) && password_matches(password@, h@)
            && h@.len() >= 10 && h@.subrange(0, 10) == argon2id_prefix(),
        is_b64_salt16(salt@) && password@.len() * 4 <= 0xFFFF_FFFF ==> r is Ok,
{
    match argon2::password_hash::SaltString::from_b64(salt) {
        Ok(s) => match argon2::PasswordHasher::hash_password(&argon2::Argon2::default(),
            password.as_bytes(), &s) {
            Ok(h) => Ok(h.to_string()),
            Err(e) => Err(e.to_string()),
        },
        Err(e) => Err(e.to_string()),
    }
}

/// What hashing a password gives: an Argon2id PHC string that the password matches;
/// an error of kind `Other` only for a password too long to hash.
pub open spec fn hash_result(password: Seq<char>, r: crate::error::Result<String>) -> bool {
    &&& r matches Ok(h) ==> password_matches(password, h@) && h@.len() >= 10
        && h@.subrange(0, 10) == argon2id_prefix()
    &&& r matches Err(e) ==> e is Other && password.len() * 4 > 0xFFFF_FFFF
}

/// Hashes a password with a fresh random salt. A hash it gives verifies the password;
/// only a password of more than `0xFFFF_FFFF` bytes fails, as `Other` with the
/// hasher's message.
pub fn hash_password(password: &str) -> (r: crate::error::Result<String>)
    ensures
        hash_result(password@, r),
{
    let salt = random_salt();
    match argon2_hash_with_salt(password, salt.as_str()) {
        Ok(h) => Ok(h),
        Err(m) => Err(StoremanError::Other(m)),
    }
}

/// Whether the password matches the hash; text that is not a PHC string matches no
/// password.
pub fn verify_password(password: &str, hash: &str) -> (r: bool)
    ensures
        r == password_matches(password@, hash@),
        hash@.len() == 0 || hash@[0] != '$' ==> !r,
{
    argon2_verify(password, hash)
}

/// `i` is the position of the first user with the username.
pub open spec fn is_first_named(users: Seq<UserRecord>, username: Seq<char>, i: int) -> bool {
    &&& 0 <= i < users.len()
    &&& users[i].user.username@ == username
    &&& forall|j: int| 0 <= j < i ==> #[trigger] users[j].user.username@ != username
}

/// The first user row with the username, if any.
pub open spec fn user_named(v: DatabaseView, username: Seq<char>) -> Option<UserRecord> {
    if exists|i: int| #[trigger] is_first_named(v.users, username, i) {
        Some(v.users[choose|i: int| #[trigger] is_first_named(v.users, username, i)])
    } else {
        None
    }
}

/// The outcome of signing in: refused (`AuthFailed`, nothing changed) for an unknown
/// username, an inactive user or a wrong password; otherwise the user, as read before
/// the sign-in, with the sign-in time `now` recorded as the user's last login.
pub open spec fn authenticate_outcome(
    old: DatabaseView,
    new: DatabaseView,
    username: Seq<char>,
    password: Seq<char>,
    now: String,
    r: std::result::Result<User, StoremanError>,
) -> bool {
    match user_named(old, username) {
        None => r == Err::<User, StoremanError>(StoremanError::AuthFailed) && new == old,
        Some(rec) => if !rec.user.active || !password_matches(password, rec.password_hash@) {
            r == Err::<User, StoremanError>(StoremanError::AuthFailed) && new == old
        } else {
            r == Ok::<User, StoremanError>(rec.user) && login_recorded(old, new, rec.user.id, now)
        },
    }
}

/// Signs a user in, recording `now` as the last login.
pub fn authenticate_at(db: &mut Database, username: &str, password: &str, now: &String)
    -> (r: crate::error::Result<User>)
    requires
        old(db).wf(),
    ensures
        final(db).wf(),
        authenticate_outcome(old(db)@, final(db)@, username@, password@, *now, r),
{
    let found = match db.get_user_by_username(username) {
        Ok(f) => f,
        Err(e) => return Err(e),
    };
    let (user, hash) = match found {
        Some(p) => p,
        None => {
            assert(!exists|i: int| #[trigger] is_first_named(old(db)@.users, username@, i));
            return Err(StoremanError::AuthFailed);
        },
    };
    proof {
        let i = choose|i: int| 0 <= i < old(db)@.users.len()
            && #[trigger] old(db)@.users[i] == (UserRecord { user: user, password_hash: hash })
            && old(db)@.users[i].user.username@ == username@
            && forall|j: int| 0 <= j < i ==> old(db)@.users[j].user.username@ != username@;
        assert(is_first_named(old(db)@.users, username@, i));
        let k = choose|k: int| #[trigger] is_first_named(old(db)@.users, username@, k);
        if k < i {
            assert(old(db)@.users[k].user.username@ != username@);
        }
        if k > i {
            assert(old(db)@.users[i].user.username@ != username@);
        }
        assert(user_named(old(db)@, username@) == Some(UserRecord { user: user, password_hash: hash }));
    }
    if !user.active {
        return Err(StoremanError::AuthFailed);
    }
    if !verify_password(password, hash.as_str()) {
        return Err(StoremanError::AuthFailed);
    }
    match db.update_last_login_at(user.id, now) {
        Ok(()) => {},
        Err(e) => return Err(e),
    }
    Ok(user)
}

/// Signs a user in, recording the current time as the last login.
pub fn authenticate(db: &mut Database, username: &str, password: &str) -> (r: crate::error::Result<User>)
    requires
        old(db).wf(),
    ensures
        final(db).wf(),
        exists|now: String| #[trigger] authenticate_outcome(old(db)@, final(db)@, username@, password@, now, r),
{
    let now = current_timestamp();
    authenticate_at(db, username, password, &now)
}

/// Signing in is refused, with the store unchanged, for a user name that no user has,
/// for an inactive user, and for a password the user's hash does not match; a
/// sign-in that succeeds gives an active user with that name.
pub proof fn law_sign_in_refusals(v: DatabaseView, c: DatabaseView, username: Seq<char>, password: Seq<char>,
    now: String, r: std::result::Result<User, StoremanError>)
    requires
        authenticate_outcome(v, c, username, password, now, r),
    ensures
        (forall|i: int| 0 <= i < v.users.len() ==> #[trigger] v.users[i].user.username@ != username) ==> (r
            == Err::<User, StoremanError>(StoremanError::AuthFailed) && c == v),
        user_named(v, username) matches Some(rec) && (!rec.user.active || !password_matches(password,
            rec.password_hash@)) ==> (r == Err::<User, StoremanError>(StoremanError::AuthFailed) && c == v),
        r matches Ok(u) ==> u.active && u.username@ == username,
{
    if exists|i: int| #[trigger] is_first_named(v.users, username, i) {
        let i = choose|i: int| #[trigger] is_first_named(v.users, username, i);
        assert(v.users[i].user.username@ == username);
    }
}

/// A user written with the hash of a password signs in with that password while
/// active, and the sign-in gives back the user as written.
pub proof fn law_registered_password_signs_in(
    a: DatabaseView,
    b: DatabaseView,
    c: DatabaseView,
    user: User,
    hash: Seq<char>,
    password: Seq<char>,
    now: String,
    r: std::result::Result<User, StoremanError>,
)
    requires
        create_user_outcome(a, b, user, hash, Ok(())),
        password_matches(password, hash),
        user.active,
        authenticate_outcome(b, c, user.username@, password, now, r),
    ensures
        r == Ok::<User, StoremanError>(User { last_login: None, ..user }),
{
    let last = b.users.len() - 1;
    assert(b.users[last] == b.users.last());
    assert forall|j: int| 0 <= j < last implies #[trigger] b.users[j].user.username@ != user.username@ by {
        assert(b.users[j] == a.users[j]);
    }
    assert(is_first_named(b.users, user.username@, last));
    let k = choose|k: int| #[trigger] is_first_named(b.users, user.username@, k);
    if k < last {
        assert(b.users[k].user.username@ != user.username@);
    }
}

} // verus!

//! User operations. Passwords are never stored: a plain-text password is
//! turned into an opaque hash by the hashing collaborator before the row is
//! written. Email addresses are unique across all users, and a duplicate is a
//! persistence-layer uniqueness violation, never silent success.

use vstd::prelude::*;
use crate::dto::{CreateUserRequest, UpdateUserRequest};
use crate::error::{invalid_fields_error, ids_exhausted_error, no_fields_error, AppError};
use crate::error::{invalid_fields_msg, ids_exhausted_msg, no_fields_msg};
use crate::models::User;
use crate::order::{lemma_insert_ordered_at, lemma_order_by_push, lemma_order_by_sorted,
    lemma_order_by_sub, order_by, ordered_by};
use crate::store::{keys_unique, lemma_filter_push, lemma_update_same_key, Ledger};
use crate::strutil::{dec_digits, msg_id, msg_str};

verus! {

/// Whether some active user row carries the id.
pub open spec fn has_active_user(s: Seq<User>, id: u128) -> bool {
    exists|i: int| 0 <= i < s.len() && s[i].id == id && s[i].is_active
}

/// The index of the active user row carrying the id.
pub open spec fn active_user_idx(s: Seq<User>, id: u128) -> int {
    choose|i: int| 0 <= i < s.len() && s[i].id == id && s[i].is_active
}

/// Whether some user row — active or not — carries the email.
pub open spec fn has_user_email(s: Seq<User>, email: Seq<char>) -> bool {
    exists|i: int| 0 <= i < s.len() && s[i].email@ == email
}

/// Whether some active user row carries the email.
pub open spec fn has_active_user_email(s: Seq<User>, email: Seq<char>) -> bool {
    exists|i: int| 0 <= i < s.len() && s[i].email@ == email && s[i].is_active
}

/// The index of the active user row carrying the email.
pub open spec fn active_user_email_idx(s: Seq<User>, email: Seq<char>) -> int {
    choose|i: int| 0 <= i < s.len() && s[i].email@ == email && s[i].is_active
}

/// Whether a user row other than the one at `i` carries the email.
pub open spec fn email_taken_by_other(s: Seq<User>, i: int, email: Seq<char>) -> bool {
    exists|j: int| 0 <= j < s.len() && j != i && s[j].email@ == email
}

/// The stored row matches the registration request: every plain field is the
/// request's, the row is active with fresh stamps, and a hash is present
/// exactly when a password was supplied. The hash value itself is the hashing
/// collaborator's and is not specified.
pub open spec fn user_matches_request(u: User, req: CreateUserRequest, id: u128, now: i64) -> bool {
    &&& u.id == id
    &&& u.auth_provider_id == req.auth_provider_id
    &&& u.auth_provider_type == req.auth_provider_type
    &&& u.email == req.email
    &&& (u.password_hash is Some <==> req.password is Some)
    &&& u.first_name == req.first_name
    &&& u.last_name == req.last_name
    &&& u.is_active
    &&& u.last_login_at is None
    &&& u.created_at == now
    &&& u.updated_at == now
}

/// The updated row matches the sparse request: carried fields replace the old
/// values, a carried password yields some fresh hash, everything else is
/// kept, and the audit stamp is refreshed.
pub open spec fn user_matches_patch(u: User, orig: User, req: UpdateUserRequest, now: i64) -> bool {
    &&& u.id == orig.id
    &&& u.auth_provider_id == orig.auth_provider_id
    &&& u.auth_provider_type == orig.auth_provider_type
    &&& u.email == (if req.email is Some {
        req.email->0
    } else {
        orig.email
    })
    &&& (if req.password is Some {
        u.password_hash is Some
    } else {
        u.password_hash == orig.password_hash
    })
    &&& u.first_name == (if req.first_name is Some {
        req.first_name->0
    } else {
        orig.first_name
    })
    &&& u.last_name == (if req.last_name is Some {
        req.last_name->0
    } else {
        orig.last_name
    })
    &&& u.is_active == orig.is_active
    &&& u.last_login_at == orig.last_login_at
    &&& u.created_at == orig.created_at
    &&& u.updated_at == now
}

pub open spec fn user_not_found_msg(id: u128) -> Seq<char> {
    "User with ID "@ + dec_digits(id as int) + " not found"@
}

pub open spec fn user_email_not_found_msg(email: Seq<char>) -> Seq<char> {
    "User with email '"@ + email + "' not found"@
}

pub open spec fn user_email_exists_msg(email: Seq<char>) -> Seq<char> {
    "User with email '"@ + email + "' already exists"@
}

/// Relies on password_hash's `try_generate_salt`: a fresh random salt from the
/// system RNG, or the RNG's error as text. The salt is random, so nothing is
/// promised of the value.
#[verifier::external_body]
fn generate_salt() -> Result<Vec<u8>, String> {
    match argon2::password_hash::try_generate_salt() {
        Ok(s) => Ok(s.to_vec()),
        Err(e) => Err(e.to_string()),
    }
}

/// Relies on argon2's `hash_password_with_salt` under default parameters: on
/// success the PHC string of the computed hash, else the algorithm's error as
/// text. The parameters carried in the result are the algorithm's own; the
/// hash value is not specified further.
#[verifier::external_body]
fn argon2_hash(password: &str, salt: &Vec<u8>) -> Result<String, String> {
    match argon2::PasswordHasher::hash_password_with_salt(
        &argon2::Argon2::default(),
        password.as_bytes(),
        salt.as_slice(),
    ) {
        Ok(h) => Ok(h.to_string()),
        Err(e) => Err(e.to_string()),
    }
}

/// Hashes a plain-text password with a fresh random salt. The hash is opaque;
/// a failure of the RNG or of the algorithm surfaces as an internal error.
pub fn hash_password(password: &str) -> (r: Result<String, AppError>)
    ensures
        match r {
            Ok(_) => true,
            Err(e) => e is InternalServerError,
        },
{
    let salt = match generate_salt() {
        Ok(s) => s,
        Err(m) => {
            return Err(AppError::InternalServerError(
                "Failed to hash password: ".to_owned().concat(m.as_str()),
            ));
        },
    };
    match argon2_hash(password, &salt) {
        Ok(h) => Ok(h),
        Err(m) => Err(AppError::InternalServerError(
            "Failed to hash password: ".to_owned().concat(m.as_str()),
        )),
    }
}

fn find_active_user(v: &Vec<User>, id: u128) -> (r: Option<usize>)
    ensures
        match r {
            Some(i) => 0 <= i < v@.len() && v@[i as int].id == id && v@[i as int].is_active,
            None => !has_active_user(v@, id),
        },
{
    let mut i: usize = 0;
    while i < v.len()
        invariant
            0 <= i <= v@.len(),
            forall|k: int| 0 <= k < i ==> !(v@[k].id == id && v@[k].is_active),
        decreases v@.len() - i,
    {
        if v[i].id == id && v[i].is_active {
            return Some(i);
        }
        i += 1;
    }
    None
}

fn email_in_use(v: &Vec<User>, email: &str) -> (r: bool)
    ensures
        r == has_user_email(v@, email@),
{
    let mut i: usize = 0;
    while i < v.len()
        invariant
            0 <= i <= v@.len(),
            forall|k: int| 0 <= k < i ==> (#[trigger] v@[k]).email@ != email@,
        decreases v@.len() - i,
    {
        if crate::strutil::str_eq(v[i].email.as_str(), email) {
            return true;
        }
        i += 1;
    }
    false
}

fn email_in_use_by_other(v: &Vec<User>, skip: usize, email: &str) -> (r: bool)
    ensures
        r == email_taken_by_other(v@, skip as int, email@),
{
    let mut i: usize = 0;
    while i < v.len()
        invariant
            0 <= i <= v@.len(),
            forall|k: int| 0 <= k < i && k != skip ==> (#[trigger] v@[k]).email@ != email@,
        decreases v@.len() - i,
    {
        if i != skip && crate::strutil::str_eq(v[i].email.as_str(), email) {
            return true;
        }
        i += 1;
    }
    false
}

/// The listing order of users: most recently registered first.
pub open spec fn user_le(a: User, b: User) -> bool {
    a.created_at >= b.created_at
}

/// What a listing returns: the active rows, newest registration first; equal
/// stamps keep their insertion order.
pub open spec fn users_listed(s: Seq<User>) -> Seq<User> {
    order_by(s.filter(|u: User| u.is_active), |a: User, b: User| user_le(a, b))
}

/// The position a row takes among already-listed rows.
fn user_insert_pos(v: &Vec<User>, x: &User) -> (j: usize)
    ensures
        0 <= j <= v@.len(),
        forall|k: int| 0 <= k < j ==> user_le(#[trigger] v@[k], *x),
        j < v@.len() ==> !user_le(v@[j as int], *x),
{
    let mut j: usize = 0;
    while j < v.len()
        invariant
            0 <= j <= v@.len(),
            forall|k: int| 0 <= k < j ==> user_le(#[trigger] v@[k], *x),
        decreases v@.len() - j,
    {
        if !(v[j].created_at >= x.created_at) {
            return j;
        }
        j += 1;
    }
    j
}

/// Lists the active users, most recently registered first; equal stamps keep
/// insertion order.
pub fn list_users(store: &Ledger) -> (r: Vec<User>)
    ensures
        r@ == users_listed(store.users@),
        ordered_by(r@, |a: User, b: User| user_le(a, b)),
        forall|i: int| 0 <= i < r@.len() ==> (#[trigger] r@[i]).is_active,
{
    let mut r: Vec<User> = Vec::new();
    let mut i: usize = 0;
    while i < store.users.len()
        invariant
            0 <= i <= store.users@.len(),
            r@ == order_by(
                store.users@.subrange(0, i as int).filter(|u: User| u.is_active),
                |a: User, b: User| user_le(a, b),
            ),
        decreases store.users@.len() - i,
    {
        let ghost f = store.users@.subrange(0, i as int).filter(|u: User| u.is_active);
        proof {
            assert(store.users@.subrange(0, i + 1) =~= store.users@.subrange(0, i as int).push(
                store.users@[i as int],
            ));
            lemma_filter_push(
                store.users@.subrange(0, i as int),
                |u: User| u.is_active,
                store.users@[i as int],
            );
        }
        if store.users[i].is_active {
            let x = store.users[i].clone();
            let j = user_insert_pos(&r, &x);
            proof {
                lemma_insert_ordered_at(x, r@, |a: User, b: User| user_le(a, b), j as int);
                lemma_order_by_push(f, |a: User, b: User| user_le(a, b), x);
            }
            r.insert(j, x);
        }
        i += 1;
    }
    proof {
        assert(store.users@.subrange(0, store.users@.len() as int) =~= store.users@);
        let f = store.users@.filter(|u: User| u.is_active);
        lemma_order_by_sorted(f, |a: User, b: User| user_le(a, b));
        lemma_order_by_sub(f, |a: User, b: User| user_le(a, b));
        assert forall|i: int| 0 <= i < r@.len() implies (#[trigger] r@[i]).is_active by {
            let j = choose|j: int| 0 <= j < f.len() && r@[i] == f[j];
            store.users@.lemma_filter_pred(|u: User| u.is_active, j);
        }
    }
    r
}

/// Fetches an active user by id; an absent or inactive id is NotFound.
pub fn get_user_by_id(store: &Ledger, user_id: u128) -> (r: Result<User, AppError>)
    requires
        store.wf(),
    ensures
        match r {
            Ok(u) => has_active_user(store.users@, user_id) && u == store.users@[
                active_user_idx(store.users@, user_id)
            ],
            Err(e) => {
                &&& !has_active_user(store.users@, user_id)
                &&& e is NotFound
                &&& e.spec_message() == user_not_found_msg(user_id)
            },
        },
{
    match find_active_user(&store.users, user_id) {
        Some(i) => {
            proof {
                let j = active_user_idx(store.users@, user_id);
                assert(store.users@[j].id == user_id && store.users@[j].is_active);
                assert(keys_unique(store.users@, |u: User| u.id));
                assert(j == i as int);
            }
            Ok(store.users[i].clone())
        },
        None => Err(AppError::NotFound(msg_id("User with ID ", user_id, " not found"))),
    }
}

/// Fetches an active user by email; an absent or inactive address is NotFound.
pub fn get_user_by_email(store: &Ledger, email: &str) -> (r: Result<User, AppError>)
    requires
        store.wf(),
    ensures
        match r {
            Ok(u) => has_active_user_email(store.users@, email@) && u == store.users@[
                active_user_email_idx(store.users@, email@)
            ],
            Err(e) => {
                &&& !has_active_user_email(store.users@, email@)
                &&& e is NotFound
                &&& e.spec_message() == user_email_not_found_msg(email@)
            },
        },
{
    let mut i: usize = 0;
    while i < store.users.len()
        invariant
            store.wf(),
            0 <= i <= store.users@.len(),
            forall|k: int|
                0 <= k < i ==> !((#[trigger] store.users@[k]).email@ == email@
                    && store.users@[k].is_active),
        decreases store.users@.len() - i,
    {
        if store.users[i].is_active && crate::strutil::str_eq(store.users[i].email.as_str(), email) {
            proof {
                assert(has_active_user_email(store.users@, email@)) by {
                    assert(store.users@[i as int].email@ == email@
                        && store.users@[i as int].is_active);
                }
                let j = active_user_email_idx(store.users@, email@);
                assert(store.users@[j].email@ == email@ && store.users@[j].is_active);
                assert(keys_unique(store.users@, |u: User| u.email@));
                let key = |u: User| u.email@;
                assert(key(store.users@[j]) == key(store.users@[i as int]));
                assert(j == i as int);
            }
            return Ok(store.users[i].clone());
        }
        i += 1;
    }
    Err(AppError::NotFound(msg_str("User with email '", email, "' not found")))
}

/// Registers a user from a validated request. A duplicate email — active or
/// not — is a uniqueness violation reported as a persistence-layer error; a
/// supplied password is hashed before the row is written, and only a failure
/// of the hashing collaborator can make an otherwise-acceptable registration
/// fail, as an internal error.
pub fn create_user(store: &mut Ledger, now: i64, req: CreateUserRequest) -> (r: Result<User, AppError>)
    requires
        old(store).wf(),
    ensures
        final(store).wf(),
        r is Ok ==> (req.valid() && !has_user_email(old(store).users@, req.email@) && old(
            store,
        ).can_assign_ids(1)),
        (req.valid() && !has_user_email(old(store).users@, req.email@) && old(store).can_assign_ids(
            1,
        ) && req.password is None) ==> r is Ok,
        match r {
            Ok(u) => {
                &&& user_matches_request(u, req, old(store).next_id, now)
                &&& final(store).users@ == old(store).users@.push(u)
                &&& final(store).next_id == old(store).next_id + 1
                &&& *final(store) == (Ledger {
                    users: final(store).users,
                    next_id: final(store).next_id,
                    ..*old(store)
                })
            },
            Err(e) => {
                &&& *final(store) == *old(store)
                &&& if !req.valid() {
                    e is Validation && e.spec_message() == invalid_fields_msg()
                } else if has_user_email(old(store).users@, req.email@) {
                    e is DatabaseError && e.spec_message() == user_email_exists_msg(req.email@)
                } else if !old(store).can_assign_ids(1) {
                    e is InternalServerError && e.spec_message() == ids_exhausted_msg()
                } else {
                    e is InternalServerError && req.password is Some
                }
            },
        },
{
    if !req.validate() {
        return Err(invalid_fields_error());
    }
    if email_in_use(&store.users, req.email.as_str()) {
        return Err(AppError::DatabaseError(
            msg_str("User with email '", req.email.as_str(), "' already exists"),
        ));
    }
    if store.next_id == u128::MAX {
        return Err(ids_exhausted_error());
    }
    let password_hash = match req.password {
        Some(p) => {
            match hash_password(p.as_str()) {
                Ok(h) => Some(h),
                Err(e) => {
                    return Err(e);
                },
            }
        },
        None => None,
    };
    let id = store.next_id;
    store.next_id = store.next_id + 1;
    let row = User {
        id,
        auth_provider_id: req.auth_provider_id,
        auth_provider_type: req.auth_provider_type,
        email: req.email,
        password_hash,
        first_name: req.first_name,
        last_name: req.last_name,
        is_active: true,
        last_login_at: None,
        created_at: now,
        updated_at: now,
    };
    let copy = row.clone();
    proof {
        let key_id = |u: User| u.id;
        let key_email = |u: User| u.email@;
        assert forall|a: int, b: int|
            0 <= a < b < store.users@.push(row).len() implies key_id(store.users@.push(row)[a])
            != key_id(store.users@.push(row)[b]) by {
            if b < store.users@.len() {
                assert(key_id(store.users@[a]) != key_id(store.users@[b]));
            } else {
                assert(key_id(store.users@[a]) < store.next_id);
            }
        }
        assert forall|a: int, b: int|
            0 <= a < b < store.users@.push(row).len() implies key_email(
            store.users@.push(row)[a],
        ) != key_email(store.users@.push(row)[b]) by {
            if b < store.users@.len() {
                assert(key_email(store.users@[a]) != key_email(store.users@[b]));
            } else {
                assert(!has_user_email(store.users@, row.email@));
            }
        }
    }
    store.users.push(row);
    Ok(copy)
}

/// Applies a sparse update to an active user. Omitted fields keep their prior
/// values; a carried password is hashed afresh; the audit stamp is always
/// refreshed; and a carried email that another user already holds is a
/// uniqueness violation. Only a failure of the hashing collaborator can make
/// an otherwise-acceptable update fail, as an internal error.
pub fn update_user(store: &mut Ledger, user_id: u128, now: i64, req: UpdateUserRequest) -> (r: Result<
    User,
    AppError,
>)
    requires
        old(store).wf(),
    ensures
        final(store).wf(),
        r is Ok ==> (!req.is_empty() && req.valid() && has_active_user(old(store).users@, user_id)
            && (req.email is Some ==> !email_taken_by_other(
            old(store).users@,
            active_user_idx(old(store).users@, user_id),
            req.email->0@,
        ))),
        (!req.is_empty() && req.valid() && has_active_user(old(store).users@, user_id) && (
        req.email is Some ==> !email_taken_by_other(
            old(store).users@,
            active_user_idx(old(store).users@, user_id),
            req.email->0@,
        )) && req.password is None) ==> r is Ok,
        match r {
            Ok(u) => {
                let i = active_user_idx(old(store).users@, user_id);
                &&& user_matches_patch(u, old(store).users@[i], req, now)
                &&& final(store).users@ == old(store).users@.update(i, u)
                &&& *final(store) == (Ledger { users: final(store).users, ..*old(store) })
            },
            Err(e) => {
                &&& *final(store) == *old(store)
                &&& if req.is_empty() {
                    e is Validation && e.spec_message() == no_fields_msg()
                } else if !req.valid() {
                    e is Validation && e.spec_message() == invalid_fields_msg()
                } else if !has_active_user(old(store).users@, user_id) {
                    e is NotFound && e.spec_message() == user_not_found_msg(user_id)
                } else if req.email is Some && email_taken_by_other(
                    old(store).users@,
                    active_user_idx(old(store).users@, user_id),
                    req.email->0@,
                ) {
                    e is DatabaseError && e.spec_message() == user_email_exists_msg(req.email->0@)
                } else {
                    e is InternalServerError && req.password is Some
                }
            },
        },
{
    if req.no_fields() {
        return Err(no_fields_error());
    }
    if !req.validate() {
        return Err(invalid_fields_error());
    }
    let i = match find_active_user(&store.users, user_id) {
        Some(i) => i,
        None => {
            return Err(AppError::NotFound(msg_id("User with ID ", user_id, " not found")));
        },
    };
    proof {
        assert(keys_unique(store.users@, |u: User| u.id));
        assert(active_user_idx(store.users@, user_id) == i as int);
    }
    if let Some(e) = &req.email {
        if email_in_use_by_other(&store.users, i, e.as_str()) {
            return Err(AppError::DatabaseError(
                msg_str("User with email '", e.as_str(), "' already exists"),
            ));
        }
    }
    let new_hash = match &req.password {
        Some(p) => {
            match hash_password(p.as_str()) {
                Ok(h) => Some(h),
                Err(e) => {
                    return Err(e);
                },
            }
        },
        None => None,
    };
    let ghost orig = store.users@[i as int];
    if let Some(v) = req.email {
        store.users[i].email = v;
    }
    if let Some(h) = new_hash {
        store.users[i].password_hash = Some(h);
    }
    if let Some(v) = req.first_name {
        store.users[i].first_name = v;
    }
    if let Some(v) = req.last_name {
        store.users[i].last_name = v;
    }
    store.users[i].updated_at = now;
    proof {
        assert(user_matches_patch(store.users@[i as int], orig, req, now));
        assert(store.users@ =~= old(store).users@.update(i as int, store.users@[i as int]));
        lemma_update_same_key(
            old(store).users@,
            |u: User| u.id,
            old(store).next_id as int,
            i as int,
            store.users@[i as int],
        );
        let key = |u: User| u.email@;
        assert forall|a: int, b: int|
            0 <= a < b < store.users@.len() implies key(store.users@[a]) != key(
            store.users@[b],
        ) by {
            assert(key(old(store).users@[a]) != key(old(store).users@[b]));
            if req.email is Some {
                assert(!email_taken_by_other(old(store).users@, i as int, req.email->0@));
            }
        }
    }
    Ok(store.users[i].clone())
}

/// Deactivates an active user; an absent or already-inactive id is NotFound
/// and nothing is touched.
pub fn deactivate_user(store: &mut Ledger, user_id: u128, now: i64) -> (r: Result<(), AppError>)
    requires
        old(store).wf(),
    ensures
        final(store).wf(),
        r is Ok <==> has_active_user(old(store).users@, user_id),
        match r {
            Ok(()) => {
                let i = active_user_idx(old(store).users@, user_id);
                &&& final(store).users@ == old(store).users@.update(
                    i,
                    (User {
                        is_active: false,
                        updated_at: now,
                        ..old(store).users@[i]
                    }),
                )
                &&& *final(store) == (Ledger { users: final(store).users, ..*old(store) })
            },
            Err(e) => {
                &&& *final(store) == *old(store)
                &&& e is NotFound
                &&& e.spec_message() == user_not_found_msg(user_id)
            },
        },
{
    let i = match find_active_user(&store.users, user_id) {
        Some(i) => i,
        None => {
            return Err(AppError::NotFound(msg_id("User with ID ", user_id, " not found")));
        },
    };
    proof {
        assert(keys_unique(store.users@, |u: User| u.id));
        assert(active_user_idx(store.users@, user_id) == i as int);
    }
    let ghost orig = store.users@[i as int];
    store.users[i].is_active = false;
    store.users[i].updated_at = now;
    proof {
        assert(store.users@[i as int] == (User { is_active: false, updated_at: now, ..orig }));
        assert(store.users@ =~= old(store).users@.update(
            i as int,
            (User { is_active: false, updated_at: now, ..orig }),
        ));
        lemma_update_same_key(
            old(store).users@,
            |u: User| u.id,
            old(store).next_id as int,
            i as int,
            (User { is_active: false, updated_at: now, ..orig }),
        );
        let key = |u: User| u.email@;
        assert forall|a: int, b: int|
            0 <= a < b < store.users@.len() implies key(store.users@[a]) != key(
            store.users@[b],
        ) by {
            assert(key(old(store).users@[a]) != key(old(store).users@[b]));
        }
    }
    Ok(())
}

} // verus!

//! Account-type operations. Account types are global (not tenant-scoped) and
//! carry the normal-balance side used to classify their accounts.

use vstd::prelude::*;
use crate::dto::{CreateAccountTypeDto, UpdateAccountTypeDto};
use crate::error::{invalid_fields_error, ids_exhausted_error, no_fields_error, AppError};
use crate::error::{invalid_fields_msg, ids_exhausted_msg, no_fields_msg};
use crate::models::AccountType;
use crate::order::{lemma_insert_ordered_at, lemma_lex_total, lemma_lex_trans, lemma_order_by_push,
    lemma_order_by_sorted, lemma_order_by_sub, lex_leq, order_by, ordered_by, str_le};
use crate::store::{keys_unique, lemma_filter_push, lemma_push_fresh_key, lemma_update_same_key,
    Ledger};
use crate::strutil::{dec_digits, msg_id};

verus! {

/// Whether some account-type row carries the id.
pub open spec fn has_account_type(s: Seq<AccountType>, id: u128) -> bool {
    exists|i: int| 0 <= i < s.len() && s[i].id == id
}

/// The index of the account-type row carrying the id.
pub open spec fn account_type_idx(s: Seq<AccountType>, id: u128) -> int {
    choose|i: int| 0 <= i < s.len() && s[i].id == id
}

/// Whether some active account-type row carries the id.
pub open spec fn has_active_account_type(s: Seq<AccountType>, id: u128) -> bool {
    exists|i: int| 0 <= i < s.len() && s[i].id == id && s[i].is_active
}

/// The index of the active account-type row carrying the id.
pub open spec fn active_account_type_idx(s: Seq<AccountType>, id: u128) -> int {
    choose|i: int| 0 <= i < s.len() && s[i].id == id && s[i].is_active
}

/// The row a creation request persists.
pub open spec fn account_type_row(dto: CreateAccountTypeDto, id: u128, actor: u128, now: i64) -> AccountType {
    AccountType {
        id,
        name: dto.name,
        normal_balance: dto.normal_balance,
        is_active: true,
        created_at: now,
        created_by: actor,
        updated_at: now,
        updated_by: actor,
    }
}

/// The row after a sparse update.
pub open spec fn account_type_patched(t: AccountType, dto: UpdateAccountTypeDto, actor: u128, now: i64) -> AccountType {
    AccountType {
        name: if dto.name is Some {
            dto.name->0
        } else {
            t.name
        },
        normal_balance: if dto.normal_balance is Some {
            dto.normal_balance->0
        } else {
            t.normal_balance
        },
        is_active: if dto.is_active is Some {
            dto.is_active->0
        } else {
            t.is_active
        },
        updated_at: now,
        updated_by: actor,
        ..t
    }
}

/// The row after deactivation.
pub open spec fn account_type_deactivated(t: AccountType, actor: u128, now: i64) -> AccountType {
    AccountType { is_active: false, updated_at: now, updated_by: actor, ..t }
}

pub open spec fn account_type_not_found_msg(id: u128) -> Seq<char> {
    "Account type with ID "@ + dec_digits(id as int) + " not found"@
}

pub open spec fn account_type_inactive_msg(id: u128) -> Seq<char> {
    "Account type with ID "@ + dec_digits(id as int) + " not found or already inactive"@
}

fn find_account_type(v: &Vec<AccountType>, id: u128) -> (r: Option<usize>)
    ensures
        match r {
            Some(i) => 0 <= i < v@.len() && v@[i as int].id == id,
            None => !has_account_type(v@, id),
        },
{
    let mut i: usize = 0;
    while i < v.len()
        invariant
            0 <= i <= v@.len(),
            forall|k: int| 0 <= k < i ==> v@[k].id != id,
        decreases v@.len() - i,
    {
        if v[i].id == id {
            return Some(i);
        }
        i += 1;
    }
    None
}

fn find_active_account_type(v: &Vec<AccountType>, id: u128) -> (r: Option<usize>)
    ensures
        match r {
            Some(i) => 0 <= i < v@.len() && v@[i as int].id == id && v@[i as int].is_active,
            None => !has_active_account_type(v@, id),
        },
{
    let mut i: usize = 0;
    while i < v.len()
        invariant
            0 <= i <= v@.len(),
            forall|k: int| 0 <= k < i ==> !(v@[k].id == id && v@[k].is_active),
        decreases v@.len() - i,
    {
        if v[i].id == id && v[i].is_active {
            return Some(i);
        }
        i += 1;
    }
    None
}

/// The listing order of account types: by name, in character order.
pub open spec fn account_type_le(a: AccountType, b: AccountType) -> bool {
    lex_leq(a.name@, b.name@)
}

/// What a listing returns: the matching rows, ordered by name; rows with
/// equal names keep their insertion order.
pub open spec fn account_types_listed(s: Seq<AccountType>) -> Seq<AccountType> {
    order_by(s.filter(|x: AccountType| x.is_active), |a: AccountType, b: AccountType| account_type_le(a, b))
}

/// The position a row takes among already-listed rows: after every row whose
/// name may precede its own.
fn account_type_insert_pos(v: &Vec<AccountType>, x: &AccountType) -> (j: usize)
    ensures
        0 <= j <= v@.len(),
        forall|k: int| 0 <= k < j ==> account_type_le(#[trigger] v@[k], *x),
        j < v@.len() ==> !account_type_le(v@[j as int], *x),
{
    let mut j: usize = 0;
    while j < v.len()
        invariant
            0 <= j <= v@.len(),
            forall|k: int| 0 <= k < j ==> account_type_le(#[trigger] v@[k], *x),
        decreases v@.len() - j,
    {
        if !str_le(v[j].name.as_str(), x.name.as_str()) {
            return j;
        }
        j += 1;
    }
    j
}

/// Lists the active account types, ordered by name; equal names keep
/// insertion order.
pub fn list_account_types(store: &Ledger) -> (r: Vec<AccountType>)
    ensures
        r@ == account_types_listed(store.account_types@),
        ordered_by(r@, |a: AccountType, b: AccountType| account_type_le(a, b)),
        forall|i: int| 0 <= i < r@.len() ==> (#[trigger] r@[i]).is_active,
{
    let mut r: Vec<AccountType> = Vec::new();
    let mut i: usize = 0;
    while i < store.account_types.len()
        invariant
            0 <= i <= store.account_types@.len(),
            r@ == order_by(store.account_types@.subrange(0, i as int).filter(|x: AccountType| x.is_active), |a: AccountType, b: AccountType| account_type_le(a, b)),
        decreases store.account_types@.len() - i,
    {
        let ghost f = store.account_types@.subrange(0, i as int).filter(|x: AccountType| x.is_active);
        proof {
            assert(store.account_types@.subrange(0, i + 1) =~= store.account_types@.subrange(
                0,
                i as int,
            ).push(store.account_types@[i as int]));
            lemma_filter_push(
                store.account_types@.subrange(0, i as int),
                |x: AccountType| x.is_active,
                store.account_types@[i as int],
            );
        }
        if store.account_types[i].is_active {
            let x = store.account_types[i].clone();
            let j = account_type_insert_pos(&r, &x);
            proof {
                lemma_insert_ordered_at(x, r@, |a: AccountType, b: AccountType| account_type_le(a, b), j as int);
                lemma_order_by_push(f, |a: AccountType, b: AccountType| account_type_le(a, b), x);
            }
            r.insert(j, x);
        }
        i += 1;
    }
    proof {
        assert(store.account_types@.subrange(0, store.account_types@.len() as int) =~= store.account_types@);
        let f = store.account_types@.filter(|x: AccountType| x.is_active);
        assert forall|a: AccountType, b: AccountType|
            #[trigger] account_type_le(a, b) || account_type_le(b, a) by {
            lemma_lex_total(a.name@, b.name@);
        }
        assert forall|a: AccountType, b: AccountType, c: AccountType|
            #[trigger] account_type_le(a, b) && #[trigger] account_type_le(b, c) implies account_type_le(a, c) by {
            lemma_lex_trans(a.name@, b.name@, c.name@);
        }
        lemma_order_by_sorted(f, |a: AccountType, b: AccountType| account_type_le(a, b));
        lemma_order_by_sub(f, |a: AccountType, b: AccountType| account_type_le(a, b));
        assert forall|i: int| 0 <= i < r@.len() implies (#[trigger] r@[i]).is_active by {
            let j = choose|j: int| 0 <= j < f.len() && r@[i] == f[j];
            store.account_types@.lemma_filter_pred(|x: AccountType| x.is_active, j);
        }
    }
    r
}

/// Fetches an active account type by id; an absent or inactive id is NotFound.
pub fn get_account_type_by_id(store: &Ledger, account_type_id: u128) -> (r: Result<AccountType, AppError>)
    requires
        store.wf(),
    ensures
        match r {
            Ok(t) => has_active_account_type(store.account_types@, account_type_id) && t
                == store.account_types@[active_account_type_idx(store.account_types@, account_type_id)],
            Err(e) => {
                &&& !has_active_account_type(store.account_types@, account_type_id)
                &&& e is NotFound
                &&& e.spec_message() == account_type_not_found_msg(account_type_id)
            },
        },
{
    match find_active_account_type(&store.account_types, account_type_id) {
        Some(i) => {
            proof {
                let j = active_account_type_idx(store.account_types@, account_type_id);
                assert(store.account_types@[j].id == account_type_id
                    && store.account_types@[j].is_active);
                assert(keys_unique(store.account_types@, |t: AccountType| t.id));
                assert(j == i as int);
            }
            Ok(store.account_types[i].clone())
        },
        None => Err(AppError::NotFound(
            msg_id("Account type with ID ", account_type_id, " not found"),
        )),
    }
}

/// Creates an account type from a validated request.
pub fn create_account_type(store: &mut Ledger, created_by_user_id: u128, now: i64,
    dto: CreateAccountTypeDto) -> (r: Result<AccountType, AppError>)
    requires
        old(store).wf(),
    ensures
        final(store).wf(),
        r is Ok <==> (dto.valid() && old(store).can_assign_ids(1)),
        match r {
            Ok(row) => {
                &&& row == account_type_row(dto, old(store).next_id, created_by_user_id, now)
                &&& final(store).account_types@ == old(store).account_types@.push(row)
                &&& final(store).next_id == old(store).next_id + 1
                &&& *final(store) == (Ledger {
                    account_types: final(store).account_types,
                    next_id: final(store).next_id,
                    ..*old(store)
                })
            },
            Err(e) => {
                &&& *final(store) == *old(store)
                &&& if !dto.valid() {
                    e is Validation && e.spec_message() == invalid_fields_msg()
                } else {
                    e is InternalServerError && e.spec_message() == ids_exhausted_msg()
                }
            },
        },
{
    if !dto.validate() {
        return Err(invalid_fields_error());
    }
    if store.next_id == u128::MAX {
        return Err(ids_exhausted_error());
    }
    let id = store.next_id;
    store.next_id = store.next_id + 1;
    let row = AccountType {
        id,
        name: dto.name,
        normal_balance: dto.normal_balance,
        is_active: true,
        created_at: now,
        created_by: created_by_user_id,
        updated_at: now,
        updated_by: created_by_user_id,
    };
    let copy = row.clone();
    proof {
        lemma_push_fresh_key(store.account_types@, |t: AccountType| t.id, id as int, row);
    }
    store.account_types.push(row);
    Ok(copy)
}

/// Applies a sparse update to an account type, active or not.
pub fn update_account_type(store: &mut Ledger, account_type_id: u128, updated_by_user_id: u128, now: i64,
    dto: UpdateAccountTypeDto) -> (r: Result<AccountType, AppError>)
    requires
        old(store).wf(),
    ensures
        final(store).wf(),
        r is Ok <==> (!dto.is_empty() && dto.valid() && has_account_type(
            old(store).account_types@,
            account_type_id,
        )),
        match r {
            Ok(row) => {
                let i = account_type_idx(old(store).account_types@, account_type_id);
                &&& row == account_type_patched(
                    old(store).account_types@[i],
                    dto,
                    updated_by_user_id,
                    now,
                )
                &&& final(store).account_types@ == old(store).account_types@.update(i, row)
                &&& *final(store) == (Ledger {
                    account_types: final(store).account_types,
                    ..*old(store)
                })
            },
            Err(e) => {
                &&& *final(store) == *old(store)
                &&& if dto.is_empty() {
                    e is Validation && e.spec_message() == no_fields_msg()
                } else if !dto.valid() {
                    e is Validation && e.spec_message() == invalid_fields_msg()
                } else {
                    e is NotFound && e.spec_message() == account_type_not_found_msg(account_type_id)
                }
            },
        },
{
    if dto.no_fields() {
        return Err(no_fields_error());
    }
    if !dto.validate() {
        return Err(invalid_fields_error());
    }
    let i = match find_account_type(&store.account_types, account_type_id) {
        Some(i) => i,
        None => {
            return Err(AppError::NotFound(
                msg_id("Account type with ID ", account_type_id, " not found"),
            ));
        },
    };
    proof {
        assert(keys_unique(store.account_types@, |t: AccountType| t.id));
        assert(account_type_idx(store.account_types@, account_type_id) == i as int);
    }
    let ghost orig = store.account_types@[i as int];
    if let Some(v) = dto.name {
        store.account_types[i].name = v;
    }
    if let Some(v) = dto.normal_balance {
        store.account_types[i].normal_balance = v;
    }
    if let Some(v) = dto.is_active {
        store.account_types[i].is_active = v;
    }
    store.account_types[i].updated_at = now;
    store.account_types[i].updated_by = updated_by_user_id;
    proof {
        assert(store.account_types@[i as int] == account_type_patched(
            orig,
            dto,
            updated_by_user_id,
            now,
        ));
        assert(store.account_types@ =~= old(store).account_types@.update(
            i as int,
            account_type_patched(orig, dto, updated_by_user_id, now),
        ));
        lemma_update_same_key(
            old(store).account_types@,
            |t: AccountType| t.id,
            old(store).next_id as int,
            i as int,
            account_type_patched(orig, dto, updated_by_user_id, now),
        );
    }
    Ok(store.account_types[i].clone())
}

/// Deactivates an active account type; an absent or already-inactive id is
/// NotFound and nothing is touched.
pub fn deactivate_account_type(store: &mut Ledger, account_type_id: u128, updated_by_user_id: u128,
    now: i64) -> (r: Result<(), AppError>)
    requires
        old(store).wf(),
    ensures
        final(store).wf(),
        r is Ok <==> has_active_account_type(old(store).account_types@, account_type_id),
        match r {
            Ok(()) => {
                let i = active_account_type_idx(old(store).account_types@, account_type_id);
                &&& final(store).account_types@ == old(store).account_types@.update(
                    i,
                    account_type_deactivated(
                        old(store).account_types@[i],
                        updated_by_user_id,
                        now,
                    ),
                )
                &&& *final(store) == (Ledger {
                    account_types: final(store).account_types,
                    ..*old(store)
                })
            },
            Err(e) => {
                &&& *final(store) == *old(store)
                &&& e is NotFound
                &&& e.spec_message() == account_type_inactive_msg(account_type_id)
            },
        },
{
    let i = match find_active_account_type(&store.account_types, account_type_id) {
        Some(i) => i,
        None => {
            return Err(AppError::NotFound(
                msg_id("Account type with ID ", account_type_id, " not found or already inactive"),
            ));
        },
    };
    proof {
        assert(keys_unique(store.account_types@, |t: AccountType| t.id));
        assert(active_account_type_idx(store.account_types@, account_type_id) == i as int);
    }
    let ghost orig = store.account_types@[i as int];
    store.account_types[i].is_active = false;
    store.account_types[i].updated_at = now;
    store.account_types[i].updated_by = updated_by_user_id;
    proof {
        assert(store.account_types@[i as int] == account_type_deactivated(
            orig,
            updated_by_user_id,
            now,
        ));
        assert(store.account_types@ =~= old(store).account_types@.update(
            i as int,
            account_type_deactivated(orig, updated_by_user_id, now),
        ));
        lemma_update_same_key(
            old(store).account_types@,
            |t: AccountType| t.id,
            old(store).next_id as int,
            i as int,
            account_type_deactivated(orig, updated_by_user_id, now),
        );
    }
    Ok(())
}

} // verus!

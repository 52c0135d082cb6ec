//! Account operations. Accounts are tenant-scoped; a referenced account type
//! must resolve to an active global account type before it is applied.

use vstd::prelude::*;
use crate::dto::{CreateAccountDto, UpdateAccountDto};
use crate::error::{invalid_fields_error, ids_exhausted_error, no_fields_error, AppError};
use crate::error::{invalid_fields_msg, ids_exhausted_msg, no_fields_msg};
use crate::models::Account;
use crate::order::{lemma_insert_ordered_at, lemma_lex_total, lemma_lex_trans, lemma_order_by_push,
    lemma_order_by_sorted, lemma_order_by_sub, lex_leq, order_by, ordered_by, str_le};
use crate::ownership::{has_active_account_type_ref, invalid_account_type_error,
    invalid_account_type_msg, resolve_account_type};
use crate::store::{keys_unique, lemma_filter_push, lemma_push_fresh_key, lemma_update_same_key,
    Ledger};
use crate::strutil::{dec_digits, msg_id_id};

verus! {

/// Whether some account row carries the id under the tenant.
pub open spec fn has_account(s: Seq<Account>, tenant_id: u128, id: u128) -> bool {
    exists|i: int| 0 <= i < s.len() && s[i].id == id && s[i].tenant_id == tenant_id
}

/// The index of the account row carrying the id under the tenant.
pub open spec fn account_idx(s: Seq<Account>, tenant_id: u128, id: u128) -> int {
    choose|i: int| 0 <= i < s.len() && s[i].id == id && s[i].tenant_id == tenant_id
}

/// Whether some active account row carries the id under the tenant.
pub open spec fn has_active_account(s: Seq<Account>, tenant_id: u128, id: u128) -> bool {
    exists|i: int|
        0 <= i < s.len() && s[i].id == id && s[i].tenant_id == tenant_id && s[i].is_active
}

/// The index of the active account row carrying the id under the tenant.
pub open spec fn active_account_idx(s: Seq<Account>, tenant_id: u128, id: u128) -> int {
    choose|i: int|
        0 <= i < s.len() && s[i].id == id && s[i].tenant_id == tenant_id && s[i].is_active
}

/// The row a creation request persists.
pub open spec fn account_row(dto: CreateAccountDto, id: u128, tenant_id: u128, actor: u128, now: i64) -> Account {
    Account {
        id,
        tenant_id,
        account_type_id: dto.account_type_id,
        name: dto.name,
        account_code: dto.account_code,
        description: dto.description,
        currency_code: dto.currency_code,
        is_active: true,
        created_at: now,
        created_by: actor,
        updated_at: now,
        updated_by: actor,
    }
}

/// The row after a sparse update.
pub open spec fn account_patched(a: Account, dto: UpdateAccountDto, actor: u128, now: i64) -> Account {
    Account {
        account_type_id: if dto.account_type_id is Some {
            dto.account_type_id->0
        } else {
            a.account_type_id
        },
        name: if dto.name is Some {
            dto.name->0
        } else {
            a.name
        },
        account_code: if dto.account_code is Some {
            dto.account_code
        } else {
            a.account_code
        },
        description: if dto.description is Some {
            dto.description
        } else {
            a.description
        },
        currency_code: if dto.currency_code is Some {
            dto.currency_code->0
        } else {
            a.currency_code
        },
        is_active: if dto.is_active is Some {
            dto.is_active->0
        } else {
            a.is_active
        },
        updated_at: now,
        updated_by: actor,
        ..a
    }
}

/// The row after deactivation.
pub open spec fn account_deactivated(a: Account, actor: u128, now: i64) -> Account {
    Account { is_active: false, updated_at: now, updated_by: actor, ..a }
}

pub open spec fn account_not_found_msg(id: u128, tenant_id: u128) -> Seq<char> {
    "Account with ID "@ + dec_digits(id as int) + " not found for tenant "@ + dec_digits(
        tenant_id as int,
    )
}

pub open spec fn account_not_owned_msg(id: u128, tenant_id: u128) -> Seq<char> {
    "Account with ID "@ + dec_digits(id as int) + " not found or not owned by tenant "@
        + dec_digits(tenant_id as int)
}

pub open spec fn account_inactive_msg(id: u128, tenant_id: u128) -> Seq<char> {
    "Account with ID "@ + dec_digits(id as int) + " not found or already inactive for tenant "@
        + dec_digits(tenant_id as int)
}

fn find_account(v: &Vec<Account>, tenant_id: u128, id: u128) -> (r: Option<usize>)
    ensures
        match r {
            Some(i) => 0 <= i < v@.len() && v@[i as int].id == id && v@[i as int].tenant_id
                == tenant_id,
            None => !has_account(v@, tenant_id, id),
        },
{
    let mut i: usize = 0;
    while i < v.len()
        invariant
            0 <= i <= v@.len(),
            forall|k: int| 0 <= k < i ==> !(v@[k].id == id && v@[k].tenant_id == tenant_id),
        decreases v@.len() - i,
    {
        if v[i].id == id && v[i].tenant_id == tenant_id {
            return Some(i);
        }
        i += 1;
    }
    None
}

fn find_active_account(v: &Vec<Account>, tenant_id: u128, id: u128) -> (r: Option<usize>)
    ensures
        match r {
            Some(i) => 0 <= i < v@.len() && v@[i as int].id == id && v@[i as int].tenant_id
                == tenant_id && v@[i as int].is_active,
            None => !has_active_account(v@, tenant_id, id),
        },
{
    let mut i: usize = 0;
    while i < v.len()
        invariant
            0 <= i <= v@.len(),
            forall|k: int|
                0 <= k < i ==> !(v@[k].id == id && v@[k].tenant_id == tenant_id
                    && v@[k].is_active),
        decreases v@.len() - i,
    {
        if v[i].id == id && v[i].tenant_id == tenant_id && v[i].is_active {
            return Some(i);
        }
        i += 1;
    }
    None
}

/// The listing order of accounts: by name, in character order.
pub open spec fn account_le(a: Account, b: Account) -> bool {
    lex_leq(a.name@, b.name@)
}

/// What a listing returns: the matching rows, ordered by name; rows with
/// equal names keep their insertion order.
pub open spec fn accounts_listed(s: Seq<Account>, tenant_id: u128) -> Seq<Account> {
    order_by(s.filter(|x: Account| x.tenant_id == tenant_id && x.is_active), |a: Account, b: Account| account_le(a, b))
}

/// The position a row takes among already-listed rows: after every row whose
/// name may precede its own.
fn account_insert_pos(v: &Vec<Account>, x: &Account) -> (j: usize)
    ensures
        0 <= j <= v@.len(),
        forall|k: int| 0 <= k < j ==> account_le(#[trigger] v@[k], *x),
        j < v@.len() ==> !account_le(v@[j as int], *x),
{
    let mut j: usize = 0;
    while j < v.len()
        invariant
            0 <= j <= v@.len(),
            forall|k: int| 0 <= k < j ==> account_le(#[trigger] v@[k], *x),
        decreases v@.len() - j,
    {
        if !str_le(v[j].name.as_str(), x.name.as_str()) {
            return j;
        }
        j += 1;
    }
    j
}

/// Lists the active accounts of the tenant, ordered by name; equal names
/// keep insertion order. No row of another tenant is ever returned.
pub fn list_accounts(store: &Ledger, tenant_id: u128) -> (r: Vec<Account>)
    ensures
        r@ == accounts_listed(store.accounts@, tenant_id),
        ordered_by(r@, |a: Account, b: Account| account_le(a, b)),
        forall|i: int| 0 <= i < r@.len() ==> (#[trigger] r@[i]).tenant_id == tenant_id,
{
    let mut r: Vec<Account> = Vec::new();
    let mut i: usize = 0;
    while i < store.accounts.len()
        invariant
            0 <= i <= store.accounts@.len(),
            r@ == order_by(store.accounts@.subrange(0, i as int).filter(|x: Account| x.tenant_id == tenant_id && x.is_active), |a: Account, b: Account| account_le(a, b)),
        decreases store.accounts@.len() - i,
    {
        let ghost f = store.accounts@.subrange(0, i as int).filter(|x: Account| x.tenant_id == tenant_id && x.is_active);
        proof {
            assert(store.accounts@.subrange(0, i + 1) =~= store.accounts@.subrange(
                0,
                i as int,
            ).push(store.accounts@[i as int]));
            lemma_filter_push(
                store.accounts@.subrange(0, i as int),
                |x: Account| x.tenant_id == tenant_id && x.is_active,
                store.accounts@[i as int],
            );
        }
        if store.accounts[i].tenant_id == tenant_id && store.accounts[i].is_active {
            let x = store.accounts[i].clone();
            let j = account_insert_pos(&r, &x);
            proof {
                lemma_insert_ordered_at(x, r@, |a: Account, b: Account| account_le(a, b), j as int);
                lemma_order_by_push(f, |a: Account, b: Account| account_le(a, b), x);
            }
            r.insert(j, x);
        }
        i += 1;
    }
    proof {
        assert(store.accounts@.subrange(0, store.accounts@.len() as int) =~= store.accounts@);
        let f = store.accounts@.filter(|x: Account| x.tenant_id == tenant_id && x.is_active);
        assert forall|a: Account, b: Account|
            #[trigger] account_le(a, b) || account_le(b, a) by {
            lemma_lex_total(a.name@, b.name@);
        }
        assert forall|a: Account, b: Account, c: Account|
            #[trigger] account_le(a, b) && #[trigger] account_le(b, c) implies account_le(a, c) by {
            lemma_lex_trans(a.name@, b.name@, c.name@);
        }
        lemma_order_by_sorted(f, |a: Account, b: Account| account_le(a, b));
        lemma_order_by_sub(f, |a: Account, b: Account| account_le(a, b));
        assert forall|i: int| 0 <= i < r@.len() implies (#[trigger] r@[i]).tenant_id == tenant_id by {
            let j = choose|j: int| 0 <= j < f.len() && r@[i] == f[j];
            store.accounts@.lemma_filter_pred(
                |x: Account| x.tenant_id == tenant_id && x.is_active,
                j,
            );
        }
    }
    r
}

/// Fetches an active account by id under the tenant; anything else is NotFound.
pub fn get_account_by_id(store: &Ledger, tenant_id: u128, account_id: u128) -> (r: Result<
    Account,
    AppError,
>)
    requires
        store.wf(),
    ensures
        match r {
            Ok(a) => {
                &&& has_active_account(store.accounts@, tenant_id, account_id)
                &&& a == store.accounts@[active_account_idx(store.accounts@, tenant_id, account_id)]
                &&& a.tenant_id == tenant_id
            },
            Err(e) => {
                &&& !has_active_account(store.accounts@, tenant_id, account_id)
                &&& e is NotFound
                &&& e.spec_message() == account_not_found_msg(account_id, tenant_id)
            },
        },
{
    match find_active_account(&store.accounts, tenant_id, account_id) {
        Some(i) => {
            proof {
                let j = active_account_idx(store.accounts@, tenant_id, account_id);
                assert(store.accounts@[j].id == account_id && store.accounts@[j].tenant_id
                    == tenant_id && store.accounts@[j].is_active);
                assert(keys_unique(store.accounts@, |a: Account| a.id));
                assert(j == i as int);
            }
            Ok(store.accounts[i].clone())
        },
        None => Err(AppError::NotFound(
            msg_id_id("Account with ID ", account_id, " not found for tenant ", tenant_id),
        )),
    }
}

/// Creates an account under the tenant. The referenced account type must
/// resolve to an active account type, else the request is rejected as
/// Validation and nothing is persisted.
pub fn create_account(store: &mut Ledger, tenant_id: u128, created_by_user_id: u128, now: i64,
    dto: CreateAccountDto) -> (r: Result<Account, AppError>)
    requires
        old(store).wf(),
    ensures
        final(store).wf(),
        r is Ok <==> (dto.valid() && has_active_account_type_ref(
            old(store).account_types@,
            dto.account_type_id,
        ) && old(store).can_assign_ids(1)),
        match r {
            Ok(row) => {
                &&& row == account_row(dto, old(store).next_id, tenant_id, created_by_user_id, now)
                &&& final(store).accounts@ == old(store).accounts@.push(row)
                &&& final(store).next_id == old(store).next_id + 1
                &&& *final(store) == (Ledger {
                    accounts: final(store).accounts,
                    next_id: final(store).next_id,
                    ..*old(store)
                })
            },
            Err(e) => {
                &&& *final(store) == *old(store)
                &&& if !dto.valid() {
                    e is Validation && e.spec_message() == invalid_fields_msg()
                } else if !has_active_account_type_ref(
                    old(store).account_types@,
                    dto.account_type_id,
                ) {
                    e is Validation && e.spec_message() == invalid_account_type_msg(
                        dto.account_type_id,
                    )
                } else {
                    e is InternalServerError && e.spec_message() == ids_exhausted_msg()
                }
            },
        },
{
    if !dto.validate() {
        return Err(invalid_fields_error());
    }
    if !resolve_account_type(&store.account_types, dto.account_type_id) {
        return Err(invalid_account_type_error(dto.account_type_id));
    }
    if store.next_id == u128::MAX {
        return Err(ids_exhausted_error());
    }
    let id = store.next_id;
    store.next_id = store.next_id + 1;
    let row = Account {
        id,
        tenant_id,
        account_type_id: dto.account_type_id,
        name: dto.name,
        account_code: dto.account_code,
        description: dto.description,
        currency_code: dto.currency_code,
        is_active: true,
        created_at: now,
        created_by: created_by_user_id,
        updated_at: now,
        updated_by: created_by_user_id,
    };
    let copy = row.clone();
    proof {
        lemma_push_fresh_key(store.accounts@, |a: Account| a.id, id as int, row);
    }
    store.accounts.push(row);
    Ok(copy)
}

/// Applies a sparse update to an account under the tenant. A patched account
/// type must resolve before it is applied.
pub fn update_account(store: &mut Ledger, tenant_id: u128, account_id: u128, updated_by_user_id: u128,
    now: i64, dto: UpdateAccountDto) -> (r: Result<Account, AppError>)
    requires
        old(store).wf(),
    ensures
        final(store).wf(),
        r is Ok <==> (!dto.is_empty() && dto.valid() && (dto.account_type_id is Some
            ==> has_active_account_type_ref(old(store).account_types@, dto.account_type_id->0))
            && has_account(old(store).accounts@, tenant_id, account_id)),
        match r {
            Ok(row) => {
                let i = account_idx(old(store).accounts@, tenant_id, account_id);
                &&& row == account_patched(old(store).accounts@[i], dto, updated_by_user_id, now)
                &&& row.tenant_id == tenant_id
                &&& final(store).accounts@ == old(store).accounts@.update(i, row)
                &&& *final(store) == (Ledger { accounts: final(store).accounts, ..*old(store) })
            },
            Err(e) => {
                &&& *final(store) == *old(store)
                &&& if dto.is_empty() {
                    e is Validation && e.spec_message() == no_fields_msg()
                } else if !dto.valid() {
                    e is Validation && e.spec_message() == invalid_fields_msg()
                } else if dto.account_type_id is Some && !has_active_account_type_ref(
                    old(store).account_types@,
                    dto.account_type_id->0,
                ) {
                    e is Validation && e.spec_message() == invalid_account_type_msg(
                        dto.account_type_id->0,
                    )
                } else {
                    e is NotFound && e.spec_message() == account_not_owned_msg(
                        account_id,
                        tenant_id,
                    )
                }
            },
        },
{
    if dto.no_fields() {
        return Err(no_fields_error());
    }
    if !dto.validate() {
        return Err(invalid_fields_error());
    }
    if let Some(at) = &dto.account_type_id {
        if !resolve_account_type(&store.account_types, *at) {
            return Err(invalid_account_type_error(*at));
        }
    }
    let i = match find_account(&store.accounts, tenant_id, account_id) {
        Some(i) => i,
        None => {
            return Err(AppError::NotFound(
                msg_id_id(
                    "Account with ID ",
                    account_id,
                    " not found or not owned by tenant ",
                    tenant_id,
                ),
            ));
        },
    };
    proof {
        assert(keys_unique(store.accounts@, |a: Account| a.id));
        assert(account_idx(store.accounts@, tenant_id, account_id) == i as int);
    }
    let ghost orig = store.accounts@[i as int];
    if let Some(v) = dto.account_type_id {
        store.accounts[i].account_type_id = v;
    }
    if let Some(v) = dto.name {
        store.accounts[i].name = v;
    }
    if let Some(v) = dto.account_code {
        store.accounts[i].account_code = Some(v);
    }
    if let Some(v) = dto.description {
        store.accounts[i].description = Some(v);
    }
    if let Some(v) = dto.currency_code {
        store.accounts[i].currency_code = v;
    }
    if let Some(v) = dto.is_active {
        store.accounts[i].is_active = v;
    }
    store.accounts[i].updated_at = now;
    store.accounts[i].updated_by = updated_by_user_id;
    proof {
        assert(store.accounts@[i as int] == account_patched(orig, dto, updated_by_user_id, now));
        assert(store.accounts@ =~= old(store).accounts@.update(
            i as int,
            account_patched(orig, dto, updated_by_user_id, now),
        ));
        lemma_update_same_key(
            old(store).accounts@,
            |a: Account| a.id,
            old(store).next_id as int,
            i as int,
            account_patched(orig, dto, updated_by_user_id, now),
        );
    }
    Ok(store.accounts[i].clone())
}

/// Deactivates an active account under the tenant; anything else is NotFound
/// and nothing is touched.
pub fn deactivate_account(store: &mut Ledger, tenant_id: u128, account_id: u128,
    updated_by_user_id: u128, now: i64) -> (r: Result<(), AppError>)
    requires
        old(store).wf(),
    ensures
        final(store).wf(),
        r is Ok <==> has_active_account(old(store).accounts@, tenant_id, account_id),
        match r {
            Ok(()) => {
                let i = active_account_idx(old(store).accounts@, tenant_id, account_id);
                &&& final(store).accounts@ == old(store).accounts@.update(
                    i,
                    account_deactivated(old(store).accounts@[i], updated_by_user_id, now),
                )
                &&& *final(store) == (Ledger { accounts: final(store).accounts, ..*old(store) })
            },
            Err(e) => {
                &&& *final(store) == *old(store)
                &&& e is NotFound
                &&& e.spec_message() == account_inactive_msg(account_id, tenant_id)
            },
        },
{
    let i = match find_active_account(&store.accounts, tenant_id, account_id) {
        Some(i) => i,
        None => {
            return Err(AppError::NotFound(
                msg_id_id(
                    "Account with ID ",
                    account_id,
                    " not found or already inactive for tenant ",
                    tenant_id,
                ),
            ));
        },
    };
    proof {
        assert(keys_unique(store.accounts@, |a: Account| a.id));
        assert(active_account_idx(store.accounts@, tenant_id, account_id) == i as int);
    }
    let ghost orig = store.accounts@[i as int];
    store.accounts[i].is_active = false;
    store.accounts[i].updated_at = now;
    store.accounts[i].updated_by = updated_by_user_id;
    proof {
        assert(store.accounts@[i as int] == account_deactivated(orig, updated_by_user_id, now));
        assert(store.accounts@ =~= old(store).accounts@.update(
            i as int,
            account_deactivated(orig, updated_by_user_id, now),
        ));
        lemma_update_same_key(
            old(store).accounts@,
            |a: Account| a.id,
            old(store).next_id as int,
            i as int,
            account_deactivated(orig, updated_by_user_id, now),
        );
    }
    Ok(())
}

} // verus!

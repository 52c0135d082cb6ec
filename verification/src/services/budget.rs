//! Budget operations. Budgets are tenant-scoped date ranges; a budget whose
//! end would lie before its start — whether on creation or after applying a
//! sparse update — is rejected as Validation.

use vstd::prelude::*;
use crate::dto::{CreateBudgetDto, UpdateBudgetDto};
use crate::error::{invalid_fields_error, ids_exhausted_error, no_fields_error, AppError};
use crate::error::{invalid_fields_msg, ids_exhausted_msg, no_fields_msg};
use crate::models::Budget;
use crate::order::{lemma_insert_ordered_at, lemma_lex_total, lemma_lex_trans, lemma_order_by_push,
    lemma_order_by_sorted, lemma_order_by_sub, lex_leq, order_by, ordered_by, str_le};
use crate::store::{keys_unique, lemma_filter_push, lemma_push_fresh_key, lemma_update_same_key,
    Ledger};
use crate::strutil::{dec_digits, msg_id_id};

verus! {

/// Whether some budget row carries the id under the tenant.
pub open spec fn has_budget(s: Seq<Budget>, tenant_id: u128, id: u128) -> bool {
    exists|i: int| 0 <= i < s.len() && s[i].id == id && s[i].tenant_id == tenant_id
}

/// The index of the budget row carrying the id under the tenant.
pub open spec fn budget_idx(s: Seq<Budget>, tenant_id: u128, id: u128) -> int {
    choose|i: int| 0 <= i < s.len() && s[i].id == id && s[i].tenant_id == tenant_id
}

/// Whether some active budget row carries the id under the tenant.
pub open spec fn has_active_budget(s: Seq<Budget>, tenant_id: u128, id: u128) -> bool {
    exists|i: int|
        0 <= i < s.len() && s[i].id == id && s[i].tenant_id == tenant_id && s[i].is_active
}

/// The index of the active budget row carrying the id under the tenant.
pub open spec fn active_budget_idx(s: Seq<Budget>, tenant_id: u128, id: u128) -> int {
    choose|i: int|
        0 <= i < s.len() && s[i].id == id && s[i].tenant_id == tenant_id && s[i].is_active
}

/// The row a creation request persists.
pub open spec fn budget_row(dto: CreateBudgetDto, id: u128, tenant_id: u128, actor: u128, now: i64) -> Budget {
    Budget {
        id,
        tenant_id,
        name: dto.name,
        start_date: dto.start_date,
        end_date: dto.end_date,
        currency_code: dto.currency_code,
        is_active: true,
        created_at: now,
        created_by: actor,
        updated_at: now,
        updated_by: actor,
    }
}

/// The row after a sparse update.
pub open spec fn budget_patched(b: Budget, dto: UpdateBudgetDto, actor: u128, now: i64) -> Budget {
    Budget {
        name: if dto.name is Some {
            dto.name->0
        } else {
            b.name
        },
        start_date: if dto.start_date is Some {
            dto.start_date->0
        } else {
            b.start_date
        },
        end_date: if dto.end_date is Some {
            dto.end_date->0
        } else {
            b.end_date
        },
        currency_code: if dto.currency_code is Some {
            dto.currency_code->0
        } else {
            b.currency_code
        },
        is_active: if dto.is_active is Some {
            dto.is_active->0
        } else {
            b.is_active
        },
        updated_at: now,
        updated_by: actor,
        ..b
    }
}

/// The row after deactivation.
pub open spec fn budget_deactivated(b: Budget, actor: u128, now: i64) -> Budget {
    Budget { is_active: false, updated_at: now, updated_by: actor, ..b }
}

/// Both dates are carried by the patch and already conflict on their own.
pub open spec fn patch_dates_conflict(dto: UpdateBudgetDto) -> bool {
    dto.start_date is Some && dto.end_date is Some && dto.end_date->0 < dto.start_date->0
}

/// The dates after applying the patch to the row would conflict.
pub open spec fn effective_dates_conflict(b: Budget, dto: UpdateBudgetDto) -> bool {
    (if dto.end_date is Some {
        dto.end_date->0
    } else {
        b.end_date
    }) < (if dto.start_date is Some {
        dto.start_date->0
    } else {
        b.start_date
    })
}

pub open spec fn budget_not_found_msg(id: u128, tenant_id: u128) -> Seq<char> {
    "Budget with ID "@ + dec_digits(id as int) + " not found for tenant "@ + dec_digits(
        tenant_id as int,
    )
}

pub open spec fn budget_not_owned_msg(id: u128, tenant_id: u128) -> Seq<char> {
    "Budget with ID "@ + dec_digits(id as int) + " not found or not owned by tenant "@
        + dec_digits(tenant_id as int)
}

pub open spec fn budget_inactive_msg(id: u128, tenant_id: u128) -> Seq<char> {
    "Budget with ID "@ + dec_digits(id as int) + " not found or already inactive for tenant "@
        + dec_digits(tenant_id as int)
}

pub open spec fn end_before_start_msg() -> Seq<char> {
    "End date cannot be before start date"@
}

pub open spec fn updated_end_before_start_msg() -> Seq<char> {
    "Updated end date cannot be before updated start date"@
}

pub open spec fn resulting_end_before_start_msg() -> Seq<char> {
    "Resulting end date cannot be before resulting start date"@
}

fn find_budget(v: &Vec<Budget>, tenant_id: u128, id: u128) -> (r: Option<usize>)
    ensures
        match r {
            Some(i) => 0 <= i < v@.len() && v@[i as int].id == id && v@[i as int].tenant_id
                == tenant_id,
            None => !has_budget(v@, tenant_id, id),
        },
{
    let mut i: usize = 0;
    while i < v.len()
        invariant
            0 <= i <= v@.len(),
            forall|k: int| 0 <= k < i ==> !(v@[k].id == id && v@[k].tenant_id == tenant_id),
        decreases v@.len() - i,
    {
        if v[i].id == id && v[i].tenant_id == tenant_id {
            return Some(i);
        }
        i += 1;
    }
    None
}

fn find_active_budget(v: &Vec<Budget>, tenant_id: u128, id: u128) -> (r: Option<usize>)
    ensures
        match r {
            Some(i) => 0 <= i < v@.len() && v@[i as int].id == id && v@[i as int].tenant_id
                == tenant_id && v@[i as int].is_active,
            None => !has_active_budget(v@, tenant_id, id),
        },
{
    let mut i: usize = 0;
    while i < v.len()
        invariant
            0 <= i <= v@.len(),
            forall|k: int|
                0 <= k < i ==> !(v@[k].id == id && v@[k].tenant_id == tenant_id
                    && v@[k].is_active),
        decreases v@.len() - i,
    {
        if v[i].id == id && v[i].tenant_id == tenant_id && v[i].is_active {
            return Some(i);
        }
        i += 1;
    }
    None
}

/// The listing order of budgets: latest start date first, ties by name in
/// character order.
pub open spec fn budget_le(a: Budget, b: Budget) -> bool {
    if a.start_date != b.start_date {
        a.start_date > b.start_date
    } else {
        lex_leq(a.name@, b.name@)
    }
}

/// What a listing returns: the tenant's active rows in the listing order;
/// rows with equal keys keep their insertion order.
pub open spec fn budgets_listed(s: Seq<Budget>, tenant_id: u128) -> Seq<Budget> {
    order_by(
        s.filter(|x: Budget| x.tenant_id == tenant_id && x.is_active),
        |a: Budget, b: Budget| budget_le(a, b),
    )
}

/// The position a row takes among already-listed rows.
fn budget_insert_pos(v: &Vec<Budget>, x: &Budget) -> (j: usize)
    ensures
        0 <= j <= v@.len(),
        forall|k: int| 0 <= k < j ==> budget_le(#[trigger] v@[k], *x),
        j < v@.len() ==> !budget_le(v@[j as int], *x),
{
    let mut j: usize = 0;
    while j < v.len()
        invariant
            0 <= j <= v@.len(),
            forall|k: int| 0 <= k < j ==> budget_le(#[trigger] v@[k], *x),
        decreases v@.len() - j,
    {
        let here_le = if v[j].start_date != x.start_date {
            v[j].start_date > x.start_date
        } else {
            str_le(v[j].name.as_str(), x.name.as_str())
        };
        if !here_le {
            return j;
        }
        j += 1;
    }
    j
}

/// Lists the active budgets of the tenant, latest start date first, ties by
/// name. No row of another tenant is ever returned.
pub fn list_budgets(store: &Ledger, tenant_id: u128) -> (r: Vec<Budget>)
    ensures
        r@ == budgets_listed(store.budgets@, tenant_id),
        ordered_by(r@, |a: Budget, b: Budget| budget_le(a, b)),
        forall|i: int| 0 <= i < r@.len() ==> (#[trigger] r@[i]).tenant_id == tenant_id,
{
    let mut r: Vec<Budget> = Vec::new();
    let mut i: usize = 0;
    while i < store.budgets.len()
        invariant
            0 <= i <= store.budgets@.len(),
            r@ == order_by(
                store.budgets@.subrange(0, i as int).filter(
                    |x: Budget| x.tenant_id == tenant_id && x.is_active,
                ),
                |a: Budget, b: Budget| budget_le(a, b),
            ),
        decreases store.budgets@.len() - i,
    {
        let ghost f = store.budgets@.subrange(0, i as int).filter(
            |x: Budget| x.tenant_id == tenant_id && x.is_active,
        );
        proof {
            assert(store.budgets@.subrange(0, i + 1) =~= store.budgets@.subrange(
                0,
                i as int,
            ).push(store.budgets@[i as int]));
            lemma_filter_push(
                store.budgets@.subrange(0, i as int),
                |x: Budget| x.tenant_id == tenant_id && x.is_active,
                store.budgets@[i as int],
            );
        }
        if store.budgets[i].tenant_id == tenant_id && store.budgets[i].is_active {
            let x = store.budgets[i].clone();
            let j = budget_insert_pos(&r, &x);
            proof {
                lemma_insert_ordered_at(x, r@, |a: Budget, b: Budget| budget_le(a, b), j as int);
                lemma_order_by_push(f, |a: Budget, b: Budget| budget_le(a, b), x);
            }
            r.insert(j, x);
        }
        i += 1;
    }
    proof {
        assert(store.budgets@.subrange(0, store.budgets@.len() as int) =~= store.budgets@);
        let f = store.budgets@.filter(|x: Budget| x.tenant_id == tenant_id && x.is_active);
        assert forall|a: Budget, b: Budget| #[trigger] budget_le(a, b) || budget_le(b, a) by {
            if a.start_date == b.start_date {
                lemma_lex_total(a.name@, b.name@);
            }
        }
        assert forall|a: Budget, b: Budget, c: Budget|
            #[trigger] budget_le(a, b) && #[trigger] budget_le(b, c) implies budget_le(a, c) by {
            if a.start_date == b.start_date && b.start_date == c.start_date {
                lemma_lex_trans(a.name@, b.name@, c.name@);
            }
        }
        lemma_order_by_sorted(f, |a: Budget, b: Budget| budget_le(a, b));
        lemma_order_by_sub(f, |a: Budget, b: Budget| budget_le(a, b));
        assert forall|i: int| 0 <= i < r@.len() implies (#[trigger] r@[i]).tenant_id
            == tenant_id by {
            let j = choose|j: int| 0 <= j < f.len() && r@[i] == f[j];
            store.budgets@.lemma_filter_pred(
                |x: Budget| x.tenant_id == tenant_id && x.is_active,
                j,
            );
        }
    }
    r
}

/// Fetches an active budget by id under the tenant; anything else is NotFound.
pub fn get_budget_by_id(store: &Ledger, tenant_id: u128, budget_id: u128) -> (r: Result<Budget, AppError>)
    requires
        store.wf(),
    ensures
        match r {
            Ok(b) => {
                &&& has_active_budget(store.budgets@, tenant_id, budget_id)
                &&& b == store.budgets@[active_budget_idx(store.budgets@, tenant_id, budget_id)]
                &&& b.tenant_id == tenant_id
            },
            Err(e) => {
                &&& !has_active_budget(store.budgets@, tenant_id, budget_id)
                &&& e is NotFound
                &&& e.spec_message() == budget_not_found_msg(budget_id, tenant_id)
            },
        },
{
    match find_active_budget(&store.budgets, tenant_id, budget_id) {
        Some(i) => {
            proof {
                let j = active_budget_idx(store.budgets@, tenant_id, budget_id);
                assert(store.budgets@[j].id == budget_id && store.budgets@[j].tenant_id == tenant_id
                    && store.budgets@[j].is_active);
                assert(keys_unique(store.budgets@, |b: Budget| b.id));
                assert(j == i as int);
            }
            Ok(store.budgets[i].clone())
        },
        None => Err(AppError::NotFound(
            msg_id_id("Budget with ID ", budget_id, " not found for tenant ", tenant_id),
        )),
    }
}

/// Creates a budget under the tenant. An end date before the start date is
/// rejected as Validation.
pub fn create_budget(store: &mut Ledger, tenant_id: u128, created_by_user_id: u128, now: i64,
    dto: CreateBudgetDto) -> (r: Result<Budget, AppError>)
    requires
        old(store).wf(),
    ensures
        final(store).wf(),
        r is Ok <==> (dto.valid() && dto.start_date <= dto.end_date && old(store).can_assign_ids(1)),
        match r {
            Ok(row) => {
                &&& row == budget_row(dto, old(store).next_id, tenant_id, created_by_user_id, now)
                &&& final(store).budgets@ == old(store).budgets@.push(row)
                &&& final(store).next_id == old(store).next_id + 1
                &&& *final(store) == (Ledger {
                    budgets: final(store).budgets,
                    next_id: final(store).next_id,
                    ..*old(store)
                })
            },
            Err(e) => {
                &&& *final(store) == *old(store)
                &&& if !dto.valid() {
                    e is Validation && e.spec_message() == invalid_fields_msg()
                } else if dto.end_date < dto.start_date {
                    e is Validation && e.spec_message() == end_before_start_msg()
                } else {
                    e is InternalServerError && e.spec_message() == ids_exhausted_msg()
                }
            },
        },
{
    if !dto.validate() {
        return Err(invalid_fields_error());
    }
    if dto.end_date < dto.start_date {
        return Err(AppError::Validation("End date cannot be before start date".to_owned()));
    }
    if store.next_id == u128::MAX {
        return Err(ids_exhausted_error());
    }
    let id = store.next_id;
    store.next_id = store.next_id + 1;
    let row = Budget {
        id,
        tenant_id,
        name: dto.name,
        start_date: dto.start_date,
        end_date: dto.end_date,
        currency_code: dto.currency_code,
        is_active: true,
        created_at: now,
        created_by: created_by_user_id,
        updated_at: now,
        updated_by: created_by_user_id,
    };
    let copy = row.clone();
    proof {
        lemma_push_fresh_key(store.budgets@, |b: Budget| b.id, id as int, row);
    }
    store.budgets.push(row);
    Ok(copy)
}

/// Applies a sparse update to a budget under the tenant. A patch whose dates
/// conflict on their own is rejected before the lookup; a patch whose dates
/// would conflict with the kept values is rejected after it. Nothing is
/// touched on any failure.
pub fn update_budget(store: &mut Ledger, tenant_id: u128, budget_id: u128, updated_by_user_id: u128,
    now: i64, dto: UpdateBudgetDto) -> (r: Result<Budget, AppError>)
    requires
        old(store).wf(),
    ensures
        final(store).wf(),
        r is Ok <==> (!dto.is_empty() && dto.valid() && !patch_dates_conflict(dto) && has_budget(
            old(store).budgets@,
            tenant_id,
            budget_id,
        ) && !effective_dates_conflict(
            old(store).budgets@[budget_idx(old(store).budgets@, tenant_id, budget_id)],
            dto,
        )),
        match r {
            Ok(row) => {
                let i = budget_idx(old(store).budgets@, tenant_id, budget_id);
                &&& row == budget_patched(old(store).budgets@[i], dto, updated_by_user_id, now)
                &&& row.tenant_id == tenant_id
                &&& row.start_date <= row.end_date
                &&& final(store).budgets@ == old(store).budgets@.update(i, row)
                &&& *final(store) == (Ledger { budgets: final(store).budgets, ..*old(store) })
            },
            Err(e) => {
                &&& *final(store) == *old(store)
                &&& if dto.is_empty() {
                    e is Validation && e.spec_message() == no_fields_msg()
                } else if !dto.valid() {
                    e is Validation && e.spec_message() == invalid_fields_msg()
                } else if patch_dates_conflict(dto) {
                    e is Validation && e.spec_message() == updated_end_before_start_msg()
                } else if !has_budget(old(store).budgets@, tenant_id, budget_id) {
                    e is NotFound && e.spec_message() == budget_not_owned_msg(budget_id, tenant_id)
                } else {
                    e is Validation && e.spec_message() == resulting_end_before_start_msg()
                }
            },
        },
{
    if dto.no_fields() {
        return Err(no_fields_error());
    }
    if !dto.validate() {
        return Err(invalid_fields_error());
    }
    if let (Some(s), Some(e)) = (&dto.start_date, &dto.end_date) {
        if *e < *s {
            return Err(AppError::Validation(
                "Updated end date cannot be before updated start date".to_owned(),
            ));
        }
    }
    let i = match find_budget(&store.budgets, tenant_id, budget_id) {
        Some(i) => i,
        None => {
            return Err(AppError::NotFound(
                msg_id_id(
                    "Budget with ID ",
                    budget_id,
                    " not found or not owned by tenant ",
                    tenant_id,
                ),
            ));
        },
    };
    proof {
        assert(keys_unique(store.budgets@, |b: Budget| b.id));
        assert(budget_idx(store.budgets@, tenant_id, budget_id) == i as int);
    }
    let effective_start = match &dto.start_date {
        Some(s) => *s,
        None => store.budgets[i].start_date,
    };
    let effective_end = match &dto.end_date {
        Some(e) => *e,
        None => store.budgets[i].end_date,
    };
    if effective_end < effective_start {
        return Err(AppError::Validation(
            "Resulting end date cannot be before resulting start date".to_owned(),
        ));
    }
    let ghost orig = store.budgets@[i as int];
    if let Some(v) = dto.name {
        store.budgets[i].name = v;
    }
    if let Some(v) = dto.start_date {
        store.budgets[i].start_date = v;
    }
    if let Some(v) = dto.end_date {
        store.budgets[i].end_date = v;
    }
    if let Some(v) = dto.currency_code {
        store.budgets[i].currency_code = v;
    }
    if let Some(v) = dto.is_active {
        store.budgets[i].is_active = v;
    }
    store.budgets[i].updated_at = now;
    store.budgets[i].updated_by = updated_by_user_id;
    proof {
        assert(store.budgets@[i as int] == budget_patched(orig, dto, updated_by_user_id, now));
        assert(store.budgets@ =~= old(store).budgets@.update(
            i as int,
            budget_patched(orig, dto, updated_by_user_id, now),
        ));
        lemma_update_same_key(
            old(store).budgets@,
            |b: Budget| b.id,
            old(store).next_id as int,
            i as int,
            budget_patched(orig, dto, updated_by_user_id, now),
        );
    }
    Ok(store.budgets[i].clone())
}

/// Deactivates an active budget under the tenant; anything else is NotFound
/// and nothing is touched. Line items of the budget are left as they are.
pub fn deactivate_budget(store: &mut Ledger, tenant_id: u128, budget_id: u128, updated_by_user_id: u128,
    now: i64) -> (r: Result<(), AppError>)
    requires
        old(store).wf(),
    ensures
        final(store).wf(),
        r is Ok <==> has_active_budget(old(store).budgets@, tenant_id, budget_id),
        match r {
            Ok(()) => {
                let i = active_budget_idx(old(store).budgets@, tenant_id, budget_id);
                &&& final(store).budgets@ == old(store).budgets@.update(
                    i,
                    budget_deactivated(old(store).budgets@[i], updated_by_user_id, now),
                )
                &&& *final(store) == (Ledger { budgets: final(store).budgets, ..*old(store) })
            },
            Err(e) => {
                &&& *final(store) == *old(store)
                &&& e is NotFound
                &&& e.spec_message() == budget_inactive_msg(budget_id, tenant_id)
            },
        },
{
    let i = match find_active_budget(&store.budgets, tenant_id, budget_id) {
        Some(i) => i,
        None => {
            return Err(AppError::NotFound(
                msg_id_id(
                    "Budget with ID ",
                    budget_id,
                    " not found or already inactive for tenant ",
                    tenant_id,
                ),
            ));
        },
    };
    proof {
        assert(keys_unique(store.budgets@, |b: Budget| b.id));
        assert(active_budget_idx(store.budgets@, tenant_id, budget_id) == i as int);
    }
    let ghost orig = store.budgets@[i as int];
    store.budgets[i].is_active = false;
    store.budgets[i].updated_at = now;
    store.budgets[i].updated_by = updated_by_user_id;
    proof {
        assert(store.budgets@[i as int] == budget_deactivated(orig, updated_by_user_id, now));
        assert(store.budgets@ =~= old(store).budgets@.update(
            i as int,
            budget_deactivated(orig, updated_by_user_id, now),
        ));
        lemma_update_same_key(
            old(store).budgets@,
            |b: Budget| b.id,
            old(store).next_id as int,
            i as int,
            budget_deactivated(orig, updated_by_user_id, now),
        );
    }
    Ok(())
}

} // verus!

//! Budget-line-item operations. A line item hangs off a budget and is reached
//! only through a budget of the acting tenant; a referenced category or
//! account must resolve under the same tenant before it is applied.

use vstd::prelude::*;
use crate::dto::{CreateBudgetLineItemDto, UpdateBudgetLineItemDto};
use crate::error::{invalid_fields_error, ids_exhausted_error, no_fields_error, AppError};
use crate::error::{invalid_fields_msg, ids_exhausted_msg, no_fields_msg};
use crate::models::{Budget, BudgetLineItem};
use crate::order::{lemma_insert_ordered_at, lemma_order_by_push, lemma_order_by_sorted,
    order_by, ordered_by};
use crate::ownership::{has_active_account, has_active_budget_ref, has_active_category,
    invalid_account_error, invalid_account_msg, invalid_category_error, invalid_category_msg,
    resolve_account, resolve_budget, resolve_category};
use crate::services::budget::has_budget;
use crate::store::{keys_unique, lemma_filter_push, lemma_push_fresh_key, lemma_update_same_key,
    Ledger};
use crate::strutil::{dec_digits, msg_id_id};

verus! {

/// Whether some line-item row carries the id and hangs off a budget of the
/// tenant, active or not.
pub open spec fn has_tenant_line_item(items: Seq<BudgetLineItem>, budgets: Seq<Budget>,
    tenant_id: u128, id: u128) -> bool {
    exists|i: int|
        0 <= i < items.len() && items[i].id == id && has_budget(
            budgets,
            tenant_id,
            items[i].budget_id,
        )
}

/// The index of that line-item row.
pub open spec fn tenant_line_item_idx(items: Seq<BudgetLineItem>, budgets: Seq<Budget>,
    tenant_id: u128, id: u128) -> int {
    choose|i: int|
        0 <= i < items.len() && items[i].id == id && has_budget(
            budgets,
            tenant_id,
            items[i].budget_id,
        )
}

/// Whether some active line-item row carries the id and hangs off a budget of
/// the tenant.
pub open spec fn has_active_tenant_line_item(items: Seq<BudgetLineItem>, budgets: Seq<Budget>,
    tenant_id: u128, id: u128) -> bool {
    exists|i: int|
        0 <= i < items.len() && items[i].id == id && items[i].is_active && has_budget(
            budgets,
            tenant_id,
            items[i].budget_id,
        )
}

/// The index of that active line-item row.
pub open spec fn active_tenant_line_item_idx(items: Seq<BudgetLineItem>, budgets: Seq<Budget>,
    tenant_id: u128, id: u128) -> int {
    choose|i: int|
        0 <= i < items.len() && items[i].id == id && items[i].is_active && has_budget(
            budgets,
            tenant_id,
            items[i].budget_id,
        )
}

/// The row a creation request persists.
pub open spec fn line_item_row(dto: CreateBudgetLineItemDto, id: u128, budget_id: u128, actor: u128,
    now: i64) -> BudgetLineItem {
    BudgetLineItem {
        id,
        budget_id,
        category_id: dto.category_id,
        account_id: dto.account_id,
        budgeted_amount: dto.budgeted_amount,
        is_active: true,
        created_at: now,
        created_by: actor,
        updated_at: now,
        updated_by: actor,
    }
}

/// The row after a sparse update.
pub open spec fn line_item_patched(x: BudgetLineItem, dto: UpdateBudgetLineItemDto, actor: u128,
    now: i64) -> BudgetLineItem {
    BudgetLineItem {
        category_id: if dto.category_id is Some {
            dto.category_id
        } else {
            x.category_id
        },
        account_id: if dto.account_id is Some {
            dto.account_id
        } else {
            x.account_id
        },
        budgeted_amount: if dto.budgeted_amount is Some {
            dto.budgeted_amount->0
        } else {
            x.budgeted_amount
        },
        is_active: if dto.is_active is Some {
            dto.is_active->0
        } else {
            x.is_active
        },
        updated_at: now,
        updated_by: actor,
        ..x
    }
}

/// The row after deactivation.
pub open spec fn line_item_deactivated(x: BudgetLineItem, actor: u128, now: i64) -> BudgetLineItem {
    BudgetLineItem { is_active: false, updated_at: now, updated_by: actor, ..x }
}

pub open spec fn budget_missing_msg(id: u128, tenant_id: u128) -> Seq<char> {
    "Budget with ID "@ + dec_digits(id as int) + " not found or inactive for tenant "@
        + dec_digits(tenant_id as int)
}

pub open spec fn line_item_not_found_msg(id: u128, tenant_id: u128) -> Seq<char> {
    "Budget line item with ID "@ + dec_digits(id as int) + " not found for tenant "@ + dec_digits(
        tenant_id as int,
    )
}

pub open spec fn line_item_not_owned_msg(id: u128, tenant_id: u128) -> Seq<char> {
    "Budget line item with ID "@ + dec_digits(id as int) + " not found or not owned by tenant "@
        + dec_digits(tenant_id as int)
}

pub open spec fn line_item_inactive_msg(id: u128, tenant_id: u128) -> Seq<char> {
    "Budget line item with ID "@ + dec_digits(id as int)
        + " not found or already inactive for tenant "@ + dec_digits(tenant_id as int)
}

fn find_line_item(v: &Vec<BudgetLineItem>, id: u128) -> (r: Option<usize>)
    ensures
        match r {
            Some(i) => 0 <= i < v@.len() && v@[i as int].id == id,
            None => forall|k: int| 0 <= k < v@.len() ==> (#[trigger] v@[k]).id != id,
        },
{
    let mut i: usize = 0;
    while i < v.len()
        invariant
            0 <= i <= v@.len(),
            forall|k: int| 0 <= k < i ==> (#[trigger] v@[k]).id != id,
        decreases v@.len() - i,
    {
        if v[i].id == id {
            return Some(i);
        }
        i += 1;
    }
    None
}

fn budget_owned(v: &Vec<Budget>, tenant_id: u128, id: u128) -> (r: bool)
    ensures
        r == has_budget(v@, tenant_id, id),
{
    let mut i: usize = 0;
    while i < v.len()
        invariant
            0 <= i <= v@.len(),
            forall|k: int| 0 <= k < i ==> !(v@[k].id == id && v@[k].tenant_id == tenant_id),
        decreases v@.len() - i,
    {
        if v[i].id == id && v[i].tenant_id == tenant_id {
            return true;
        }
        i += 1;
    }
    false
}

/// The order on optional references: resolved references by id, absent ones
/// after all of them.
pub open spec fn opt_ref_le(x: Option<u128>, y: Option<u128>) -> bool {
    match (x, y) {
        (None, None) => true,
        (None, Some(_)) => false,
        (Some(_), None) => true,
        (Some(u), Some(v)) => u <= v,
    }
}

/// The listing order of line items: by category reference, ties by account
/// reference, absent references last.
pub open spec fn line_item_le(a: BudgetLineItem, b: BudgetLineItem) -> bool {
    if a.category_id != b.category_id {
        opt_ref_le(a.category_id, b.category_id)
    } else {
        opt_ref_le(a.account_id, b.account_id)
    }
}

/// What listing a budget's line items returns: its active rows in the listing
/// order; rows with equal keys keep their insertion order.
pub open spec fn line_items_listed(s: Seq<BudgetLineItem>, budget_id: u128) -> Seq<BudgetLineItem> {
    order_by(
        s.filter(|x: BudgetLineItem| x.budget_id == budget_id && x.is_active),
        |a: BudgetLineItem, b: BudgetLineItem| line_item_le(a, b),
    )
}

fn opt_ref_le_exec(x: &Option<u128>, y: &Option<u128>) -> (r: bool)
    ensures
        r == opt_ref_le(*x, *y),
{
    match (x, y) {
        (None, None) => true,
        (None, Some(_)) => false,
        (Some(_), None) => true,
        (Some(u), Some(v)) => *u <= *v,
    }
}

fn opt_ref_eq(x: &Option<u128>, y: &Option<u128>) -> (r: bool)
    ensures
        r == (*x == *y),
{
    match (x, y) {
        (None, None) => true,
        (Some(u), Some(v)) => *u == *v,
        _ => false,
    }
}

/// The position a row takes among already-listed rows.
fn line_item_insert_pos(v: &Vec<BudgetLineItem>, x: &BudgetLineItem) -> (j: usize)
    ensures
        0 <= j <= v@.len(),
        forall|k: int| 0 <= k < j ==> line_item_le(#[trigger] v@[k], *x),
        j < v@.len() ==> !line_item_le(v@[j as int], *x),
{
    let mut j: usize = 0;
    while j < v.len()
        invariant
            0 <= j <= v@.len(),
            forall|k: int| 0 <= k < j ==> line_item_le(#[trigger] v@[k], *x),
        decreases v@.len() - j,
    {
        let here_le = if !opt_ref_eq(&v[j].category_id, &x.category_id) {
            opt_ref_le_exec(&v[j].category_id, &x.category_id)
        } else {
            opt_ref_le_exec(&v[j].account_id, &x.account_id)
        };
        if !here_le {
            return j;
        }
        j += 1;
    }
    j
}

/// Lists the active line items of an active budget of the tenant, by category
/// then account reference, absent references last; any other budget reference
/// is NotFound.
pub fn list_budget_line_items(store: &Ledger, tenant_id: u128, budget_id: u128) -> (r: Result<
    Vec<BudgetLineItem>,
    AppError,
>)
    ensures
        match r {
            Ok(v) => {
                &&& has_active_budget_ref(store.budgets@, tenant_id, budget_id)
                &&& v@ == line_items_listed(store.budget_line_items@, budget_id)
                &&& ordered_by(v@, |a: BudgetLineItem, b: BudgetLineItem| line_item_le(a, b))
            },
            Err(e) => {
                &&& !has_active_budget_ref(store.budgets@, tenant_id, budget_id)
                &&& e is NotFound
                &&& e.spec_message() == budget_missing_msg(budget_id, tenant_id)
            },
        },
{
    if !resolve_budget(&store.budgets, tenant_id, budget_id) {
        return Err(AppError::NotFound(
            msg_id_id("Budget with ID ", budget_id, " not found or inactive for tenant ", tenant_id),
        ));
    }
    let mut r: Vec<BudgetLineItem> = Vec::new();
    let mut i: usize = 0;
    while i < store.budget_line_items.len()
        invariant
            0 <= i <= store.budget_line_items@.len(),
            r@ == order_by(
                store.budget_line_items@.subrange(0, i as int).filter(
                    |x: BudgetLineItem| x.budget_id == budget_id && x.is_active,
                ),
                |a: BudgetLineItem, b: BudgetLineItem| line_item_le(a, b),
            ),
        decreases store.budget_line_items@.len() - i,
    {
        let ghost f = store.budget_line_items@.subrange(0, i as int).filter(
            |x: BudgetLineItem| x.budget_id == budget_id && x.is_active,
        );
        proof {
            assert(store.budget_line_items@.subrange(0, i + 1)
                =~= store.budget_line_items@.subrange(0, i as int).push(
                store.budget_line_items@[i as int],
            ));
            lemma_filter_push(
                store.budget_line_items@.subrange(0, i as int),
                |x: BudgetLineItem| x.budget_id == budget_id && x.is_active,
                store.budget_line_items@[i as int],
            );
        }
        if store.budget_line_items[i].budget_id == budget_id
            && store.budget_line_items[i].is_active {
            let x = store.budget_line_items[i].clone();
            let j = line_item_insert_pos(&r, &x);
            proof {
                lemma_insert_ordered_at(
                    x,
                    r@,
                    |a: BudgetLineItem, b: BudgetLineItem| line_item_le(a, b),
                    j as int,
                );
                lemma_order_by_push(
                    f,
                    |a: BudgetLineItem, b: BudgetLineItem| line_item_le(a, b),
                    x,
                );
            }
            r.insert(j, x);
        }
        i += 1;
    }
    proof {
        assert(store.budget_line_items@.subrange(0, store.budget_line_items@.len() as int)
            =~= store.budget_line_items@);
        lemma_order_by_sorted(
            store.budget_line_items@.filter(
                |x: BudgetLineItem| x.budget_id == budget_id && x.is_active,
            ),
            |a: BudgetLineItem, b: BudgetLineItem| line_item_le(a, b),
        );
    }
    Ok(r)
}

/// Fetches an active line item by id, reached through a budget of the tenant;
/// anything else is NotFound.
pub fn get_budget_line_item_by_id(store: &Ledger, tenant_id: u128, budget_line_item_id: u128) -> (r:
    Result<BudgetLineItem, AppError>)
    requires
        store.wf(),
    ensures
        match r {
            Ok(x) => {
                &&& has_active_tenant_line_item(
                    store.budget_line_items@,
                    store.budgets@,
                    tenant_id,
                    budget_line_item_id,
                )
                &&& x == store.budget_line_items@[
                    active_tenant_line_item_idx(
                        store.budget_line_items@,
                        store.budgets@,
                        tenant_id,
                        budget_line_item_id,
                    )
                ]
            },
            Err(e) => {
                &&& !has_active_tenant_line_item(
                    store.budget_line_items@,
                    store.budgets@,
                    tenant_id,
                    budget_line_item_id,
                )
                &&& e is NotFound
                &&& e.spec_message() == line_item_not_found_msg(budget_line_item_id, tenant_id)
            },
        },
{
    if let Some(i) = find_line_item(&store.budget_line_items, budget_line_item_id) {
        if store.budget_line_items[i].is_active && budget_owned(
            &store.budgets,
            tenant_id,
            store.budget_line_items[i].budget_id,
        ) {
            proof {
                let j = active_tenant_line_item_idx(
                    store.budget_line_items@,
                    store.budgets@,
                    tenant_id,
                    budget_line_item_id,
                );
                assert(keys_unique(store.budget_line_items@, |x: BudgetLineItem| x.id));
                assert(store.budget_line_items@[j].id == budget_line_item_id);
                assert(j == i as int);
            }
            return Ok(store.budget_line_items[i].clone());
        }
        proof {
            assert(keys_unique(store.budget_line_items@, |x: BudgetLineItem| x.id));
        }
    }
    Err(AppError::NotFound(
        msg_id_id(
            "Budget line item with ID ",
            budget_line_item_id,
            " not found for tenant ",
            tenant_id,
        ),
    ))
}

/// Creates a line item inside an active budget of the tenant. A referenced
/// category or account must resolve under the tenant; nothing is persisted on
/// any failure.
pub fn create_budget_line_item(store: &mut Ledger, tenant_id: u128, created_by_user_id: u128, now: i64,
    budget_id: u128, dto: CreateBudgetLineItemDto) -> (r: Result<BudgetLineItem, AppError>)
    requires
        old(store).wf(),
    ensures
        final(store).wf(),
        r is Ok <==> (dto.valid() && has_active_budget_ref(old(store).budgets@, tenant_id, budget_id)
            && (dto.category_id is Some ==> has_active_category(
            old(store).categories@,
            tenant_id,
            dto.category_id->0,
        )) && (dto.account_id is Some ==> has_active_account(
            old(store).accounts@,
            tenant_id,
            dto.account_id->0,
        )) && old(store).can_assign_ids(1)),
        match r {
            Ok(row) => {
                &&& row == line_item_row(dto, old(store).next_id, budget_id, created_by_user_id, now)
                &&& final(store).budget_line_items@ == old(store).budget_line_items@.push(row)
                &&& final(store).next_id == old(store).next_id + 1
                &&& *final(store) == (Ledger {
                    budget_line_items: final(store).budget_line_items,
                    next_id: final(store).next_id,
                    ..*old(store)
                })
            },
            Err(e) => {
                &&& *final(store) == *old(store)
                &&& if !dto.valid() {
                    e is Validation && e.spec_message() == invalid_fields_msg()
                } else if !has_active_budget_ref(old(store).budgets@, tenant_id, budget_id) {
                    e is NotFound && e.spec_message() == budget_missing_msg(budget_id, tenant_id)
                } else if dto.category_id is Some && !has_active_category(
                    old(store).categories@,
                    tenant_id,
                    dto.category_id->0,
                ) {
                    e is Validation && e.spec_message() == invalid_category_msg(
                        dto.category_id->0,
                        tenant_id,
                    )
                } else if dto.account_id is Some && !has_active_account(
                    old(store).accounts@,
                    tenant_id,
                    dto.account_id->0,
                ) {
                    e is Validation && e.spec_message() == invalid_account_msg(
                        dto.account_id->0,
                        tenant_id,
                    )
                } else {
                    e is InternalServerError && e.spec_message() == ids_exhausted_msg()
                }
            },
        },
{
    if !dto.validate() {
        return Err(invalid_fields_error());
    }
    if !resolve_budget(&store.budgets, tenant_id, budget_id) {
        return Err(AppError::NotFound(
            msg_id_id("Budget with ID ", budget_id, " not found or inactive for tenant ", tenant_id),
        ));
    }
    if let Some(c) = &dto.category_id {
        if !resolve_category(&store.categories, tenant_id, *c) {
            return Err(invalid_category_error(*c, tenant_id));
        }
    }
    if let Some(a) = &dto.account_id {
        if !resolve_account(&store.accounts, tenant_id, *a) {
            return Err(invalid_account_error(*a, tenant_id));
        }
    }
    if store.next_id == u128::MAX {
        return Err(ids_exhausted_error());
    }
    let id = store.next_id;
    store.next_id = store.next_id + 1;
    let row = BudgetLineItem {
        id,
        budget_id,
        category_id: dto.category_id,
        account_id: dto.account_id,
        budgeted_amount: dto.budgeted_amount,
        is_active: true,
        created_at: now,
        created_by: created_by_user_id,
        updated_at: now,
        updated_by: created_by_user_id,
    };
    let copy = row.clone();
    proof {
        lemma_push_fresh_key(store.budget_line_items@, |x: BudgetLineItem| x.id, id as int, row);
    }
    store.budget_line_items.push(row);
    Ok(copy)
}

/// Applies a sparse update to a line item reached through a budget of the
/// tenant. A patched category or account must resolve under the tenant.
pub fn update_budget_line_item(store: &mut Ledger, tenant_id: u128, budget_line_item_id: u128,
    updated_by_user_id: u128, now: i64, dto: UpdateBudgetLineItemDto) -> (r: Result<
    BudgetLineItem,
    AppError,
>)
    requires
        old(store).wf(),
    ensures
        final(store).wf(),
        r is Ok <==> (!dto.is_empty() && dto.valid() && (dto.category_id is Some
            ==> has_active_category(old(store).categories@, tenant_id, dto.category_id->0)) && (
        dto.account_id is Some ==> has_active_account(
            old(store).accounts@,
            tenant_id,
            dto.account_id->0,
        )) && has_tenant_line_item(
            old(store).budget_line_items@,
            old(store).budgets@,
            tenant_id,
            budget_line_item_id,
        )),
        match r {
            Ok(row) => {
                let i = tenant_line_item_idx(
                    old(store).budget_line_items@,
                    old(store).budgets@,
                    tenant_id,
                    budget_line_item_id,
                );
                &&& row == line_item_patched(
                    old(store).budget_line_items@[i],
                    dto,
                    updated_by_user_id,
                    now,
                )
                &&& final(store).budget_line_items@ == old(store).budget_line_items@.update(i, row)
                &&& *final(store) == (Ledger {
                    budget_line_items: final(store).budget_line_items,
                    ..*old(store)
                })
            },
            Err(e) => {
                &&& *final(store) == *old(store)
                &&& if dto.is_empty() {
                    e is Validation && e.spec_message() == no_fields_msg()
                } else if !dto.valid() {
                    e is Validation && e.spec_message() == invalid_fields_msg()
                } else if dto.category_id is Some && !has_active_category(
                    old(store).categories@,
                    tenant_id,
                    dto.category_id->0,
                ) {
                    e is Validation && e.spec_message() == invalid_category_msg(
                        dto.category_id->0,
                        tenant_id,
                    )
                } else if dto.account_id is Some && !has_active_account(
                    old(store).accounts@,
                    tenant_id,
                    dto.account_id->0,
                ) {
                    e is Validation && e.spec_message() == invalid_account_msg(
                        dto.account_id->0,
                        tenant_id,
                    )
                } else {
                    e is NotFound && e.spec_message() == line_item_not_owned_msg(
                        budget_line_item_id,
                        tenant_id,
                    )
                }
            },
        },
{
    if dto.no_fields() {
        return Err(no_fields_error());
    }
    if !dto.validate() {
        return Err(invalid_fields_error());
    }
    if let Some(c) = &dto.category_id {
        if !resolve_category(&store.categories, tenant_id, *c) {
            return Err(invalid_category_error(*c, tenant_id));
        }
    }
    if let Some(a) = &dto.account_id {
        if !resolve_account(&store.accounts, tenant_id, *a) {
            return Err(invalid_account_error(*a, tenant_id));
        }
    }
    let i = match find_line_item(&store.budget_line_items, budget_line_item_id) {
        Some(i) => i,
        None => {
            return Err(AppError::NotFound(
                msg_id_id(
                    "Budget line item with ID ",
                    budget_line_item_id,
                    " not found or not owned by tenant ",
                    tenant_id,
                ),
            ));
        },
    };
    if !budget_owned(&store.budgets, tenant_id, store.budget_line_items[i].budget_id) {
        proof {
            assert(keys_unique(store.budget_line_items@, |x: BudgetLineItem| x.id));
        }
        return Err(AppError::NotFound(
            msg_id_id(
                "Budget line item with ID ",
                budget_line_item_id,
                " not found or not owned by tenant ",
                tenant_id,
            ),
        ));
    }
    proof {
        assert(keys_unique(store.budget_line_items@, |x: BudgetLineItem| x.id));
        assert(tenant_line_item_idx(
            store.budget_line_items@,
            store.budgets@,
            tenant_id,
            budget_line_item_id,
        ) == i as int);
    }
    let ghost orig = store.budget_line_items@[i as int];
    if let Some(v) = dto.category_id {
        store.budget_line_items[i].category_id = Some(v);
    }
    if let Some(v) = dto.account_id {
        store.budget_line_items[i].account_id = Some(v);
    }
    if let Some(v) = dto.budgeted_amount {
        store.budget_line_items[i].budgeted_amount = v;
    }
    if let Some(v) = dto.is_active {
        store.budget_line_items[i].is_active = v;
    }
    store.budget_line_items[i].updated_at = now;
    store.budget_line_items[i].updated_by = updated_by_user_id;
    proof {
        assert(store.budget_line_items@[i as int] == line_item_patched(
            orig,
            dto,
            updated_by_user_id,
            now,
        ));
        assert(store.budget_line_items@ =~= old(store).budget_line_items@.update(
            i as int,
            line_item_patched(orig, dto, updated_by_user_id, now),
        ));
        lemma_update_same_key(
            old(store).budget_line_items@,
            |x: BudgetLineItem| x.id,
            old(store).next_id as int,
            i as int,
            line_item_patched(orig, dto, updated_by_user_id, now),
        );
    }
    Ok(store.budget_line_items[i].clone())
}

/// Deactivates an active line item reached through a budget of the tenant;
/// anything else is NotFound and nothing is touched.
pub fn deactivate_budget_line_item(store: &mut Ledger, tenant_id: u128, budget_line_item_id: u128,
    updated_by_user_id: u128, now: i64) -> (r: Result<(), AppError>)
    requires
        old(store).wf(),
    ensures
        final(store).wf(),
        r is Ok <==> has_active_tenant_line_item(
            old(store).budget_line_items@,
            old(store).budgets@,
            tenant_id,
            budget_line_item_id,
        ),
        match r {
            Ok(()) => {
                let i = active_tenant_line_item_idx(
                    old(store).budget_line_items@,
                    old(store).budgets@,
                    tenant_id,
                    budget_line_item_id,
                );
                &&& final(store).budget_line_items@ == old(store).budget_line_items@.update(
                    i,
                    line_item_deactivated(
                        old(store).budget_line_items@[i],
                        updated_by_user_id,
                        now,
                    ),
                )
                &&& *final(store) == (Ledger {
                    budget_line_items: final(store).budget_line_items,
                    ..*old(store)
                })
            },
            Err(e) => {
                &&& *final(store) == *old(store)
                &&& e is NotFound
                &&& e.spec_message() == line_item_inactive_msg(budget_line_item_id, tenant_id)
            },
        },
{
    let i = match find_line_item(&store.budget_line_items, budget_line_item_id) {
        Some(i) => i,
        None => {
            return Err(AppError::NotFound(
                msg_id_id(
                    "Budget line item with ID ",
                    budget_line_item_id,
                    " not found or already inactive for tenant ",
                    tenant_id,
                ),
            ));
        },
    };
    if !store.budget_line_items[i].is_active || !budget_owned(
        &store.budgets,
        tenant_id,
        store.budget_line_items[i].budget_id,
    ) {
        proof {
            assert(keys_unique(store.budget_line_items@, |x: BudgetLineItem| x.id));
        }
        return Err(AppError::NotFound(
            msg_id_id(
                "Budget line item with ID ",
                budget_line_item_id,
                " not found or already inactive for tenant ",
                tenant_id,
            ),
        ));
    }
    proof {
        assert(keys_unique(store.budget_line_items@, |x: BudgetLineItem| x.id));
        assert(active_tenant_line_item_idx(
            store.budget_line_items@,
            store.budgets@,
            tenant_id,
            budget_line_item_id,
        ) == i as int);
    }
    let ghost orig = store.budget_line_items@[i as int];
    store.budget_line_items[i].is_active = false;
    store.budget_line_items[i].updated_at = now;
    store.budget_line_items[i].updated_by = updated_by_user_id;
    proof {
        assert(store.budget_line_items@[i as int] == line_item_deactivated(
            orig,
            updated_by_user_id,
            now,
        ));
        assert(store.budget_line_items@ =~= old(store).budget_line_items@.update(
            i as int,
            line_item_deactivated(orig, updated_by_user_id, now),
        ));
        lemma_update_same_key(
            old(store).budget_line_items@,
            |x: BudgetLineItem| x.id,
            old(store).next_id as int,
            i as int,
            line_item_deactivated(orig, updated_by_user_id, now),
        );
    }
    Ok(())
}

} // verus!

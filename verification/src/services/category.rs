//! Category operations. Categories are tenant-scoped nodes whose optional
//! parent id forms a tree. A parent reference must resolve under the tenant,
//! and an update may never assign a parent whose ancestor chain reaches the
//! node itself: cyclic assignments are rejected.

use vstd::prelude::*;
use crate::dto::{CreateCategoryDto, UpdateCategoryDto};
use crate::error::{invalid_fields_error, ids_exhausted_error, no_fields_error, AppError};
use crate::error::{invalid_fields_msg, ids_exhausted_msg, no_fields_msg};
use crate::models::Category;
use crate::order::{lemma_insert_ordered_at, lemma_lex_total, lemma_lex_trans, lemma_order_by_push,
    lemma_order_by_sorted, lemma_order_by_sub, lex_leq, order_by, ordered_by, str_le};
use crate::ownership::{has_active_category, invalid_category_error, invalid_category_msg,
    resolve_category};
use crate::store::{keys_unique, lemma_filter_push, lemma_push_fresh_key, lemma_update_same_key,
    Ledger};
use crate::strutil::{dec_digits, dec_string, msg_id_id};

verus! {

/// Whether some category row carries the id under the tenant.
pub open spec fn has_category(s: Seq<Category>, tenant_id: u128, id: u128) -> bool {
    exists|i: int| 0 <= i < s.len() && s[i].id == id && s[i].tenant_id == tenant_id
}

/// The index of the category row carrying the id under the tenant.
pub open spec fn category_idx(s: Seq<Category>, tenant_id: u128, id: u128) -> int {
    choose|i: int| 0 <= i < s.len() && s[i].id == id && s[i].tenant_id == tenant_id
}

/// The index of the active category row carrying the id under the tenant.
pub open spec fn active_category_idx(s: Seq<Category>, tenant_id: u128, id: u128) -> int {
    choose|i: int|
        0 <= i < s.len() && s[i].id == id && s[i].tenant_id == tenant_id && s[i].is_active
}

/// Whether following parent links from `cur` reaches `target` within `fuel`
/// steps. Exhausting the fuel counts as reaching: a walk that does not end
/// within the table size is itself evidence of a cycle.
pub open spec fn parent_chain_hits(s: Seq<Category>, tenant_id: u128, cur: u128, target: u128, fuel: nat) -> bool
    decreases fuel,
{
    if cur == target {
        true
    } else if fuel == 0 {
        true
    } else if has_category(s, tenant_id, cur) {
        match s[category_idx(s, tenant_id, cur)].parent_category_id {
            None => false,
            Some(p) => parent_chain_hits(s, tenant_id, p, target, (fuel - 1) as nat),
        }
    } else {
        false
    }
}

/// The row a creation request persists.
pub open spec fn category_row(dto: CreateCategoryDto, id: u128, tenant_id: u128, actor: u128, now: i64) -> Category {
    Category {
        id,
        tenant_id,
        name: dto.name,
        description: dto.description,
        category_type: dto.category_type,
        parent_category_id: dto.parent_category_id,
        is_active: true,
        created_at: now,
        created_by: actor,
        updated_at: now,
        updated_by: actor,
    }
}

/// The row after a sparse update.
pub open spec fn category_patched(c: Category, dto: UpdateCategoryDto, actor: u128, now: i64) -> Category {
    Category {
        name: if dto.name is Some {
            dto.name->0
        } else {
            c.name
        },
        description: if dto.description is Some {
            dto.description
        } else {
            c.description
        },
        category_type: if dto.category_type is Some {
            dto.category_type->0
        } else {
            c.category_type
        },
        parent_category_id: if dto.parent_category_id is Some {
            dto.parent_category_id
        } else {
            c.parent_category_id
        },
        is_active: if dto.is_active is Some {
            dto.is_active->0
        } else {
            c.is_active
        },
        updated_at: now,
        updated_by: actor,
        ..c
    }
}

/// The row after deactivation.
pub open spec fn category_deactivated(c: Category, actor: u128, now: i64) -> Category {
    Category { is_active: false, updated_at: now, updated_by: actor, ..c }
}

pub open spec fn category_not_found_msg(id: u128, tenant_id: u128) -> Seq<char> {
    "Category with ID "@ + dec_digits(id as int) + " not found for tenant "@ + dec_digits(
        tenant_id as int,
    )
}

pub open spec fn category_not_owned_msg(id: u128, tenant_id: u128) -> Seq<char> {
    "Category with ID "@ + dec_digits(id as int) + " not found or not owned by tenant "@
        + dec_digits(tenant_id as int)
}

pub open spec fn category_inactive_msg(id: u128, tenant_id: u128) -> Seq<char> {
    "Category with ID "@ + dec_digits(id as int) + " not found or already inactive for tenant "@
        + dec_digits(tenant_id as int)
}

pub open spec fn category_cycle_msg(id: u128) -> Seq<char> {
    "Parent assignment would create a cycle for category "@ + dec_digits(id as int)
}

fn find_category(v: &Vec<Category>, tenant_id: u128, id: u128) -> (r: Option<usize>)
    ensures
        match r {
            Some(i) => 0 <= i < v@.len() && v@[i as int].id == id && v@[i as int].tenant_id
                == tenant_id,
            None => !has_category(v@, tenant_id, id),
        },
{
    let mut i: usize = 0;
    while i < v.len()
        invariant
            0 <= i <= v@.len(),
            forall|k: int| 0 <= k < i ==> !(v@[k].id == id && v@[k].tenant_id == tenant_id),
        decreases v@.len() - i,
    {
        if v[i].id == id && v[i].tenant_id == tenant_id {
            return Some(i);
        }
        i += 1;
    }
    None
}

fn find_active_category(v: &Vec<Category>, tenant_id: u128, id: u128) -> (r: Option<usize>)
    ensures
        match r {
            Some(i) => 0 <= i < v@.len() && v@[i as int].id == id && v@[i as int].tenant_id
                == tenant_id && v@[i as int].is_active,
            None => !has_active_category(v@, tenant_id, id),
        },
{
    let mut i: usize = 0;
    while i < v.len()
        invariant
            0 <= i <= v@.len(),
            forall|k: int|
                0 <= k < i ==> !(v@[k].id == id && v@[k].tenant_id == tenant_id
                    && v@[k].is_active),
        decreases v@.len() - i,
    {
        if v[i].id == id && v[i].tenant_id == tenant_id && v[i].is_active {
            return Some(i);
        }
        i += 1;
    }
    None
}

/// Walks parent links from `start` and reports whether `target` is reached
/// within the bounded depth.
fn chain_hits(v: &Vec<Category>, tenant_id: u128, start: u128, target: u128) -> (r: bool)
    requires
        keys_unique(v@, |c: Category| c.id),
    ensures
        r == parent_chain_hits(v@, tenant_id, start, target, (v@.len() + 1) as nat),
{
    let mut cur: u128 = start;
    let mut fuel: usize = v.len();
    loop
        invariant
            keys_unique(v@, |c: Category| c.id),
            parent_chain_hits(v@, tenant_id, start, target, (v@.len() + 1) as nat)
                == parent_chain_hits(v@, tenant_id, cur, target, (fuel + 1) as nat),
        decreases fuel,
    {
        if cur == target {
            return true;
        }
        let p = match find_category(v, tenant_id, cur) {
            None => {
                return false;
            },
            Some(i) => {
                proof {
                    assert(category_idx(v@, tenant_id, cur) == i as int);
                }
                match &v[i].parent_category_id {
                    None => {
                        return false;
                    },
                    Some(p) => *p,
                }
            },
        };
        if fuel == 0 {
            proof {
                assert(parent_chain_hits(v@, tenant_id, p, target, 0nat));
            }
            return true;
        }
        fuel -= 1;
        cur = p;
    }
}

/// The listing order of categories: by name, in character order.
pub open spec fn category_name_le(a: Category, b: Category) -> bool {
    lex_leq(a.name@, b.name@)
}

/// What a listing returns: the matching rows, ordered by name; rows with
/// equal names keep their insertion order.
pub open spec fn categories_listed(s: Seq<Category>, tenant_id: u128) -> Seq<Category> {
    order_by(s.filter(|x: Category| x.tenant_id == tenant_id && x.is_active), |a: Category, b: Category| category_name_le(a, b))
}

/// The position a row takes among already-listed rows: after every row whose
/// name may precede its own.
fn category_insert_pos(v: &Vec<Category>, x: &Category) -> (j: usize)
    ensures
        0 <= j <= v@.len(),
        forall|k: int| 0 <= k < j ==> category_name_le(#[trigger] v@[k], *x),
        j < v@.len() ==> !category_name_le(v@[j as int], *x),
{
    let mut j: usize = 0;
    while j < v.len()
        invariant
            0 <= j <= v@.len(),
            forall|k: int| 0 <= k < j ==> category_name_le(#[trigger] v@[k], *x),
        decreases v@.len() - j,
    {
        if !str_le(v[j].name.as_str(), x.name.as_str()) {
            return j;
        }
        j += 1;
    }
    j
}

/// Lists the active categories of the tenant, ordered by name; equal names
/// keep insertion order. No row of another tenant is ever returned.
pub fn list_categories(store: &Ledger, tenant_id: u128) -> (r: Vec<Category>)
    ensures
        r@ == categories_listed(store.categories@, tenant_id),
        ordered_by(r@, |a: Category, b: Category| category_name_le(a, b)),
        forall|i: int| 0 <= i < r@.len() ==> (#[trigger] r@[i]).tenant_id == tenant_id,
{
    let mut r: Vec<Category> = Vec::new();
    let mut i: usize = 0;
    while i < store.categories.len()
        invariant
            0 <= i <= store.categories@.len(),
            r@ == order_by(store.categories@.subrange(0, i as int).filter(|x: Category| x.tenant_id == tenant_id && x.is_active), |a: Category, b: Category| category_name_le(a, b)),
        decreases store.categories@.len() - i,
    {
        let ghost f = store.categories@.subrange(0, i as int).filter(|x: Category| x.tenant_id == tenant_id && x.is_active);
        proof {
            assert(store.categories@.subrange(0, i + 1) =~= store.categories@.subrange(
                0,
                i as int,
            ).push(store.categories@[i as int]));
            lemma_filter_push(
                store.categories@.subrange(0, i as int),
                |x: Category| x.tenant_id == tenant_id && x.is_active,
                store.categories@[i as int],
            );
        }
        if store.categories[i].tenant_id == tenant_id && store.categories[i].is_active {
            let x = store.categories[i].clone();
            let j = category_insert_pos(&r, &x);
            proof {
                lemma_insert_ordered_at(x, r@, |a: Category, b: Category| category_name_le(a, b), j as int);
                lemma_order_by_push(f, |a: Category, b: Category| category_name_le(a, b), x);
            }
            r.insert(j, x);
        }
        i += 1;
    }
    proof {
        assert(store.categories@.subrange(0, store.categories@.len() as int) =~= store.categories@);
        let f = store.categories@.filter(|x: Category| x.tenant_id == tenant_id && x.is_active);
        assert forall|a: Category, b: Category|
            #[trigger] category_name_le(a, b) || category_name_le(b, a) by {
            lemma_lex_total(a.name@, b.name@);
        }
        assert forall|a: Category, b: Category, c: Category|
            #[trigger] category_name_le(a, b) && #[trigger] category_name_le(b, c) implies category_name_le(a, c) by {
            lemma_lex_trans(a.name@, b.name@, c.name@);
        }
        lemma_order_by_sorted(f, |a: Category, b: Category| category_name_le(a, b));
        lemma_order_by_sub(f, |a: Category, b: Category| category_name_le(a, b));
        assert forall|i: int| 0 <= i < r@.len() implies (#[trigger] r@[i]).tenant_id == tenant_id by {
            let j = choose|j: int| 0 <= j < f.len() && r@[i] == f[j];
            store.categories@.lemma_filter_pred(
                |x: Category| x.tenant_id == tenant_id && x.is_active,
                j,
            );
        }
    }
    r
}

/// Fetches an active category by id under the tenant; anything else is
/// NotFound.
pub fn get_category_by_id(store: &Ledger, tenant_id: u128, category_id: u128) -> (r: Result<
    Category,
    AppError,
>)
    requires
        store.wf(),
    ensures
        match r {
            Ok(c) => {
                &&& has_active_category(store.categories@, tenant_id, category_id)
                &&& c == store.categories@[
                    active_category_idx(store.categories@, tenant_id, category_id)
                ]
                &&& c.tenant_id == tenant_id
            },
            Err(e) => {
                &&& !has_active_category(store.categories@, tenant_id, category_id)
                &&& e is NotFound
                &&& e.spec_message() == category_not_found_msg(category_id, tenant_id)
            },
        },
{
    match find_active_category(&store.categories, tenant_id, category_id) {
        Some(i) => {
            proof {
                let j = active_category_idx(store.categories@, tenant_id, category_id);
                assert(store.categories@[j].id == category_id && store.categories@[j].tenant_id
                    == tenant_id && store.categories@[j].is_active);
                assert(keys_unique(store.categories@, |c: Category| c.id));
                assert(j == i as int);
            }
            Ok(store.categories[i].clone())
        },
        None => Err(AppError::NotFound(
            msg_id_id("Category with ID ", category_id, " not found for tenant ", tenant_id),
        )),
    }
}

/// Creates a category under the tenant. A parent reference must resolve under
/// the same tenant; a fresh node can never close a cycle.
pub fn create_category(store: &mut Ledger, tenant_id: u128, created_by_user_id: u128, now: i64,
    dto: CreateCategoryDto) -> (r: Result<Category, AppError>)
    requires
        old(store).wf(),
    ensures
        final(store).wf(),
        r is Ok <==> (dto.valid() && (dto.parent_category_id is Some ==> has_active_category(
            old(store).categories@,
            tenant_id,
            dto.parent_category_id->0,
        )) && old(store).can_assign_ids(1)),
        match r {
            Ok(row) => {
                &&& row == category_row(dto, old(store).next_id, tenant_id, created_by_user_id, now)
                &&& final(store).categories@ == old(store).categories@.push(row)
                &&& final(store).next_id == old(store).next_id + 1
                &&& *final(store) == (Ledger {
                    categories: final(store).categories,
                    next_id: final(store).next_id,
                    ..*old(store)
                })
            },
            Err(e) => {
                &&& *final(store) == *old(store)
                &&& if !dto.valid() {
                    e is Validation && e.spec_message() == invalid_fields_msg()
                } else if dto.parent_category_id is Some && !has_active_category(
                    old(store).categories@,
                    tenant_id,
                    dto.parent_category_id->0,
                ) {
                    e is Validation && e.spec_message() == invalid_category_msg(
                        dto.parent_category_id->0,
                        tenant_id,
                    )
                } else {
                    e is InternalServerError && e.spec_message() == ids_exhausted_msg()
                }
            },
        },
{
    if !dto.validate() {
        return Err(invalid_fields_error());
    }
    if let Some(p) = &dto.parent_category_id {
        if !resolve_category(&store.categories, tenant_id, *p) {
            return Err(invalid_category_error(*p, tenant_id));
        }
    }
    if store.next_id == u128::MAX {
        return Err(ids_exhausted_error());
    }
    let id = store.next_id;
    store.next_id = store.next_id + 1;
    let row = Category {
        id,
        tenant_id,
        name: dto.name,
        description: dto.description,
        category_type: dto.category_type,
        parent_category_id: dto.parent_category_id,
        is_active: true,
        created_at: now,
        created_by: created_by_user_id,
        updated_at: now,
        updated_by: created_by_user_id,
    };
    let copy = row.clone();
    proof {
        lemma_push_fresh_key(store.categories@, |c: Category| c.id, id as int, row);
    }
    store.categories.push(row);
    Ok(copy)
}

/// Applies a sparse update to a category under the tenant. A patched parent
/// must resolve under the tenant, and its ancestor chain may not reach the
/// category itself.
pub fn update_category(store: &mut Ledger, tenant_id: u128, category_id: u128, updated_by_user_id: u128,
    now: i64, dto: UpdateCategoryDto) -> (r: Result<Category, AppError>)
    requires
        old(store).wf(),
    ensures
        final(store).wf(),
        r is Ok <==> (!dto.is_empty() && dto.valid() && (dto.parent_category_id is Some
            ==> has_active_category(old(store).categories@, tenant_id, dto.parent_category_id->0)
            && !parent_chain_hits(
            old(store).categories@,
            tenant_id,
            dto.parent_category_id->0,
            category_id,
            (old(store).categories@.len() + 1) as nat,
        )) && has_category(old(store).categories@, tenant_id, category_id)),
        match r {
            Ok(row) => {
                let i = category_idx(old(store).categories@, tenant_id, category_id);
                &&& row == category_patched(old(store).categories@[i], dto, updated_by_user_id, now)
                &&& row.tenant_id == tenant_id
                &&& final(store).categories@ == old(store).categories@.update(i, row)
                &&& *final(store) == (Ledger { categories: final(store).categories, ..*old(store) })
            },
            Err(e) => {
                &&& *final(store) == *old(store)
                &&& if dto.is_empty() {
                    e is Validation && e.spec_message() == no_fields_msg()
                } else if !dto.valid() {
                    e is Validation && e.spec_message() == invalid_fields_msg()
                } else if dto.parent_category_id is Some && !has_active_category(
                    old(store).categories@,
                    tenant_id,
                    dto.parent_category_id->0,
                ) {
                    e is Validation && e.spec_message() == invalid_category_msg(
                        dto.parent_category_id->0,
                        tenant_id,
                    )
                } else if dto.parent_category_id is Some && parent_chain_hits(
                    old(store).categories@,
                    tenant_id,
                    dto.parent_category_id->0,
                    category_id,
                    (old(store).categories@.len() + 1) as nat,
                ) {
                    e is Validation && e.spec_message() == category_cycle_msg(category_id)
                } else {
                    e is NotFound && e.spec_message() == category_not_owned_msg(
                        category_id,
                        tenant_id,
                    )
                }
            },
        },
{
    if dto.no_fields() {
        return Err(no_fields_error());
    }
    if !dto.validate() {
        return Err(invalid_fields_error());
    }
    if let Some(p) = &dto.parent_category_id {
        if !resolve_category(&store.categories, tenant_id, *p) {
            return Err(invalid_category_error(*p, tenant_id));
        }
        proof {
            assert(keys_unique(store.categories@, |c: Category| c.id));
        }
        if chain_hits(&store.categories, tenant_id, *p, category_id) {
            let mut m = "Parent assignment would create a cycle for category ".to_owned();
            m.append(dec_string(category_id).as_str());
            return Err(AppError::Validation(m));
        }
    }
    let i = match find_category(&store.categories, tenant_id, category_id) {
        Some(i) => i,
        None => {
            return Err(AppError::NotFound(
                msg_id_id(
                    "Category with ID ",
                    category_id,
                    " not found or not owned by tenant ",
                    tenant_id,
                ),
            ));
        },
    };
    proof {
        assert(keys_unique(store.categories@, |c: Category| c.id));
        assert(category_idx(store.categories@, tenant_id, category_id) == i as int);
    }
    let ghost orig = store.categories@[i as int];
    if let Some(v) = dto.name {
        store.categories[i].name = v;
    }
    if let Some(v) = dto.description {
        store.categories[i].description = Some(v);
    }
    if let Some(v) = dto.category_type {
        store.categories[i].category_type = v;
    }
    if let Some(v) = dto.parent_category_id {
        store.categories[i].parent_category_id = Some(v);
    }
    if let Some(v) = dto.is_active {
        store.categories[i].is_active = v;
    }
    store.categories[i].updated_at = now;
    store.categories[i].updated_by = updated_by_user_id;
    proof {
        assert(store.categories@[i as int] == category_patched(orig, dto, updated_by_user_id, now));
        assert(store.categories@ =~= old(store).categories@.update(
            i as int,
            category_patched(orig, dto, updated_by_user_id, now),
        ));
        lemma_update_same_key(
            old(store).categories@,
            |c: Category| c.id,
            old(store).next_id as int,
            i as int,
            category_patched(orig, dto, updated_by_user_id, now),
        );
    }
    Ok(store.categories[i].clone())
}

/// Deactivates an active category under the tenant; anything else is NotFound
/// and nothing is touched.
pub fn deactivate_category(store: &mut Ledger, tenant_id: u128, category_id: u128,
    updated_by_user_id: u128, now: i64) -> (r: Result<(), AppError>)
    requires
        old(store).wf(),
    ensures
        final(store).wf(),
        r is Ok <==> has_active_category(old(store).categories@, tenant_id, category_id),
        match r {
            Ok(()) => {
                let i = active_category_idx(old(store).categories@, tenant_id, category_id);
                &&& final(store).categories@ == old(store).categories@.update(
                    i,
                    category_deactivated(old(store).categories@[i], updated_by_user_id, now),
                )
                &&& *final(store) == (Ledger { categories: final(store).categories, ..*old(store) })
            },
            Err(e) => {
                &&& *final(store) == *old(store)
                &&& e is NotFound
                &&& e.spec_message() == category_inactive_msg(category_id, tenant_id)
            },
        },
{
    let i = match find_active_category(&store.categories, tenant_id, category_id) {
        Some(i) => i,
        None => {
            return Err(AppError::NotFound(
                msg_id_id(
                    "Category with ID ",
                    category_id,
                    " not found or already inactive for tenant ",
                    tenant_id,
                ),
            ));
        },
    };
    proof {
        assert(keys_unique(store.categories@, |c: Category| c.id));
        assert(active_category_idx(store.categories@, tenant_id, category_id) == i as int);
    }
    let ghost orig = store.categories@[i as int];
    store.categories[i].is_active = false;
    store.categories[i].updated_at = now;
    store.categories[i].updated_by = updated_by_user_id;
    proof {
        assert(store.categories@[i as int] == category_deactivated(orig, updated_by_user_id, now));
        assert(store.categories@ =~= old(store).categories@.update(
            i as int,
            category_deactivated(orig, updated_by_user_id, now),
        ));
        lemma_update_same_key(
            old(store).categories@,
            |c: Category| c.id,
            old(store).next_id as int,
            i as int,
            category_deactivated(orig, updated_by_user_id, now),
        );
    }
    Ok(())
}

} // verus!

//! Tenant operations: list, get, create, sparse update, deactivate. Tenants
//! are not themselves tenant-scoped; they are the scopes.

use vstd::prelude::*;
use crate::dto::{CreateTenantDto, UpdateTenantDto};
use crate::error::{invalid_fields_error, ids_exhausted_error, no_fields_error, AppError};
use crate::error::{invalid_fields_msg, ids_exhausted_msg, no_fields_msg};
use crate::models::Tenant;
use crate::order::{lemma_insert_ordered_at, lemma_lex_total, lemma_lex_trans, lemma_order_by_push,
    lemma_order_by_sorted, lemma_order_by_sub, lex_leq, order_by, ordered_by, str_le};
use crate::store::{keys_unique, lemma_filter_push, lemma_push_fresh_key,
    lemma_update_same_key, Ledger};
use crate::strutil::{dec_digits, msg_id};

verus! {

/// Whether some tenant row carries the id.
pub open spec fn has_tenant(s: Seq<Tenant>, id: u128) -> bool {
    exists|i: int| 0 <= i < s.len() && s[i].id == id
}

/// The index of the tenant row carrying the id.
pub open spec fn tenant_idx(s: Seq<Tenant>, id: u128) -> int {
    choose|i: int| 0 <= i < s.len() && s[i].id == id
}

/// Whether some active tenant row carries the id.
pub open spec fn has_active_tenant(s: Seq<Tenant>, id: u128) -> bool {
    exists|i: int| 0 <= i < s.len() && s[i].id == id && s[i].is_active
}

/// The index of the active tenant row carrying the id.
pub open spec fn active_tenant_idx(s: Seq<Tenant>, id: u128) -> int {
    choose|i: int| 0 <= i < s.len() && s[i].id == id && s[i].is_active
}

/// The listing order of tenants: by name, in character order.
pub open spec fn tenant_le(a: Tenant, b: Tenant) -> bool {
    lex_leq(a.name@, b.name@)
}

/// What a listing returns: the active rows, ordered by name; rows with equal
/// names keep their insertion order.
pub open spec fn tenants_listed(s: Seq<Tenant>) -> Seq<Tenant> {
    order_by(s.filter(|t: Tenant| t.is_active), |a: Tenant, b: Tenant| tenant_le(a, b))
}

/// The row a creation request persists.
pub open spec fn tenant_row(dto: CreateTenantDto, id: u128, actor: u128, now: i64) -> Tenant {
    Tenant {
        id,
        name: dto.name,
        industry: dto.industry,
        base_currency_code: dto.base_currency_code,
        fiscal_year_end_month: dto.fiscal_year_end_month,
        is_active: true,
        created_at: now,
        created_by: actor,
        updated_at: now,
        updated_by: actor,
    }
}

/// The row after a sparse update: fields carried by the patch replace the old
/// values, all others are kept, and the audit stamp is always refreshed.
pub open spec fn tenant_patched(t: Tenant, dto: UpdateTenantDto, actor: u128, now: i64) -> Tenant {
    Tenant {
        name: if dto.name is Some {
            dto.name->0
        } else {
            t.name
        },
        industry: if dto.industry is Some {
            dto.industry
        } else {
            t.industry
        },
        base_currency_code: if dto.base_currency_code is Some {
            dto.base_currency_code->0
        } else {
            t.base_currency_code
        },
        fiscal_year_end_month: if dto.fiscal_year_end_month is Some {
            dto.fiscal_year_end_month->0
        } else {
            t.fiscal_year_end_month
        },
        is_active: if dto.is_active is Some {
            dto.is_active->0
        } else {
            t.is_active
        },
        updated_at: now,
        updated_by: actor,
        ..t
    }
}

/// The row after deactivation: only the active flag and the audit stamp move.
pub open spec fn tenant_deactivated(t: Tenant, actor: u128, now: i64) -> Tenant {
    Tenant { is_active: false, updated_at: now, updated_by: actor, ..t }
}

pub open spec fn tenant_not_found_msg(id: u128) -> Seq<char> {
    "Tenant with ID "@ + dec_digits(id as int) + " not found"@
}

pub open spec fn tenant_inactive_msg(id: u128) -> Seq<char> {
    "Tenant with ID "@ + dec_digits(id as int) + " not found or already inactive"@
}

fn find_tenant(v: &Vec<Tenant>, id: u128) -> (r: Option<usize>)
    ensures
        match r {
            Some(i) => 0 <= i < v@.len() && v@[i as int].id == id,
            None => !has_tenant(v@, id),
        },
{
    let mut i: usize = 0;
    while i < v.len()
        invariant
            0 <= i <= v@.len(),
            forall|k: int| 0 <= k < i ==> v@[k].id != id,
        decreases v@.len() - i,
    {
        if v[i].id == id {
            return Some(i);
        }
        i += 1;
    }
    None
}

fn find_active_tenant(v: &Vec<Tenant>, id: u128) -> (r: Option<usize>)
    ensures
        match r {
            Some(i) => 0 <= i < v@.len() && v@[i as int].id == id && v@[i as int].is_active,
            None => !has_active_tenant(v@, id),
        },
{
    let mut i: usize = 0;
    while i < v.len()
        invariant
            0 <= i <= v@.len(),
            forall|k: int| 0 <= k < i ==> !(v@[k].id == id && v@[k].is_active),
        decreases v@.len() - i,
    {
        if v[i].id == id && v[i].is_active {
            return Some(i);
        }
        i += 1;
    }
    None
}

/// The position a row takes among already-listed rows: after every row whose
/// name may precede its own.
fn tenant_insert_pos(v: &Vec<Tenant>, x: &Tenant) -> (j: usize)
    ensures
        0 <= j <= v@.len(),
        forall|k: int| 0 <= k < j ==> tenant_le(#[trigger] v@[k], *x),
        j < v@.len() ==> !tenant_le(v@[j as int], *x),
{
    let mut j: usize = 0;
    while j < v.len()
        invariant
            0 <= j <= v@.len(),
            forall|k: int| 0 <= k < j ==> tenant_le(#[trigger] v@[k], *x),
        decreases v@.len() - j,
    {
        if !str_le(v[j].name.as_str(), x.name.as_str()) {
            return j;
        }
        j += 1;
    }
    j
}

/// Lists the active tenants, ordered by name; equal names keep insertion
/// order.
pub fn list_tenants(store: &Ledger) -> (r: Vec<Tenant>)
    ensures
        r@ == tenants_listed(store.tenants@),
        ordered_by(r@, |a: Tenant, b: Tenant| tenant_le(a, b)),
        forall|i: int| 0 <= i < r@.len() ==> (#[trigger] r@[i]).is_active,
{
    let mut r: Vec<Tenant> = Vec::new();
    let mut i: usize = 0;
    while i < store.tenants.len()
        invariant
            0 <= i <= store.tenants@.len(),
            r@ == order_by(
                store.tenants@.subrange(0, i as int).filter(|t: Tenant| t.is_active),
                |a: Tenant, b: Tenant| tenant_le(a, b),
            ),
        decreases store.tenants@.len() - i,
    {
        let ghost f = store.tenants@.subrange(0, i as int).filter(|t: Tenant| t.is_active);
        proof {
            assert(store.tenants@.subrange(0, i + 1) =~= store.tenants@.subrange(
                0,
                i as int,
            ).push(store.tenants@[i as int]));
            lemma_filter_push(
                store.tenants@.subrange(0, i as int),
                |t: Tenant| t.is_active,
                store.tenants@[i as int],
            );
        }
        if store.tenants[i].is_active {
            let x = store.tenants[i].clone();
            let j = tenant_insert_pos(&r, &x);
            proof {
                lemma_insert_ordered_at(x, r@, |a: Tenant, b: Tenant| tenant_le(a, b), j as int);
                lemma_order_by_push(f, |a: Tenant, b: Tenant| tenant_le(a, b), x);
            }
            r.insert(j, x);
        }
        i += 1;
    }
    proof {
        assert(store.tenants@.subrange(0, store.tenants@.len() as int) =~= store.tenants@);
        let f = store.tenants@.filter(|t: Tenant| t.is_active);
        assert forall|a: Tenant, b: Tenant|
            #[trigger] tenant_le(a, b) || tenant_le(b, a) by {
            lemma_lex_total(a.name@, b.name@);
        }
        assert forall|a: Tenant, b: Tenant, c: Tenant|
            #[trigger] tenant_le(a, b) && #[trigger] tenant_le(b, c) implies tenant_le(a, c) by {
            lemma_lex_trans(a.name@, b.name@, c.name@);
        }
        lemma_order_by_sorted(f, |a: Tenant, b: Tenant| tenant_le(a, b));
        lemma_order_by_sub(f, |a: Tenant, b: Tenant| tenant_le(a, b));
        assert forall|i: int| 0 <= i < r@.len() implies (#[trigger] r@[i]).is_active by {
            let j = choose|j: int| 0 <= j < f.len() && r@[i] == f[j];
            store.tenants@.lemma_filter_pred(|t: Tenant| t.is_active, j);
        }
    }
    r
}

/// Fetches an active tenant by id; an absent or inactive id is NotFound.
pub fn get_tenant_by_id(store: &Ledger, tenant_id: u128) -> (r: Result<Tenant, AppError>)
    requires
        store.wf(),
    ensures
        match r {
            Ok(t) => has_active_tenant(store.tenants@, tenant_id) && t == store.tenants@[
                active_tenant_idx(store.tenants@, tenant_id)
            ],
            Err(e) => {
                &&& !has_active_tenant(store.tenants@, tenant_id)
                &&& e is NotFound
                &&& e.spec_message() == tenant_not_found_msg(tenant_id)
            },
        },
{
    match find_active_tenant(&store.tenants, tenant_id) {
        Some(i) => {
            proof {
                let j = active_tenant_idx(store.tenants@, tenant_id);
                assert(store.tenants@[j].id == tenant_id && store.tenants@[j].is_active);
                assert(keys_unique(store.tenants@, |t: Tenant| t.id));
                assert(j == i as int);
            }
            Ok(store.tenants[i].clone())
        },
        None => Err(AppError::NotFound(msg_id("Tenant with ID ", tenant_id, " not found"))),
    }
}

/// Creates a tenant from a validated request, stamping the actor as creator.
pub fn create_tenant(store: &mut Ledger, created_by_user_id: u128, now: i64, dto: CreateTenantDto) -> (r:
    Result<Tenant, AppError>)
    requires
        old(store).wf(),
    ensures
        final(store).wf(),
        r is Ok <==> (dto.valid() && old(store).can_assign_ids(1)),
        match r {
            Ok(row) => {
                &&& row == tenant_row(dto, old(store).next_id, created_by_user_id, now)
                &&& final(store).tenants@ == old(store).tenants@.push(row)
                &&& final(store).next_id == old(store).next_id + 1
                &&& *final(store) == (Ledger { tenants: final(store).tenants, next_id: final(store).next_id, ..*old(store) })
            },
            Err(e) => {
                &&& *final(store) == *old(store)
                &&& if !dto.valid() {
                    e is Validation && e.spec_message() == invalid_fields_msg()
                } else {
                    e is InternalServerError && e.spec_message() == ids_exhausted_msg()
                }
            },
        },
{
    if !dto.validate() {
        return Err(invalid_fields_error());
    }
    if store.next_id == u128::MAX {
        return Err(ids_exhausted_error());
    }
    let id = store.next_id;
    store.next_id = store.next_id + 1;
    let row = Tenant {
        id,
        name: dto.name,
        industry: dto.industry,
        base_currency_code: dto.base_currency_code,
        fiscal_year_end_month: dto.fiscal_year_end_month,
        is_active: true,
        created_at: now,
        created_by: created_by_user_id,
        updated_at: now,
        updated_by: created_by_user_id,
    };
    let copy = row.clone();
    proof {
        lemma_push_fresh_key(store.tenants@, |t: Tenant| t.id, id as int, row);
    }
    store.tenants.push(row);
    Ok(copy)
}

/// Applies a sparse update to a tenant. An empty patch is rejected before
/// anything is touched; the audit stamp is always refreshed.
pub fn update_tenant(store: &mut Ledger, tenant_id: u128, updated_by_user_id: u128, now: i64,
    dto: UpdateTenantDto) -> (r: Result<Tenant, AppError>)
    requires
        old(store).wf(),
    ensures
        final(store).wf(),
        r is Ok <==> (!dto.is_empty() && dto.valid() && has_tenant(old(store).tenants@, tenant_id)),
        match r {
            Ok(row) => {
                let i = tenant_idx(old(store).tenants@, tenant_id);
                &&& row == tenant_patched(old(store).tenants@[i], dto, updated_by_user_id, now)
                &&& final(store).tenants@ == old(store).tenants@.update(i, row)
                &&& *final(store) == (Ledger { tenants: final(store).tenants, ..*old(store) })
            },
            Err(e) => {
                &&& *final(store) == *old(store)
                &&& if dto.is_empty() {
                    e is Validation && e.spec_message() == no_fields_msg()
                } else if !dto.valid() {
                    e is Validation && e.spec_message() == invalid_fields_msg()
                } else {
                    e is NotFound && e.spec_message() == tenant_not_found_msg(tenant_id)
                }
            },
        },
{
    if dto.no_fields() {
        return Err(no_fields_error());
    }
    if !dto.validate() {
        return Err(invalid_fields_error());
    }
    let i = match find_tenant(&store.tenants, tenant_id) {
        Some(i) => i,
        None => {
            return Err(AppError::NotFound(msg_id("Tenant with ID ", tenant_id, " not found")));
        },
    };
    proof {
        assert(keys_unique(store.tenants@, |t: Tenant| t.id));
        assert(tenant_idx(store.tenants@, tenant_id) == i as int);
    }
    let ghost orig = store.tenants@[i as int];
    if let Some(v) = dto.name {
        store.tenants[i].name = v;
    }
    if let Some(v) = dto.industry {
        store.tenants[i].industry = Some(v);
    }
    if let Some(v) = dto.base_currency_code {
        store.tenants[i].base_currency_code = v;
    }
    if let Some(v) = dto.fiscal_year_end_month {
        store.tenants[i].fiscal_year_end_month = v;
    }
    if let Some(v) = dto.is_active {
        store.tenants[i].is_active = v;
    }
    store.tenants[i].updated_at = now;
    store.tenants[i].updated_by = updated_by_user_id;
    proof {
        assert(store.tenants@[i as int] == tenant_patched(orig, dto, updated_by_user_id, now));
        assert(store.tenants@ =~= old(store).tenants@.update(
            i as int,
            tenant_patched(orig, dto, updated_by_user_id, now),
        ));
        lemma_update_same_key(
            old(store).tenants@,
            |t: Tenant| t.id,
            old(store).next_id as int,
            i as int,
            tenant_patched(orig, dto, updated_by_user_id, now),
        );
    }
    Ok(store.tenants[i].clone())
}

/// Deactivates an active tenant; an absent or already-inactive id is NotFound
/// and nothing is touched.
pub fn deactivate_tenant(store: &mut Ledger, tenant_id: u128, updated_by_user_id: u128, now: i64) -> (r:
    Result<(), AppError>)
    requires
        old(store).wf(),
    ensures
        final(store).wf(),
        r is Ok <==> has_active_tenant(old(store).tenants@, tenant_id),
        match r {
            Ok(()) => {
                let i = active_tenant_idx(old(store).tenants@, tenant_id);
                &&& final(store).tenants@ == old(store).tenants@.update(
                    i,
                    tenant_deactivated(old(store).tenants@[i], updated_by_user_id, now),
                )
                &&& *final(store) == (Ledger { tenants: final(store).tenants, ..*old(store) })
            },
            Err(e) => {
                &&& *final(store) == *old(store)
                &&& e is NotFound
                &&& e.spec_message() == tenant_inactive_msg(tenant_id)
            },
        },
{
    let i = match find_active_tenant(&store.tenants, tenant_id) {
        Some(i) => i,
        None => {
            return Err(AppError::NotFound(
                msg_id("Tenant with ID ", tenant_id, " not found or already inactive"),
            ));
        },
    };
    proof {
        assert(keys_unique(store.tenants@, |t: Tenant| t.id));
        assert(active_tenant_idx(store.tenants@, tenant_id) == i as int);
    }
    let ghost orig = store.tenants@[i as int];
    store.tenants[i].is_active = false;
    store.tenants[i].updated_at = now;
    store.tenants[i].updated_by = updated_by_user_id;
    proof {
        assert(store.tenants@[i as int] == tenant_deactivated(orig, updated_by_user_id, now));
        assert(store.tenants@ =~= old(store).tenants@.update(
            i as int,
            tenant_deactivated(orig, updated_by_user_id, now),
        ));
        lemma_update_same_key(
            old(store).tenants@,
            |t: Tenant| t.id,
            old(store).next_id as int,
            i as int,
            tenant_deactivated(orig, updated_by_user_id, now),
        );
    }
    Ok(())
}

} // verus!

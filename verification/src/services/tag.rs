//! Tag operations. Tags are tenant-scoped labels: every lookup and mutation
//! filters by the acting tenant, so rows of another tenant are unreachable.

use vstd::prelude::*;
use crate::dto::{CreateTagDto, UpdateTagDto};
use crate::error::{invalid_fields_error, ids_exhausted_error, no_fields_error, AppError};
use crate::error::{invalid_fields_msg, ids_exhausted_msg, no_fields_msg};
use crate::models::Tag;
use crate::order::{lemma_insert_ordered_at, lemma_lex_total, lemma_lex_trans, lemma_order_by_push,
    lemma_order_by_sorted, lemma_order_by_sub, lex_leq, order_by, ordered_by, str_le};
use crate::store::{keys_unique, lemma_filter_push, lemma_push_fresh_key, lemma_update_same_key,
    Ledger};
use crate::strutil::{dec_digits, msg_id_id};

verus! {

/// Whether some tag row carries the id under the tenant.
pub open spec fn has_tag(s: Seq<Tag>, tenant_id: u128, id: u128) -> bool {
    exists|i: int| 0 <= i < s.len() && s[i].id == id && s[i].tenant_id == tenant_id
}

/// The index of the tag row carrying the id under the tenant.
pub open spec fn tag_idx(s: Seq<Tag>, tenant_id: u128, id: u128) -> int {
    choose|i: int| 0 <= i < s.len() && s[i].id == id && s[i].tenant_id == tenant_id
}

/// Whether some active tag row carries the id under the tenant.
pub open spec fn has_active_tag(s: Seq<Tag>, tenant_id: u128, id: u128) -> bool {
    exists|i: int|
        0 <= i < s.len() && s[i].id == id && s[i].tenant_id == tenant_id && s[i].is_active
}

/// The index of the active tag row carrying the id under the tenant.
pub open spec fn active_tag_idx(s: Seq<Tag>, tenant_id: u128, id: u128) -> int {
    choose|i: int|
        0 <= i < s.len() && s[i].id == id && s[i].tenant_id == tenant_id && s[i].is_active
}

/// The row a creation request persists.
pub open spec fn tag_row(dto: CreateTagDto, id: u128, tenant_id: u128, actor: u128, now: i64) -> Tag {
    Tag {
        id,
        tenant_id,
        name: dto.name,
        description: dto.description,
        is_active: true,
        created_at: now,
        created_by: actor,
        updated_at: now,
        updated_by: actor,
    }
}

/// The row after a sparse update.
pub open spec fn tag_patched(t: Tag, dto: UpdateTagDto, actor: u128, now: i64) -> Tag {
    Tag {
        name: if dto.name is Some {
            dto.name->0
        } else {
            t.name
        },
        description: if dto.description is Some {
            dto.description
        } else {
            t.description
        },
        is_active: if dto.is_active is Some {
            dto.is_active->0
        } else {
            t.is_active
        },
        updated_at: now,
        updated_by: actor,
        ..t
    }
}

/// The row after deactivation.
pub open spec fn tag_deactivated(t: Tag, actor: u128, now: i64) -> Tag {
    Tag { is_active: false, updated_at: now, updated_by: actor, ..t }
}

pub open spec fn tag_not_found_msg(id: u128, tenant_id: u128) -> Seq<char> {
    "Tag with ID "@ + dec_digits(id as int) + " not found for tenant "@ + dec_digits(
        tenant_id as int,
    )
}

pub open spec fn tag_not_owned_msg(id: u128, tenant_id: u128) -> Seq<char> {
    "Tag with ID "@ + dec_digits(id as int) + " not found or not owned by tenant "@ + dec_digits(
        tenant_id as int,
    )
}

pub open spec fn tag_inactive_msg(id: u128, tenant_id: u128) -> Seq<char> {
    "Tag with ID "@ + dec_digits(id as int) + " not found or already inactive for tenant "@
        + dec_digits(tenant_id as int)
}

fn find_tag(v: &Vec<Tag>, tenant_id: u128, id: u128) -> (r: Option<usize>)
    ensures
        match r {
            Some(i) => 0 <= i < v@.len() && v@[i as int].id == id && v@[i as int].tenant_id
                == tenant_id,
            None => !has_tag(v@, tenant_id, id),
        },
{
    let mut i: usize = 0;
    while i < v.len()
        invariant
            0 <= i <= v@.len(),
            forall|k: int| 0 <= k < i ==> !(v@[k].id == id && v@[k].tenant_id == tenant_id),
        decreases v@.len() - i,
    {
        if v[i].id == id && v[i].tenant_id == tenant_id {
            return Some(i);
        }
        i += 1;
    }
    None
}

fn find_active_tag(v: &Vec<Tag>, tenant_id: u128, id: u128) -> (r: Option<usize>)
    ensures
        match r {
            Some(i) => 0 <= i < v@.len() && v@[i as int].id == id && v@[i as int].tenant_id
                == tenant_id && v@[i as int].is_active,
            None => !has_active_tag(v@, tenant_id, id),
        },
{
    let mut i: usize = 0;
    while i < v.len()
        invariant
            0 <= i <= v@.len(),
            forall|k: int|
                0 <= k < i ==> !(v@[k].id == id && v@[k].tenant_id == tenant_id
                    && v@[k].is_active),
        decreases v@.len() - i,
    {
        if v[i].id == id && v[i].tenant_id == tenant_id && v[i].is_active {
            return Some(i);
        }
        i += 1;
    }
    None
}

/// The listing order of tags: by name, in character order.
pub open spec fn tag_le(a: Tag, b: Tag) -> bool {
    lex_leq(a.name@, b.name@)
}

/// What a listing returns: the matching rows, ordered by name; rows with
/// equal names keep their insertion order.
pub open spec fn tags_listed(s: Seq<Tag>, tenant_id: u128) -> Seq<Tag> {
    order_by(s.filter(|x: Tag| x.tenant_id == tenant_id && x.is_active), |a: Tag, b: Tag| tag_le(a, b))
}

/// The position a row takes among already-listed rows: after every row whose
/// name may precede its own.
fn tag_insert_pos(v: &Vec<Tag>, x: &Tag) -> (j: usize)
    ensures
        0 <= j <= v@.len(),
        forall|k: int| 0 <= k < j ==> tag_le(#[trigger] v@[k], *x),
        j < v@.len() ==> !tag_le(v@[j as int], *x),
{
    let mut j: usize = 0;
    while j < v.len()
        invariant
            0 <= j <= v@.len(),
            forall|k: int| 0 <= k < j ==> tag_le(#[trigger] v@[k], *x),
        decreases v@.len() - j,
    {
        if !str_le(v[j].name.as_str(), x.name.as_str()) {
            return j;
        }
        j += 1;
    }
    j
}

/// Lists the active tags of the tenant, ordered by name; equal names keep
/// insertion order. No row of another tenant is ever returned.
pub fn list_tags(store: &Ledger, tenant_id: u128) -> (r: Vec<Tag>)
    ensures
        r@ == tags_listed(store.tags@, tenant_id),
        ordered_by(r@, |a: Tag, b: Tag| tag_le(a, b)),
        forall|i: int| 0 <= i < r@.len() ==> (#[trigger] r@[i]).tenant_id == tenant_id,
{
    let mut r: Vec<Tag> = Vec::new();
    let mut i: usize = 0;
    while i < store.tags.len()
        invariant
            0 <= i <= store.tags@.len(),
            r@ == order_by(store.tags@.subrange(0, i as int).filter(|x: Tag| x.tenant_id == tenant_id && x.is_active), |a: Tag, b: Tag| tag_le(a, b)),
        decreases store.tags@.len() - i,
    {
        let ghost f = store.tags@.subrange(0, i as int).filter(|x: Tag| x.tenant_id == tenant_id && x.is_active);
        proof {
            assert(store.tags@.subrange(0, i + 1) =~= store.tags@.subrange(
                0,
                i as int,
            ).push(store.tags@[i as int]));
            lemma_filter_push(
                store.tags@.subrange(0, i as int),
                |x: Tag| x.tenant_id == tenant_id && x.is_active,
                store.tags@[i as int],
            );
        }
        if store.tags[i].tenant_id == tenant_id && store.tags[i].is_active {
            let x = store.tags[i].clone();
            let j = tag_insert_pos(&r, &x);
            proof {
                lemma_insert_ordered_at(x, r@, |a: Tag, b: Tag| tag_le(a, b), j as int);
                lemma_order_by_push(f, |a: Tag, b: Tag| tag_le(a, b), x);
            }
            r.insert(j, x);
        }
        i += 1;
    }
    proof {
        assert(store.tags@.subrange(0, store.tags@.len() as int) =~= store.tags@);
        let f = store.tags@.filter(|x: Tag| x.tenant_id == tenant_id && x.is_active);
        assert forall|a: Tag, b: Tag|
            #[trigger] tag_le(a, b) || tag_le(b, a) by {
            lemma_lex_total(a.name@, b.name@);
        }
        assert forall|a: Tag, b: Tag, c: Tag|
            #[trigger] tag_le(a, b) && #[trigger] tag_le(b, c) implies tag_le(a, c) by {
            lemma_lex_trans(a.name@, b.name@, c.name@);
        }
        lemma_order_by_sorted(f, |a: Tag, b: Tag| tag_le(a, b));
        lemma_order_by_sub(f, |a: Tag, b: Tag| tag_le(a, b));
        assert forall|i: int| 0 <= i < r@.len() implies (#[trigger] r@[i]).tenant_id == tenant_id by {
            let j = choose|j: int| 0 <= j < f.len() && r@[i] == f[j];
            store.tags@.lemma_filter_pred(|x: Tag| x.tenant_id == tenant_id && x.is_active, j);
        }
    }
    r
}

/// Fetches an active tag by id under the tenant; anything else is NotFound.
pub fn get_tag_by_id(store: &Ledger, tenant_id: u128, tag_id: u128) -> (r: Result<Tag, AppError>)
    requires
        store.wf(),
    ensures
        match r {
            Ok(t) => {
                &&& has_active_tag(store.tags@, tenant_id, tag_id)
                &&& t == store.tags@[active_tag_idx(store.tags@, tenant_id, tag_id)]
                &&& t.tenant_id == tenant_id
            },
            Err(e) => {
                &&& !has_active_tag(store.tags@, tenant_id, tag_id)
                &&& e is NotFound
                &&& e.spec_message() == tag_not_found_msg(tag_id, tenant_id)
            },
        },
{
    match find_active_tag(&store.tags, tenant_id, tag_id) {
        Some(i) => {
            proof {
                let j = active_tag_idx(store.tags@, tenant_id, tag_id);
                assert(store.tags@[j].id == tag_id && store.tags@[j].tenant_id == tenant_id
                    && store.tags@[j].is_active);
                assert(keys_unique(store.tags@, |t: Tag| t.id));
                assert(j == i as int);
            }
            Ok(store.tags[i].clone())
        },
        None => Err(AppError::NotFound(
            msg_id_id("Tag with ID ", tag_id, " not found for tenant ", tenant_id),
        )),
    }
}

/// Creates a tag under the tenant from a validated request.
pub fn create_tag(store: &mut Ledger, tenant_id: u128, created_by_user_id: u128, now: i64,
    dto: CreateTagDto) -> (r: Result<Tag, AppError>)
    requires
        old(store).wf(),
    ensures
        final(store).wf(),
        r is Ok <==> (dto.valid() && old(store).can_assign_ids(1)),
        match r {
            Ok(row) => {
                &&& row == tag_row(dto, old(store).next_id, tenant_id, created_by_user_id, now)
                &&& final(store).tags@ == old(store).tags@.push(row)
                &&& final(store).next_id == old(store).next_id + 1
                &&& *final(store) == (Ledger {
                    tags: final(store).tags,
                    next_id: final(store).next_id,
                    ..*old(store)
                })
            },
            Err(e) => {
                &&& *final(store) == *old(store)
                &&& if !dto.valid() {
                    e is Validation && e.spec_message() == invalid_fields_msg()
                } else {
                    e is InternalServerError && e.spec_message() == ids_exhausted_msg()
                }
            },
        },
{
    if !dto.validate() {
        return Err(invalid_fields_error());
    }
    if store.next_id == u128::MAX {
        return Err(ids_exhausted_error());
    }
    let id = store.next_id;
    store.next_id = store.next_id + 1;
    let row = Tag {
        id,
        tenant_id,
        name: dto.name,
        description: dto.description,
        is_active: true,
        created_at: now,
        created_by: created_by_user_id,
        updated_at: now,
        updated_by: created_by_user_id,
    };
    let copy = row.clone();
    proof {
        lemma_push_fresh_key(store.tags@, |t: Tag| t.id, id as int, row);
    }
    store.tags.push(row);
    Ok(copy)
}

/// Applies a sparse update to a tag under the tenant, active or not.
pub fn update_tag(store: &mut Ledger, tenant_id: u128, tag_id: u128, updated_by_user_id: u128, now: i64,
    dto: UpdateTagDto) -> (r: Result<Tag, AppError>)
    requires
        old(store).wf(),
    ensures
        final(store).wf(),
        r is Ok <==> (!dto.is_empty() && dto.valid() && has_tag(old(store).tags@, tenant_id, tag_id)),
        match r {
            Ok(row) => {
                let i = tag_idx(old(store).tags@, tenant_id, tag_id);
                &&& row == tag_patched(old(store).tags@[i], dto, updated_by_user_id, now)
                &&& row.tenant_id == tenant_id
                &&& final(store).tags@ == old(store).tags@.update(i, row)
                &&& *final(store) == (Ledger { tags: final(store).tags, ..*old(store) })
            },
            Err(e) => {
                &&& *final(store) == *old(store)
                &&& if dto.is_empty() {
                    e is Validation && e.spec_message() == no_fields_msg()
                } else if !dto.valid() {
                    e is Validation && e.spec_message() == invalid_fields_msg()
                } else {
                    e is NotFound && e.spec_message() == tag_not_owned_msg(tag_id, tenant_id)
                }
            },
        },
{
    if dto.no_fields() {
        return Err(no_fields_error());
    }
    if !dto.validate() {
        return Err(invalid_fields_error());
    }
    let i = match find_tag(&store.tags, tenant_id, tag_id) {
        Some(i) => i,
        None => {
            return Err(AppError::NotFound(
                msg_id_id("Tag with ID ", tag_id, " not found or not owned by tenant ", tenant_id),
            ));
        },
    };
    proof {
        assert(keys_unique(store.tags@, |t: Tag| t.id));
        assert(tag_idx(store.tags@, tenant_id, tag_id) == i as int);
    }
    let ghost orig = store.tags@[i as int];
    if let Some(v) = dto.name {
        store.tags[i].name = v;
    }
    if let Some(v) = dto.description {
        store.tags[i].description = Some(v);
    }
    if let Some(v) = dto.is_active {
        store.tags[i].is_active = v;
    }
    store.tags[i].updated_at = now;
    store.tags[i].updated_by = updated_by_user_id;
    proof {
        assert(store.tags@[i as int] == tag_patched(orig, dto, updated_by_user_id, now));
        assert(store.tags@ =~= old(store).tags@.update(
            i as int,
            tag_patched(orig, dto, updated_by_user_id, now),
        ));
        lemma_update_same_key(
            old(store).tags@,
            |t: Tag| t.id,
            old(store).next_id as int,
            i as int,
            tag_patched(orig, dto, updated_by_user_id, now),
        );
    }
    Ok(store.tags[i].clone())
}

/// Deactivates an active tag under the tenant; anything else is NotFound and
/// nothing is touched.
pub fn deactivate_tag(store: &mut Ledger, tenant_id: u128, tag_id: u128, updated_by_user_id: u128,
    now: i64) -> (r: Result<(), AppError>)
    requires
        old(store).wf(),
    ensures
        final(store).wf(),
        r is Ok <==> has_active_tag(old(store).tags@, tenant_id, tag_id),
        match r {
            Ok(()) => {
                let i = active_tag_idx(old(store).tags@, tenant_id, tag_id);
                &&& final(store).tags@ == old(store).tags@.update(
                    i,
                    tag_deactivated(old(store).tags@[i], updated_by_user_id, now),
                )
                &&& *final(store) == (Ledger { tags: final(store).tags, ..*old(store) })
            },
            Err(e) => {
                &&& *final(store) == *old(store)
                &&& e is NotFound
                &&& e.spec_message() == tag_inactive_msg(tag_id, tenant_id)
            },
        },
{
    let i = match find_active_tag(&store.tags, tenant_id, tag_id) {
        Some(i) => i,
        None => {
            return Err(AppError::NotFound(
                msg_id_id(
                    "Tag with ID ",
                    tag_id,
                    " not found or already inactive for tenant ",
                    tenant_id,
                ),
            ));
        },
    };
    proof {
        assert(keys_unique(store.tags@, |t: Tag| t.id));
        assert(active_tag_idx(store.tags@, tenant_id, tag_id) == i as int);
    }
    let ghost orig = store.tags@[i as int];
    store.tags[i].is_active = false;
    store.tags[i].updated_at = now;
    store.tags[i].updated_by = updated_by_user_id;
    proof {
        assert(store.tags@[i as int] == tag_deactivated(orig, updated_by_user_id, now));
        assert(store.tags@ =~= old(store).tags@.update(
            i as int,
            tag_deactivated(orig, updated_by_user_id, now),
        ));
        lemma_update_same_key(
            old(store).tags@,
            |t: Tag| t.id,
            old(store).next_id as int,
            i as int,
            tag_deactivated(orig, updated_by_user_id, now),
        );
    }
    Ok(())
}

} // verus!

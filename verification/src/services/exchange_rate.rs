//! Exchange-rate operations. Rates are historical records: they are created,
//! narrowly updated and hard-deleted, never soft-deleted. A rate is either
//! tenant-specific or — when it carries no tenant — a system-wide default,
//! and listing and latest-rate lookup match that scope exactly.

use vstd::prelude::*;
use crate::dto::{CreateExchangeRateDto, UpdateExchangeRateDto};
use crate::error::{invalid_fields_error, ids_exhausted_error, no_fields_error, AppError};
use crate::error::{invalid_fields_msg, ids_exhausted_msg, no_fields_msg};
use crate::models::ExchangeRate;
use crate::order::{lemma_insert_ordered_at, lemma_lex_antisym, lemma_lex_total, lemma_lex_trans,
    lemma_order_by_push, lemma_order_by_sorted, lemma_order_by_sub, lex_leq, order_by, ordered_by,
    str_le};
use crate::store::{keys_unique, lemma_filter_push, lemma_push_fresh_key, lemma_remove_keeps_keys,
    lemma_update_same_key, Ledger};
use crate::strutil::{dec_digits, msg_id, str_eq};

verus! {

/// Whether some exchange-rate row carries the id.
pub open spec fn has_rate(s: Seq<ExchangeRate>, id: u128) -> bool {
    exists|i: int| 0 <= i < s.len() && s[i].id == id
}

/// The index of the exchange-rate row carrying the id.
pub open spec fn rate_idx(s: Seq<ExchangeRate>, id: u128) -> int {
    choose|i: int| 0 <= i < s.len() && s[i].id == id
}

/// Whether a row belongs to the requested scope and currency pair.
pub open spec fn rate_matches(r: ExchangeRate, tenant_id: Option<u128>, base: Seq<char>,
    target: Seq<char>) -> bool {
    &&& r.tenant_id == tenant_id
    &&& r.base_currency_code@ == base
    &&& r.target_currency_code@ == target
}

/// Whether some row matches the scope and currency pair.
pub open spec fn has_matching_rate(s: Seq<ExchangeRate>, tenant_id: Option<u128>, base: Seq<char>,
    target: Seq<char>) -> bool {
    exists|i: int| 0 <= i < s.len() && rate_matches(#[trigger] s[i], tenant_id, base, target)
}

/// The row a creation request persists.
pub open spec fn rate_row(dto: CreateExchangeRateDto, id: u128, actor: u128, now: i64) -> ExchangeRate {
    ExchangeRate {
        id,
        tenant_id: dto.tenant_id,
        base_currency_code: dto.base_currency_code,
        target_currency_code: dto.target_currency_code,
        rate: dto.rate,
        rate_date: dto.rate_date,
        source: dto.source,
        created_at: now,
        created_by: actor,
        updated_at: now,
        updated_by: actor,
    }
}

/// The row after a sparse update.
pub open spec fn rate_patched(r: ExchangeRate, dto: UpdateExchangeRateDto, actor: u128, now: i64) -> ExchangeRate {
    ExchangeRate {
        rate: if dto.rate is Some {
            dto.rate->0
        } else {
            r.rate
        },
        rate_date: if dto.rate_date is Some {
            dto.rate_date->0
        } else {
            r.rate_date
        },
        source: if dto.source is Some {
            dto.source
        } else {
            r.source
        },
        updated_at: now,
        updated_by: actor,
        ..r
    }
}

pub open spec fn rate_not_found_msg(id: u128) -> Seq<char> {
    "Exchange rate with ID "@ + dec_digits(id as int) + " not found"@
}

pub open spec fn no_rate_for_pair_msg(base: Seq<char>, target: Seq<char>) -> Seq<char> {
    "No exchange rate found for base "@ + base + " to target "@ + target
}

fn opt_id_eq(a: &Option<u128>, b: &Option<u128>) -> (r: bool)
    ensures
        r == (*a == *b),
{
    match (a, b) {
        (None, None) => true,
        (Some(x), Some(y)) => *x == *y,
        _ => false,
    }
}

fn find_rate(v: &Vec<ExchangeRate>, id: u128) -> (r: Option<usize>)
    ensures
        match r {
            Some(i) => 0 <= i < v@.len() && v@[i as int].id == id,
            None => !has_rate(v@, id),
        },
{
    let mut i: usize = 0;
    while i < v.len()
        invariant
            0 <= i <= v@.len(),
            forall|k: int| 0 <= k < i ==> (#[trigger] v@[k]).id != id,
        decreases v@.len() - i,
    {
        if v[i].id == id {
            return Some(i);
        }
        i += 1;
    }
    None
}

/// The listing order of exchange rates: latest rate date first, ties by base
/// code then target code in character order.
pub open spec fn rate_le(a: ExchangeRate, b: ExchangeRate) -> bool {
    if a.rate_date != b.rate_date {
        a.rate_date > b.rate_date
    } else if a.base_currency_code@ != b.base_currency_code@ {
        lex_leq(a.base_currency_code@, b.base_currency_code@)
    } else {
        lex_leq(a.target_currency_code@, b.target_currency_code@)
    }
}

/// What a listing returns: the rows of the requested scope in the listing
/// order; rows with equal keys keep their insertion order.
pub open spec fn rates_listed(s: Seq<ExchangeRate>, tenant_id: Option<u128>) -> Seq<ExchangeRate> {
    order_by(
        s.filter(|x: ExchangeRate| x.tenant_id == tenant_id),
        |a: ExchangeRate, b: ExchangeRate| rate_le(a, b),
    )
}

/// The position a row takes among already-listed rows.
fn rate_insert_pos(v: &Vec<ExchangeRate>, x: &ExchangeRate) -> (j: usize)
    ensures
        0 <= j <= v@.len(),
        forall|k: int| 0 <= k < j ==> rate_le(#[trigger] v@[k], *x),
        j < v@.len() ==> !rate_le(v@[j as int], *x),
{
    let mut j: usize = 0;
    while j < v.len()
        invariant
            0 <= j <= v@.len(),
            forall|k: int| 0 <= k < j ==> rate_le(#[trigger] v@[k], *x),
        decreases v@.len() - j,
    {
        let here_le = if v[j].rate_date != x.rate_date {
            v[j].rate_date > x.rate_date
        } else if !str_eq(v[j].base_currency_code.as_str(), x.base_currency_code.as_str()) {
            str_le(v[j].base_currency_code.as_str(), x.base_currency_code.as_str())
        } else {
            str_le(v[j].target_currency_code.as_str(), x.target_currency_code.as_str())
        };
        if !here_le {
            return j;
        }
        j += 1;
    }
    j
}

proof fn lemma_rate_le_total_trans()
    ensures
        forall|a: ExchangeRate, b: ExchangeRate| #[trigger] rate_le(a, b) || rate_le(b, a),
        forall|a: ExchangeRate, b: ExchangeRate, c: ExchangeRate|
            #[trigger] rate_le(a, b) && #[trigger] rate_le(b, c) ==> rate_le(a, c),
{
    assert forall|a: ExchangeRate, b: ExchangeRate|
        #[trigger] rate_le(a, b) || rate_le(b, a) by {
        if a.rate_date == b.rate_date {
            if a.base_currency_code@ != b.base_currency_code@ {
                lemma_lex_total(a.base_currency_code@, b.base_currency_code@);
            } else {
                lemma_lex_total(a.target_currency_code@, b.target_currency_code@);
            }
        }
    }
    assert forall|a: ExchangeRate, b: ExchangeRate, c: ExchangeRate|
        #[trigger] rate_le(a, b) && #[trigger] rate_le(b, c) implies rate_le(a, c) by {
        if a.rate_date == b.rate_date && b.rate_date == c.rate_date {
            let ab = a.base_currency_code@;
            let bb = b.base_currency_code@;
            let cb = c.base_currency_code@;
            if ab != bb && bb != cb {
                lemma_lex_trans(ab, bb, cb);
                if ab == cb {
                    lemma_lex_antisym(ab, bb);
                }
            } else if ab == bb && bb != cb {
                assert(lex_leq(bb, cb));
            } else if ab != bb && bb == cb {
                assert(lex_leq(ab, bb));
            } else {
                lemma_lex_trans(
                    a.target_currency_code@,
                    b.target_currency_code@,
                    c.target_currency_code@,
                );
            }
        }
    }
}

/// Lists the exchange rates of the requested scope — one tenant, or the
/// system-wide defaults — latest rate date first, ties by base then target
/// code.
pub fn list_exchange_rates(store: &Ledger, tenant_id: Option<u128>) -> (r: Vec<ExchangeRate>)
    ensures
        r@ == rates_listed(store.exchange_rates@, tenant_id),
        ordered_by(r@, |a: ExchangeRate, b: ExchangeRate| rate_le(a, b)),
        forall|i: int| 0 <= i < r@.len() ==> (#[trigger] r@[i]).tenant_id == tenant_id,
{
    let mut r: Vec<ExchangeRate> = Vec::new();
    let mut i: usize = 0;
    while i < store.exchange_rates.len()
        invariant
            0 <= i <= store.exchange_rates@.len(),
            r@ == order_by(
                store.exchange_rates@.subrange(0, i as int).filter(
                    |x: ExchangeRate| x.tenant_id == tenant_id,
                ),
                |a: ExchangeRate, b: ExchangeRate| rate_le(a, b),
            ),
        decreases store.exchange_rates@.len() - i,
    {
        let ghost f = store.exchange_rates@.subrange(0, i as int).filter(
            |x: ExchangeRate| x.tenant_id == tenant_id,
        );
        proof {
            assert(store.exchange_rates@.subrange(0, i + 1)
                =~= store.exchange_rates@.subrange(0, i as int).push(
                store.exchange_rates@[i as int],
            ));
            lemma_filter_push(
                store.exchange_rates@.subrange(0, i as int),
                |x: ExchangeRate| x.tenant_id == tenant_id,
                store.exchange_rates@[i as int],
            );
        }
        if opt_id_eq(&store.exchange_rates[i].tenant_id, &tenant_id) {
            let x = store.exchange_rates[i].clone();
            let j = rate_insert_pos(&r, &x);
            proof {
                lemma_insert_ordered_at(
                    x,
                    r@,
                    |a: ExchangeRate, b: ExchangeRate| rate_le(a, b),
                    j as int,
                );
                lemma_order_by_push(f, |a: ExchangeRate, b: ExchangeRate| rate_le(a, b), x);
            }
            r.insert(j, x);
        }
        i += 1;
    }
    proof {
        assert(store.exchange_rates@.subrange(0, store.exchange_rates@.len() as int)
            =~= store.exchange_rates@);
        let f = store.exchange_rates@.filter(|x: ExchangeRate| x.tenant_id == tenant_id);
        lemma_rate_le_total_trans();
        lemma_order_by_sorted(f, |a: ExchangeRate, b: ExchangeRate| rate_le(a, b));
        lemma_order_by_sub(f, |a: ExchangeRate, b: ExchangeRate| rate_le(a, b));
        assert forall|i: int| 0 <= i < r@.len() implies (#[trigger] r@[i]).tenant_id
            == tenant_id by {
            let j = choose|j: int| 0 <= j < f.len() && r@[i] == f[j];
            store.exchange_rates@.lemma_filter_pred(
                |x: ExchangeRate| x.tenant_id == tenant_id,
                j,
            );
        }
    }
    r
}

/// Fetches an exchange rate by id; an absent id is NotFound.
pub fn get_exchange_rate_by_id(store: &Ledger, rate_id: u128) -> (r: Result<ExchangeRate, AppError>)
    requires
        store.wf(),
    ensures
        match r {
            Ok(x) => has_rate(store.exchange_rates@, rate_id) && x == store.exchange_rates@[
                rate_idx(store.exchange_rates@, rate_id)
            ],
            Err(e) => {
                &&& !has_rate(store.exchange_rates@, rate_id)
                &&& e is NotFound
                &&& e.spec_message() == rate_not_found_msg(rate_id)
            },
        },
{
    match find_rate(&store.exchange_rates, rate_id) {
        Some(i) => {
            proof {
                let j = rate_idx(store.exchange_rates@, rate_id);
                assert(store.exchange_rates@[j].id == rate_id);
                assert(keys_unique(store.exchange_rates@, |x: ExchangeRate| x.id));
                assert(j == i as int);
            }
            Ok(store.exchange_rates[i].clone())
        },
        None => Err(AppError::NotFound(msg_id("Exchange rate with ID ", rate_id, " not found"))),
    }
}

/// Fetches the latest exchange rate of the scope for a currency pair: a
/// matching row that no other matching row beats on rate date, nor — at the
/// same date — on creation instant. No match is NotFound.
pub fn get_latest_exchange_rate(store: &Ledger, tenant_id: Option<u128>, base_currency_code: &str,
    target_currency_code: &str) -> (r: Result<ExchangeRate, AppError>)
    ensures
        match r {
            Ok(x) => {
                &&& exists|i: int|
                    0 <= i < store.exchange_rates@.len() && x == #[trigger] store.exchange_rates@[i]
                &&& rate_matches(x, tenant_id, base_currency_code@, target_currency_code@)
                &&& forall|j: int|
                    0 <= j < store.exchange_rates@.len() && rate_matches(
                        #[trigger] store.exchange_rates@[j],
                        tenant_id,
                        base_currency_code@,
                        target_currency_code@,
                    ) ==> (store.exchange_rates@[j].rate_date < x.rate_date || (
                    store.exchange_rates@[j].rate_date == x.rate_date
                        && store.exchange_rates@[j].created_at <= x.created_at))
            },
            Err(e) => {
                &&& !has_matching_rate(
                    store.exchange_rates@,
                    tenant_id,
                    base_currency_code@,
                    target_currency_code@,
                )
                &&& e is NotFound
                &&& e.spec_message() == no_rate_for_pair_msg(
                    base_currency_code@,
                    target_currency_code@,
                )
            },
        },
{
    let mut best: Option<usize> = None;
    let mut i: usize = 0;
    while i < store.exchange_rates.len()
        invariant
            0 <= i <= store.exchange_rates@.len(),
            match best {
                None => forall|j: int|
                    0 <= j < i ==> !rate_matches(
                        #[trigger] store.exchange_rates@[j],
                        tenant_id,
                        base_currency_code@,
                        target_currency_code@,
                    ),
                Some(b) => {
                    &&& 0 <= b < i
                    &&& rate_matches(
                        store.exchange_rates@[b as int],
                        tenant_id,
                        base_currency_code@,
                        target_currency_code@,
                    )
                    &&& forall|j: int|
                        0 <= j < i && rate_matches(
                            #[trigger] store.exchange_rates@[j],
                            tenant_id,
                            base_currency_code@,
                            target_currency_code@,
                        ) ==> (store.exchange_rates@[j].rate_date
                            < store.exchange_rates@[b as int].rate_date || (
                        store.exchange_rates@[j].rate_date
                            == store.exchange_rates@[b as int].rate_date
                            && store.exchange_rates@[j].created_at
                            <= store.exchange_rates@[b as int].created_at))
                },
            },
        decreases store.exchange_rates@.len() - i,
    {
        let row = &store.exchange_rates[i];
        let matches_here = opt_id_eq(&row.tenant_id, &tenant_id) && str_eq(
            row.base_currency_code.as_str(),
            base_currency_code,
        ) && str_eq(row.target_currency_code.as_str(), target_currency_code);
        if matches_here {
            best = match best {
                None => Some(i),
                Some(b) => {
                    let cur = &store.exchange_rates[b];
                    if row.rate_date > cur.rate_date || (row.rate_date == cur.rate_date
                        && row.created_at > cur.created_at) {
                        Some(i)
                    } else {
                        Some(b)
                    }
                },
            };
        }
        i += 1;
    }
    match best {
        Some(b) => Ok(store.exchange_rates[b].clone()),
        None => Err(AppError::NotFound(
            crate::strutil::msg_str(
                "No exchange rate found for base ",
                base_currency_code,
                " to target ",
            ).concat(target_currency_code),
        )),
    }
}

/// Creates an exchange rate from a validated request.
pub fn create_exchange_rate(store: &mut Ledger, created_by_user_id: u128, now: i64,
    dto: CreateExchangeRateDto) -> (r: Result<ExchangeRate, AppError>)
    requires
        old(store).wf(),
    ensures
        final(store).wf(),
        r is Ok <==> (dto.valid() && old(store).can_assign_ids(1)),
        match r {
            Ok(row) => {
                &&& row == rate_row(dto, old(store).next_id, created_by_user_id, now)
                &&& final(store).exchange_rates@ == old(store).exchange_rates@.push(row)
                &&& final(store).next_id == old(store).next_id + 1
                &&& *final(store) == (Ledger {
                    exchange_rates: final(store).exchange_rates,
                    next_id: final(store).next_id,
                    ..*old(store)
                })
            },
            Err(e) => {
                &&& *final(store) == *old(store)
                &&& if !dto.valid() {
                    e is Validation && e.spec_message() == invalid_fields_msg()
                } else {
                    e is InternalServerError && e.spec_message() == ids_exhausted_msg()
                }
            },
        },
{
    if !dto.validate() {
        return Err(invalid_fields_error());
    }
    if store.next_id == u128::MAX {
        return Err(ids_exhausted_error());
    }
    let id = store.next_id;
    store.next_id = store.next_id + 1;
    let row = ExchangeRate {
        id,
        tenant_id: dto.tenant_id,
        base_currency_code: dto.base_currency_code,
        target_currency_code: dto.target_currency_code,
        rate: dto.rate,
        rate_date: dto.rate_date,
        source: dto.source,
        created_at: now,
        created_by: created_by_user_id,
        updated_at: now,
        updated_by: created_by_user_id,
    };
    let copy = row.clone();
    proof {
        lemma_push_fresh_key(store.exchange_rates@, |x: ExchangeRate| x.id, id as int, row);
    }
    store.exchange_rates.push(row);
    Ok(copy)
}

/// Applies a sparse update to an exchange rate, found by id alone.
pub fn update_exchange_rate(store: &mut Ledger, rate_id: u128, updated_by_user_id: u128, now: i64,
    dto: UpdateExchangeRateDto) -> (r: Result<ExchangeRate, AppError>)
    requires
        old(store).wf(),
    ensures
        final(store).wf(),
        r is Ok <==> (!dto.is_empty() && dto.valid() && has_rate(old(store).exchange_rates@, rate_id)),
        match r {
            Ok(row) => {
                let i = rate_idx(old(store).exchange_rates@, rate_id);
                &&& row == rate_patched(old(store).exchange_rates@[i], dto, updated_by_user_id, now)
                &&& final(store).exchange_rates@ == old(store).exchange_rates@.update(i, row)
                &&& *final(store) == (Ledger {
                    exchange_rates: final(store).exchange_rates,
                    ..*old(store)
                })
            },
            Err(e) => {
                &&& *final(store) == *old(store)
                &&& if dto.is_empty() {
                    e is Validation && e.spec_message() == no_fields_msg()
                } else if !dto.valid() {
                    e is Validation && e.spec_message() == invalid_fields_msg()
                } else {
                    e is NotFound && e.spec_message() == rate_not_found_msg(rate_id)
                }
            },
        },
{
    if dto.no_fields() {
        return Err(no_fields_error());
    }
    if !dto.validate() {
        return Err(invalid_fields_error());
    }
    let i = match find_rate(&store.exchange_rates, rate_id) {
        Some(i) => i,
        None => {
            return Err(AppError::NotFound(msg_id("Exchange rate with ID ", rate_id, " not found")));
        },
    };
    proof {
        assert(keys_unique(store.exchange_rates@, |x: ExchangeRate| x.id));
        assert(rate_idx(store.exchange_rates@, rate_id) == i as int);
    }
    let ghost orig = store.exchange_rates@[i as int];
    if let Some(v) = dto.rate {
        store.exchange_rates[i].rate = v;
    }
    if let Some(v) = dto.rate_date {
        store.exchange_rates[i].rate_date = v;
    }
    if let Some(v) = dto.source {
        store.exchange_rates[i].source = Some(v);
    }
    store.exchange_rates[i].updated_at = now;
    store.exchange_rates[i].updated_by = updated_by_user_id;
    proof {
        assert(store.exchange_rates@[i as int] == rate_patched(orig, dto, updated_by_user_id, now));
        assert(store.exchange_rates@ =~= old(store).exchange_rates@.update(
            i as int,
            rate_patched(orig, dto, updated_by_user_id, now),
        ));
        lemma_update_same_key(
            old(store).exchange_rates@,
            |x: ExchangeRate| x.id,
            old(store).next_id as int,
            i as int,
            rate_patched(orig, dto, updated_by_user_id, now),
        );
    }
    Ok(store.exchange_rates[i].clone())
}

/// Hard-deletes an exchange rate by id; an absent id is NotFound and nothing
/// is touched.
pub fn delete_exchange_rate(store: &mut Ledger, rate_id: u128) -> (r: Result<(), AppError>)
    requires
        old(store).wf(),
    ensures
        final(store).wf(),
        r is Ok <==> has_rate(old(store).exchange_rates@, rate_id),
        match r {
            Ok(()) => {
                &&& final(store).exchange_rates@ == old(store).exchange_rates@.remove(
                    rate_idx(old(store).exchange_rates@, rate_id),
                )
                &&& *final(store) == (Ledger {
                    exchange_rates: final(store).exchange_rates,
                    ..*old(store)
                })
            },
            Err(e) => {
                &&& *final(store) == *old(store)
                &&& e is NotFound
                &&& e.spec_message() == rate_not_found_msg(rate_id)
            },
        },
{
    let i = match find_rate(&store.exchange_rates, rate_id) {
        Some(i) => i,
        None => {
            return Err(AppError::NotFound(msg_id("Exchange rate with ID ", rate_id, " not found")));
        },
    };
    proof {
        assert(keys_unique(store.exchange_rates@, |x: ExchangeRate| x.id));
        assert(rate_idx(store.exchange_rates@, rate_id) == i as int);
        lemma_remove_keeps_keys(store.exchange_rates@, |x: ExchangeRate| x.id, i as int);
        assert forall|k: int|
            0 <= k < store.exchange_rates@.remove(i as int).len()
                implies #[trigger] store.exchange_rates@.remove(i as int)[k].id
                < store.next_id by {
            let k0: int = if k < i as int {
                k
            } else {
                k + 1
            };
            assert(store.exchange_rates@.remove(i as int)[k] == store.exchange_rates@[k0]);
        }
    }
    store.exchange_rates.remove(i);
    Ok(())
}

} // verus!

//! Currency operations. Currencies are global (not tenant-scoped) and keyed
//! by their three-letter code; creating a code twice is a uniqueness
//! violation surfaced as a persistence-layer error, never silent success.

use vstd::prelude::*;
use crate::dto::{CreateCurrencyDto, UpdateCurrencyDto};
use crate::error::{invalid_fields_error, no_fields_error, AppError};
use crate::error::{invalid_fields_msg, no_fields_msg};
use crate::models::Currency;
use crate::order::{lemma_insert_ordered_at, lemma_lex_total, lemma_lex_trans, lemma_order_by_push,
    lemma_order_by_sorted, lemma_order_by_sub, lex_leq, order_by, ordered_by, str_le};
use crate::store::{keys_unique, lemma_filter_push, Ledger};
use crate::strutil::{msg_str, str_eq};

verus! {

/// Whether some currency row carries the code.
pub open spec fn has_currency(s: Seq<Currency>, code: Seq<char>) -> bool {
    exists|i: int| 0 <= i < s.len() && s[i].code@ == code
}

/// The index of the currency row carrying the code.
pub open spec fn currency_idx(s: Seq<Currency>, code: Seq<char>) -> int {
    choose|i: int| 0 <= i < s.len() && s[i].code@ == code
}

/// Whether some active currency row carries the code.
pub open spec fn has_active_currency(s: Seq<Currency>, code: Seq<char>) -> bool {
    exists|i: int| 0 <= i < s.len() && s[i].code@ == code && s[i].is_active
}

/// The index of the active currency row carrying the code.
pub open spec fn active_currency_idx(s: Seq<Currency>, code: Seq<char>) -> int {
    choose|i: int| 0 <= i < s.len() && s[i].code@ == code && s[i].is_active
}

/// The row a creation request persists.
pub open spec fn currency_row(dto: CreateCurrencyDto, actor: u128, now: i64) -> Currency {
    Currency {
        code: dto.code,
        name: dto.name,
        symbol: dto.symbol,
        is_active: true,
        created_at: now,
        created_by: actor,
        updated_at: now,
        updated_by: actor,
    }
}

/// The row after a sparse update.
pub open spec fn currency_patched(c: Currency, dto: UpdateCurrencyDto, actor: u128, now: i64) -> Currency {
    Currency {
        name: if dto.name is Some {
            dto.name->0
        } else {
            c.name
        },
        symbol: if dto.symbol is Some {
            dto.symbol
        } else {
            c.symbol
        },
        is_active: if dto.is_active is Some {
            dto.is_active->0
        } else {
            c.is_active
        },
        updated_at: now,
        updated_by: actor,
        ..c
    }
}

/// The row after deactivation.
pub open spec fn currency_deactivated(c: Currency, actor: u128, now: i64) -> Currency {
    Currency { is_active: false, updated_at: now, updated_by: actor, ..c }
}

pub open spec fn currency_not_found_msg(code: Seq<char>) -> Seq<char> {
    "Currency with code "@ + code + " not found"@
}

pub open spec fn currency_inactive_msg(code: Seq<char>) -> Seq<char> {
    "Currency with code "@ + code + " not found or already inactive"@
}

pub open spec fn currency_exists_msg(code: Seq<char>) -> Seq<char> {
    "Currency with code "@ + code + " already exists"@
}

fn find_currency(v: &Vec<Currency>, code: &str) -> (r: Option<usize>)
    ensures
        match r {
            Some(i) => 0 <= i < v@.len() && v@[i as int].code@ == code@,
            None => !has_currency(v@, code@),
        },
{
    let mut i: usize = 0;
    while i < v.len()
        invariant
            0 <= i <= v@.len(),
            forall|k: int| 0 <= k < i ==> v@[k].code@ != code@,
        decreases v@.len() - i,
    {
        if str_eq(v[i].code.as_str(), code) {
            return Some(i);
        }
        i += 1;
    }
    None
}

fn find_active_currency(v: &Vec<Currency>, code: &str) -> (r: Option<usize>)
    ensures
        match r {
            Some(i) => 0 <= i < v@.len() && v@[i as int].code@ == code@ && v@[i as int].is_active,
            None => !has_active_currency(v@, code@),
        },
{
    let mut i: usize = 0;
    while i < v.len()
        invariant
            0 <= i <= v@.len(),
            forall|k: int| 0 <= k < i ==> !(v@[k].code@ == code@ && v@[k].is_active),
        decreases v@.len() - i,
    {
        if v[i].is_active && str_eq(v[i].code.as_str(), code) {
            return Some(i);
        }
        i += 1;
    }
    None
}

/// The listing order of currencies: by name, in character order.
pub open spec fn currency_le(a: Currency, b: Currency) -> bool {
    lex_leq(a.name@, b.name@)
}

/// What a listing returns: the matching rows, ordered by name; rows with
/// equal names keep their insertion order.
pub open spec fn currencies_listed(s: Seq<Currency>) -> Seq<Currency> {
    order_by(s.filter(|x: Currency| x.is_active), |a: Currency, b: Currency| currency_le(a, b))
}

/// The position a row takes among already-listed rows: after every row whose
/// name may precede its own.
fn currency_insert_pos(v: &Vec<Currency>, x: &Currency) -> (j: usize)
    ensures
        0 <= j <= v@.len(),
        forall|k: int| 0 <= k < j ==> currency_le(#[trigger] v@[k], *x),
        j < v@.len() ==> !currency_le(v@[j as int], *x),
{
    let mut j: usize = 0;
    while j < v.len()
        invariant
            0 <= j <= v@.len(),
            forall|k: int| 0 <= k < j ==> currency_le(#[trigger] v@[k], *x),
        decreases v@.len() - j,
    {
        if !str_le(v[j].name.as_str(), x.name.as_str()) {
            return j;
        }
        j += 1;
    }
    j
}

/// Lists the active currencies, ordered by name; equal names keep insertion
/// order.
pub fn list_currencies(store: &Ledger) -> (r: Vec<Currency>)
    ensures
        r@ == currencies_listed(store.currencies@),
        ordered_by(r@, |a: Currency, b: Currency| currency_le(a, b)),
        forall|i: int| 0 <= i < r@.len() ==> (#[trigger] r@[i]).is_active,
{
    let mut r: Vec<Currency> = Vec::new();
    let mut i: usize = 0;
    while i < store.currencies.len()
        invariant
            0 <= i <= store.currencies@.len(),
            r@ == order_by(store.currencies@.subrange(0, i as int).filter(|x: Currency| x.is_active), |a: Currency, b: Currency| currency_le(a, b)),
        decreases store.currencies@.len() - i,
    {
        let ghost f = store.currencies@.subrange(0, i as int).filter(|x: Currency| x.is_active);
        proof {
            assert(store.currencies@.subrange(0, i + 1) =~= store.currencies@.subrange(
                0,
                i as int,
            ).push(store.currencies@[i as int]));
            lemma_filter_push(
                store.currencies@.subrange(0, i as int),
                |x: Currency| x.is_active,
                store.currencies@[i as int],
            );
        }
        if store.currencies[i].is_active {
            let x = store.currencies[i].clone();
            let j = currency_insert_pos(&r, &x);
            proof {
                lemma_insert_ordered_at(x, r@, |a: Currency, b: Currency| currency_le(a, b), j as int);
                lemma_order_by_push(f, |a: Currency, b: Currency| currency_le(a, b), x);
            }
            r.insert(j, x);
        }
        i += 1;
    }
    proof {
        assert(store.currencies@.subrange(0, store.currencies@.len() as int) =~= store.currencies@);
        let f = store.currencies@.filter(|x: Currency| x.is_active);
        assert forall|a: Currency, b: Currency|
            #[trigger] currency_le(a, b) || currency_le(b, a) by {
            lemma_lex_total(a.name@, b.name@);
        }
        assert forall|a: Currency, b: Currency, c: Currency|
            #[trigger] currency_le(a, b) && #[trigger] currency_le(b, c) implies currency_le(a, c) by {
            lemma_lex_trans(a.name@, b.name@, c.name@);
        }
        lemma_order_by_sorted(f, |a: Currency, b: Currency| currency_le(a, b));
        lemma_order_by_sub(f, |a: Currency, b: Currency| currency_le(a, b));
        assert forall|i: int| 0 <= i < r@.len() implies (#[trigger] r@[i]).is_active by {
            let j = choose|j: int| 0 <= j < f.len() && r@[i] == f[j];
            store.currencies@.lemma_filter_pred(|x: Currency| x.is_active, j);
        }
    }
    r
}

/// Fetches an active currency by code; an absent or inactive code is NotFound.
pub fn get_currency_by_code(store: &Ledger, code: &str) -> (r: Result<Currency, AppError>)
    requires
        store.wf(),
    ensures
        match r {
            Ok(c) => has_active_currency(store.currencies@, code@) && c == store.currencies@[
                active_currency_idx(store.currencies@, code@)
            ],
            Err(e) => {
                &&& !has_active_currency(store.currencies@, code@)
                &&& e is NotFound
                &&& e.spec_message() == currency_not_found_msg(code@)
            },
        },
{
    match find_active_currency(&store.currencies, code) {
        Some(i) => {
            proof {
                let j = active_currency_idx(store.currencies@, code@);
                assert(store.currencies@[j].code@ == code@ && store.currencies@[j].is_active);
                assert(keys_unique(store.currencies@, |c: Currency| c.code@));
                assert(j == i as int);
            }
            Ok(store.currencies[i].clone())
        },
        None => Err(AppError::NotFound(msg_str("Currency with code ", code, " not found"))),
    }
}

/// Creates a currency. A code that is already present — active or not — is a
/// uniqueness violation and is reported as a persistence-layer error.
pub fn create_currency(store: &mut Ledger, created_by_user_id: u128, now: i64, dto: CreateCurrencyDto) -> (r:
    Result<Currency, AppError>)
    requires
        old(store).wf(),
    ensures
        final(store).wf(),
        r is Ok <==> (dto.valid() && !has_currency(old(store).currencies@, dto.code@)),
        match r {
            Ok(row) => {
                &&& row == currency_row(dto, created_by_user_id, now)
                &&& final(store).currencies@ == old(store).currencies@.push(row)
                &&& *final(store) == (Ledger { currencies: final(store).currencies, ..*old(store) })
            },
            Err(e) => {
                &&& *final(store) == *old(store)
                &&& if !dto.valid() {
                    e is Validation && e.spec_message() == invalid_fields_msg()
                } else {
                    e is DatabaseError && e.spec_message() == currency_exists_msg(dto.code@)
                }
            },
        },
{
    if !dto.validate() {
        return Err(invalid_fields_error());
    }
    if let Some(_) = find_currency(&store.currencies, dto.code.as_str()) {
        return Err(AppError::DatabaseError(
            msg_str("Currency with code ", dto.code.as_str(), " already exists"),
        ));
    }
    let row = Currency {
        code: dto.code,
        name: dto.name,
        symbol: dto.symbol,
        is_active: true,
        created_at: now,
        created_by: created_by_user_id,
        updated_at: now,
        updated_by: created_by_user_id,
    };
    let copy = row.clone();
    proof {
        assert forall|i: int, j: int|
            0 <= i < j < store.currencies@.push(row).len() implies store.currencies@.push(
            row,
        )[i].code@ != store.currencies@.push(row)[j].code@ by {
            if j < store.currencies@.len() {
                assert(keys_unique(store.currencies@, |c: Currency| c.code@));
                let key = |c: Currency| c.code@;
                assert(key(store.currencies@[i]) != key(store.currencies@[j]));
            } else {
                assert(!has_currency(store.currencies@, row.code@));
            }
        }
        assert(keys_unique(store.currencies@.push(row), |c: Currency| c.code@));
    }
    store.currencies.push(row);
    Ok(copy)
}

/// Applies a sparse update to a currency, active or not.
pub fn update_currency(store: &mut Ledger, code: &str, updated_by_user_id: u128, now: i64,
    dto: UpdateCurrencyDto) -> (r: Result<Currency, AppError>)
    requires
        old(store).wf(),
    ensures
        final(store).wf(),
        r is Ok <==> (!dto.is_empty() && dto.valid() && has_currency(old(store).currencies@, code@)),
        match r {
            Ok(row) => {
                let i = currency_idx(old(store).currencies@, code@);
                &&& row == currency_patched(old(store).currencies@[i], dto, updated_by_user_id, now)
                &&& final(store).currencies@ == old(store).currencies@.update(i, row)
                &&& *final(store) == (Ledger { currencies: final(store).currencies, ..*old(store) })
            },
            Err(e) => {
                &&& *final(store) == *old(store)
                &&& if dto.is_empty() {
                    e is Validation && e.spec_message() == no_fields_msg()
                } else if !dto.valid() {
                    e is Validation && e.spec_message() == invalid_fields_msg()
                } else {
                    e is NotFound && e.spec_message() == currency_not_found_msg(code@)
                }
            },
        },
{
    if dto.no_fields() {
        return Err(no_fields_error());
    }
    if !dto.validate() {
        return Err(invalid_fields_error());
    }
    let i = match find_currency(&store.currencies, code) {
        Some(i) => i,
        None => {
            return Err(AppError::NotFound(msg_str("Currency with code ", code, " not found")));
        },
    };
    proof {
        assert(keys_unique(store.currencies@, |c: Currency| c.code@));
        assert(currency_idx(store.currencies@, code@) == i as int);
    }
    let ghost orig = store.currencies@[i as int];
    if let Some(v) = dto.name {
        store.currencies[i].name = v;
    }
    if let Some(v) = dto.symbol {
        store.currencies[i].symbol = Some(v);
    }
    if let Some(v) = dto.is_active {
        store.currencies[i].is_active = v;
    }
    store.currencies[i].updated_at = now;
    store.currencies[i].updated_by = updated_by_user_id;
    proof {
        assert(store.currencies@[i as int] == currency_patched(orig, dto, updated_by_user_id, now));
        assert(store.currencies@ =~= old(store).currencies@.update(
            i as int,
            currency_patched(orig, dto, updated_by_user_id, now),
        ));
        assert(keys_unique(store.currencies@, |c: Currency| c.code@)) by {
            let key = |c: Currency| c.code@;
            assert forall|k: int, l: int|
                0 <= k < l < store.currencies@.len() implies key(store.currencies@[k]) != key(
                store.currencies@[l],
            ) by {
                assert(key(old(store).currencies@[k]) != key(old(store).currencies@[l]));
            }
        }
    }
    Ok(store.currencies[i].clone())
}

/// Deactivates an active currency; an absent or already-inactive code is
/// NotFound and nothing is touched.
pub fn deactivate_currency(store: &mut Ledger, code: &str, updated_by_user_id: u128, now: i64) -> (r:
    Result<(), AppError>)
    requires
        old(store).wf(),
    ensures
        final(store).wf(),
        r is Ok <==> has_active_currency(old(store).currencies@, code@),
        match r {
            Ok(()) => {
                let i = active_currency_idx(old(store).currencies@, code@);
                &&& final(store).currencies@ == old(store).currencies@.update(
                    i,
                    currency_deactivated(old(store).currencies@[i], updated_by_user_id, now),
                )
                &&& *final(store) == (Ledger { currencies: final(store).currencies, ..*old(store) })
            },
            Err(e) => {
                &&& *final(store) == *old(store)
                &&& e is NotFound
                &&& e.spec_message() == currency_inactive_msg(code@)
            },
        },
{
    let i = match find_active_currency(&store.currencies, code) {
        Some(i) => i,
        None => {
            return Err(AppError::NotFound(
                msg_str("Currency with code ", code, " not found or already inactive"),
            ));
        },
    };
    proof {
        assert(keys_unique(store.currencies@, |c: Currency| c.code@));
        assert(active_currency_idx(store.currencies@, code@) == i as int);
    }
    let ghost orig = store.currencies@[i as int];
    store.currencies[i].is_active = false;
    store.currencies[i].updated_at = now;
    store.currencies[i].updated_by = updated_by_user_id;
    proof {
        assert(store.currencies@[i as int] == currency_deactivated(orig, updated_by_user_id, now));
        assert(store.currencies@ =~= old(store).currencies@.update(
            i as int,
            currency_deactivated(orig, updated_by_user_id, now),
        ));
        assert(keys_unique(store.currencies@, |c: Currency| c.code@)) by {
            let key = |c: Currency| c.code@;
            assert forall|k: int, l: int|
                0 <= k < l < store.currencies@.len() implies key(store.currencies@[k]) != key(
                store.currencies@[l],
            ) by {
                assert(key(old(store).currencies@[k]) != key(old(store).currencies@[l]));
            }
        }
    }
    Ok(())
}

} // verus!

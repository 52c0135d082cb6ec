//! Journal-entry operations outside the atomic write path: listing the legs
//! of a transaction, direct creation of a single leg, a narrow update, and a
//! hard delete. Every operation reaches an entry only through a transaction
//! of the acting tenant. Deleting a leg directly can break the double-entry
//! balance of its parent transaction, so it is reserved for drafts and
//! reversals.

use vstd::prelude::*;
use crate::dto::{CreateJournalEntryDto, UpdateJournalEntryDto};
use crate::error::{invalid_fields_error, ids_exhausted_error, no_fields_error, AppError};
use crate::error::{invalid_fields_msg, ids_exhausted_msg, no_fields_msg};
use crate::models::{JournalEntry, Transaction};
use crate::order::{lemma_insert_ordered_at, lemma_order_by_push, lemma_order_by_sorted,
    order_by, ordered_by};
use crate::ownership::{has_active_account, has_tenant_transaction, invalid_account_error,
    invalid_account_msg, resolve_account, resolve_transaction};
use crate::services::transaction::{journal_row, transaction_not_found_msg};
use crate::store::{keys_unique, lemma_filter_push, lemma_push_fresh_key, lemma_remove_keeps_keys,
    lemma_update_same_key, Ledger};
use crate::strutil::{dec_digits, msg_id_id};

verus! {

/// Whether some journal-entry row carries the id and hangs off a transaction
/// of the tenant.
pub open spec fn has_tenant_entry(entries: Seq<JournalEntry>, txs: Seq<Transaction>, tenant_id: u128,
    id: u128) -> bool {
    exists|i: int|
        0 <= i < entries.len() && entries[i].id == id && has_tenant_transaction(
            txs,
            tenant_id,
            entries[i].transaction_id,
        )
}

/// The index of that journal-entry row.
pub open spec fn tenant_entry_idx(entries: Seq<JournalEntry>, txs: Seq<Transaction>, tenant_id: u128,
    id: u128) -> int {
    choose|i: int|
        0 <= i < entries.len() && entries[i].id == id && has_tenant_transaction(
            txs,
            tenant_id,
            entries[i].transaction_id,
        )
}

/// The row after a sparse update: only the memo, the exchange rate and the
/// converted amount can move, and the audit stamp is always refreshed.
pub open spec fn entry_patched(e: JournalEntry, dto: UpdateJournalEntryDto, actor: u128, now: i64) -> JournalEntry {
    JournalEntry {
        memo: if dto.memo is Some {
            dto.memo
        } else {
            e.memo
        },
        exchange_rate: if dto.exchange_rate is Some {
            dto.exchange_rate
        } else {
            e.exchange_rate
        },
        converted_amount: if dto.converted_amount is Some {
            dto.converted_amount
        } else {
            e.converted_amount
        },
        updated_at: now,
        updated_by: actor,
        ..e
    }
}

pub open spec fn entry_not_found_msg(id: u128, tenant_id: u128) -> Seq<char> {
    "Journal entry with ID "@ + dec_digits(id as int) + " not found for tenant "@ + dec_digits(
        tenant_id as int,
    )
}

pub open spec fn entry_not_owned_msg(id: u128, tenant_id: u128) -> Seq<char> {
    "Journal entry with ID "@ + dec_digits(id as int) + " not found or not owned by tenant "@
        + dec_digits(tenant_id as int)
}

fn find_entry(v: &Vec<JournalEntry>, id: u128) -> (r: Option<usize>)
    ensures
        match r {
            Some(i) => 0 <= i < v@.len() && v@[i as int].id == id,
            None => forall|k: int| 0 <= k < v@.len() ==> (#[trigger] v@[k]).id != id,
        },
{
    let mut i: usize = 0;
    while i < v.len()
        invariant
            0 <= i <= v@.len(),
            forall|k: int| 0 <= k < i ==> (#[trigger] v@[k]).id != id,
        decreases v@.len() - i,
    {
        if v[i].id == id {
            return Some(i);
        }
        i += 1;
    }
    None
}

/// The listing order of a transaction's legs: oldest creation first.
pub open spec fn entry_le(a: JournalEntry, b: JournalEntry) -> bool {
    a.created_at <= b.created_at
}

/// What listing a transaction's legs returns: its rows, oldest creation
/// first; equal stamps keep their insertion order.
pub open spec fn entries_listed(s: Seq<JournalEntry>, transaction_id: u128) -> Seq<JournalEntry> {
    order_by(
        s.filter(|e: JournalEntry| e.transaction_id == transaction_id),
        |a: JournalEntry, b: JournalEntry| entry_le(a, b),
    )
}

/// The position a row takes among already-listed rows.
fn entry_insert_pos(v: &Vec<JournalEntry>, x: &JournalEntry) -> (j: usize)
    ensures
        0 <= j <= v@.len(),
        forall|k: int| 0 <= k < j ==> entry_le(#[trigger] v@[k], *x),
        j < v@.len() ==> !entry_le(v@[j as int], *x),
{
    let mut j: usize = 0;
    while j < v.len()
        invariant
            0 <= j <= v@.len(),
            forall|k: int| 0 <= k < j ==> entry_le(#[trigger] v@[k], *x),
        decreases v@.len() - j,
    {
        if !(v[j].created_at <= x.created_at) {
            return j;
        }
        j += 1;
    }
    j
}

/// Lists the journal entries of a transaction of the tenant, oldest creation
/// first; a transaction of another tenant is NotFound.
pub fn list_journal_entries_for_transaction(store: &Ledger, tenant_id: u128, transaction_id: u128) -> (r:
    Result<Vec<JournalEntry>, AppError>)
    ensures
        match r {
            Ok(v) => {
                &&& has_tenant_transaction(store.transactions@, tenant_id, transaction_id)
                &&& v@ == entries_listed(store.journal_entries@, transaction_id)
                &&& ordered_by(v@, |a: JournalEntry, b: JournalEntry| entry_le(a, b))
            },
            Err(e) => {
                &&& !has_tenant_transaction(store.transactions@, tenant_id, transaction_id)
                &&& e is NotFound
                &&& e.spec_message() == transaction_not_found_msg(transaction_id, tenant_id)
            },
        },
{
    if !resolve_transaction(&store.transactions, tenant_id, transaction_id) {
        return Err(AppError::NotFound(
            msg_id_id("Transaction with ID ", transaction_id, " not found for tenant ", tenant_id),
        ));
    }
    let mut r: Vec<JournalEntry> = Vec::new();
    let mut i: usize = 0;
    while i < store.journal_entries.len()
        invariant
            0 <= i <= store.journal_entries@.len(),
            r@ == order_by(
                store.journal_entries@.subrange(0, i as int).filter(
                    |e: JournalEntry| e.transaction_id == transaction_id,
                ),
                |a: JournalEntry, b: JournalEntry| entry_le(a, b),
            ),
        decreases store.journal_entries@.len() - i,
    {
        let ghost f = store.journal_entries@.subrange(0, i as int).filter(
            |e: JournalEntry| e.transaction_id == transaction_id,
        );
        proof {
            assert(store.journal_entries@.subrange(0, i + 1)
                =~= store.journal_entries@.subrange(0, i as int).push(
                store.journal_entries@[i as int],
            ));
            lemma_filter_push(
                store.journal_entries@.subrange(0, i as int),
                |e: JournalEntry| e.transaction_id == transaction_id,
                store.journal_entries@[i as int],
            );
        }
        if store.journal_entries[i].transaction_id == transaction_id {
            let x = store.journal_entries[i].clone();
            let j = entry_insert_pos(&r, &x);
            proof {
                lemma_insert_ordered_at(
                    x,
                    r@,
                    |a: JournalEntry, b: JournalEntry| entry_le(a, b),
                    j as int,
                );
                lemma_order_by_push(f, |a: JournalEntry, b: JournalEntry| entry_le(a, b), x);
            }
            r.insert(j, x);
        }
        i += 1;
    }
    proof {
        assert(store.journal_entries@.subrange(0, store.journal_entries@.len() as int)
            =~= store.journal_entries@);
        lemma_order_by_sorted(
            store.journal_entries@.filter(|e: JournalEntry| e.transaction_id == transaction_id),
            |a: JournalEntry, b: JournalEntry| entry_le(a, b),
        );
    }
    Ok(r)
}

/// Fetches a journal entry by id, provided its transaction belongs to the
/// tenant; anything else is NotFound.
pub fn get_journal_entry_by_id(store: &Ledger, tenant_id: u128, journal_entry_id: u128) -> (r: Result<
    JournalEntry,
    AppError,
>)
    requires
        store.wf(),
    ensures
        match r {
            Ok(x) => {
                &&& has_tenant_entry(
                    store.journal_entries@,
                    store.transactions@,
                    tenant_id,
                    journal_entry_id,
                )
                &&& x == store.journal_entries@[
                    tenant_entry_idx(
                        store.journal_entries@,
                        store.transactions@,
                        tenant_id,
                        journal_entry_id,
                    )
                ]
            },
            Err(e) => {
                &&& !has_tenant_entry(
                    store.journal_entries@,
                    store.transactions@,
                    tenant_id,
                    journal_entry_id,
                )
                &&& e is NotFound
                &&& e.spec_message() == entry_not_found_msg(journal_entry_id, tenant_id)
            },
        },
{
    if let Some(i) = find_entry(&store.journal_entries, journal_entry_id) {
        if resolve_transaction(
            &store.transactions,
            tenant_id,
            store.journal_entries[i].transaction_id,
        ) {
            proof {
                let j = tenant_entry_idx(
                    store.journal_entries@,
                    store.transactions@,
                    tenant_id,
                    journal_entry_id,
                );
                assert(keys_unique(store.journal_entries@, |x: JournalEntry| x.id));
                assert(store.journal_entries@[j].id == journal_entry_id);
                assert(j == i as int);
            }
            return Ok(store.journal_entries[i].clone());
        }
    }
    Err(AppError::NotFound(
        msg_id_id("Journal entry with ID ", journal_entry_id, " not found for tenant ", tenant_id),
    ))
}

/// Creates a single journal entry under an existing transaction of the
/// tenant. The transaction must belong to the tenant (else NotFound) and the
/// account must resolve (else Validation); nothing is persisted on failure.
pub fn create_journal_entry(store: &mut Ledger, tenant_id: u128, created_by_user_id: u128, now: i64,
    transaction_id: u128, dto: CreateJournalEntryDto) -> (r: Result<JournalEntry, AppError>)
    requires
        old(store).wf(),
    ensures
        final(store).wf(),
        r is Ok <==> (dto.valid() && has_tenant_transaction(
            old(store).transactions@,
            tenant_id,
            transaction_id,
        ) && has_active_account(old(store).accounts@, tenant_id, dto.account_id) && old(
            store,
        ).can_assign_ids(1)),
        match r {
            Ok(row) => {
                &&& row == journal_row(
                    dto,
                    old(store).next_id,
                    transaction_id,
                    created_by_user_id,
                    now,
                )
                &&& final(store).journal_entries@ == old(store).journal_entries@.push(row)
                &&& final(store).next_id == old(store).next_id + 1
                &&& *final(store) == (Ledger {
                    journal_entries: final(store).journal_entries,
                    next_id: final(store).next_id,
                    ..*old(store)
                })
            },
            Err(e) => {
                &&& *final(store) == *old(store)
                &&& if !dto.valid() {
                    e is Validation && e.spec_message() == invalid_fields_msg()
                } else if !has_tenant_transaction(
                    old(store).transactions@,
                    tenant_id,
                    transaction_id,
                ) {
                    e is NotFound && e.spec_message() == transaction_not_found_msg(
                        transaction_id,
                        tenant_id,
                    )
                } else if !has_active_account(old(store).accounts@, tenant_id, dto.account_id) {
                    e is Validation && e.spec_message() == invalid_account_msg(
                        dto.account_id,
                        tenant_id,
                    )
                } else {
                    e is InternalServerError && e.spec_message() == ids_exhausted_msg()
                }
            },
        },
{
    if !dto.validate() {
        return Err(invalid_fields_error());
    }
    if !resolve_transaction(&store.transactions, tenant_id, transaction_id) {
        return Err(AppError::NotFound(
            msg_id_id("Transaction with ID ", transaction_id, " not found for tenant ", tenant_id),
        ));
    }
    if !resolve_account(&store.accounts, tenant_id, dto.account_id) {
        return Err(invalid_account_error(dto.account_id, tenant_id));
    }
    if store.next_id == u128::MAX {
        return Err(ids_exhausted_error());
    }
    let id = store.next_id;
    store.next_id = store.next_id + 1;
    let row = JournalEntry {
        id,
        transaction_id,
        account_id: dto.account_id,
        entry_type: dto.entry_type,
        amount: dto.amount,
        currency_code: dto.currency_code,
        exchange_rate: dto.exchange_rate,
        converted_amount: dto.converted_amount,
        memo: dto.memo,
        created_at: now,
        created_by: created_by_user_id,
        updated_at: now,
        updated_by: created_by_user_id,
    };
    let copy = row.clone();
    proof {
        lemma_push_fresh_key(store.journal_entries@, |x: JournalEntry| x.id, id as int, row);
    }
    store.journal_entries.push(row);
    Ok(copy)
}

/// Applies a sparse update to a journal entry reached through a transaction
/// of the tenant. Only the memo, the exchange rate and the converted amount
/// can be patched; a patch carrying none of them is rejected untouched.
pub fn update_journal_entry(store: &mut Ledger, tenant_id: u128, journal_entry_id: u128,
    updated_by_user_id: u128, now: i64, dto: UpdateJournalEntryDto) -> (r: Result<JournalEntry, AppError>)
    requires
        old(store).wf(),
    ensures
        final(store).wf(),
        r is Ok <==> (!dto.is_empty() && has_tenant_entry(
            old(store).journal_entries@,
            old(store).transactions@,
            tenant_id,
            journal_entry_id,
        )),
        match r {
            Ok(row) => {
                let i = tenant_entry_idx(
                    old(store).journal_entries@,
                    old(store).transactions@,
                    tenant_id,
                    journal_entry_id,
                );
                &&& row == entry_patched(
                    old(store).journal_entries@[i],
                    dto,
                    updated_by_user_id,
                    now,
                )
                &&& final(store).journal_entries@ == old(store).journal_entries@.update(i, row)
                &&& *final(store) == (Ledger {
                    journal_entries: final(store).journal_entries,
                    ..*old(store)
                })
            },
            Err(e) => {
                &&& *final(store) == *old(store)
                &&& if dto.is_empty() {
                    e is Validation && e.spec_message() == no_fields_msg()
                } else {
                    e is NotFound && e.spec_message() == entry_not_owned_msg(
                        journal_entry_id,
                        tenant_id,
                    )
                }
            },
        },
{
    if dto.no_fields() {
        return Err(no_fields_error());
    }
    let i = match find_entry(&store.journal_entries, journal_entry_id) {
        Some(i) => i,
        None => {
            return Err(AppError::NotFound(
                msg_id_id(
                    "Journal entry with ID ",
                    journal_entry_id,
                    " not found or not owned by tenant ",
                    tenant_id,
                ),
            ));
        },
    };
    if !resolve_transaction(
        &store.transactions,
        tenant_id,
        store.journal_entries[i].transaction_id,
    ) {
        proof {
            assert(keys_unique(store.journal_entries@, |x: JournalEntry| x.id));
        }
        return Err(AppError::NotFound(
            msg_id_id(
                "Journal entry with ID ",
                journal_entry_id,
                " not found or not owned by tenant ",
                tenant_id,
            ),
        ));
    }
    proof {
        assert(keys_unique(store.journal_entries@, |x: JournalEntry| x.id));
        assert(tenant_entry_idx(
            store.journal_entries@,
            store.transactions@,
            tenant_id,
            journal_entry_id,
        ) == i as int);
    }
    let ghost orig = store.journal_entries@[i as int];
    if let Some(v) = dto.memo {
        store.journal_entries[i].memo = Some(v);
    }
    if let Some(v) = dto.exchange_rate {
        store.journal_entries[i].exchange_rate = Some(v);
    }
    if let Some(v) = dto.converted_amount {
        store.journal_entries[i].converted_amount = Some(v);
    }
    store.journal_entries[i].updated_at = now;
    store.journal_entries[i].updated_by = updated_by_user_id;
    proof {
        assert(store.journal_entries@[i as int] == entry_patched(
            orig,
            dto,
            updated_by_user_id,
            now,
        ));
        assert(store.journal_entries@ =~= old(store).journal_entries@.update(
            i as int,
            entry_patched(orig, dto, updated_by_user_id, now),
        ));
        lemma_update_same_key(
            old(store).journal_entries@,
            |x: JournalEntry| x.id,
            old(store).next_id as int,
            i as int,
            entry_patched(orig, dto, updated_by_user_id, now),
        );
    }
    Ok(store.journal_entries[i].clone())
}

/// Hard-deletes a journal entry reached through a transaction of the tenant;
/// anything else is NotFound and nothing is touched.
pub fn delete_journal_entry(store: &mut Ledger, tenant_id: u128, journal_entry_id: u128) -> (r: Result<
    (),
    AppError,
>)
    requires
        old(store).wf(),
    ensures
        final(store).wf(),
        r is Ok <==> has_tenant_entry(
            old(store).journal_entries@,
            old(store).transactions@,
            tenant_id,
            journal_entry_id,
        ),
        match r {
            Ok(()) => {
                &&& final(store).journal_entries@ == old(store).journal_entries@.remove(
                    tenant_entry_idx(
                        old(store).journal_entries@,
                        old(store).transactions@,
                        tenant_id,
                        journal_entry_id,
                    ),
                )
                &&& *final(store) == (Ledger {
                    journal_entries: final(store).journal_entries,
                    ..*old(store)
                })
            },
            Err(e) => {
                &&& *final(store) == *old(store)
                &&& e is NotFound
                &&& e.spec_message() == entry_not_owned_msg(journal_entry_id, tenant_id)
            },
        },
{
    let i = match find_entry(&store.journal_entries, journal_entry_id) {
        Some(i) => i,
        None => {
            return Err(AppError::NotFound(
                msg_id_id(
                    "Journal entry with ID ",
                    journal_entry_id,
                    " not found or not owned by tenant ",
                    tenant_id,
                ),
            ));
        },
    };
    if !resolve_transaction(
        &store.transactions,
        tenant_id,
        store.journal_entries[i].transaction_id,
    ) {
        proof {
            assert(keys_unique(store.journal_entries@, |x: JournalEntry| x.id));
        }
        return Err(AppError::NotFound(
            msg_id_id(
                "Journal entry with ID ",
                journal_entry_id,
                " not found or not owned by tenant ",
                tenant_id,
            ),
        ));
    }
    proof {
        assert(keys_unique(store.journal_entries@, |x: JournalEntry| x.id));
        assert(tenant_entry_idx(
            store.journal_entries@,
            store.transactions@,
            tenant_id,
            journal_entry_id,
        ) == i as int);
        lemma_remove_keeps_keys(store.journal_entries@, |x: JournalEntry| x.id, i as int);
        assert forall|k: int|
            0 <= k < store.journal_entries@.remove(i as int).len()
                implies #[trigger] store.journal_entries@.remove(i as int)[k].id
                < store.next_id by {
            let k0: int = if k < i as int {
                k
            } else {
                k + 1
            };
            assert(store.journal_entries@.remove(i as int)[k] == store.journal_entries@[k0]);
        }
    }
    store.journal_entries.remove(i);
    Ok(())
}

} // verus!

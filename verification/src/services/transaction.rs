//! The ledger write engine: transactions and their journal entries are
//! written as one atomic unit. Creation persists the transaction row and one
//! journal-entry row per requested leg, or — if any leg references an account
//! that is not an active account of the acting tenant — persists nothing at
//! all and reports the offending account id. Deletion removes the transaction
//! row together with every journal-entry row that references it, or nothing.
//!
//! The engine accepts whatever legs the caller supplies: the double-entry
//! balance of debits against credits is the caller's responsibility, checked
//! beforehand with [`entries_balanced`].

use vstd::prelude::*;
use crate::dto::{CreateJournalEntryDto, CreateTransactionDto, UpdateTransactionDto};
use crate::error::{invalid_fields_error, ids_exhausted_error, no_fields_error, AppError};
use crate::error::{invalid_fields_msg, ids_exhausted_msg, no_fields_msg};
use crate::codes::JournalEntryType;
use crate::models::{tx_equal, JournalEntry, Transaction};
use crate::order::{lemma_insert_ordered_at, lemma_order_by_push, lemma_order_by_sorted,
    lemma_order_by_sub, order_by, ordered_by};
use crate::ownership::{has_active_account, has_active_category, invalid_account_error,
    invalid_account_msg, invalid_category_error, invalid_category_msg, resolve_account,
    resolve_category};
use crate::store::{keys_unique, lemma_filter_keys_unique, lemma_filter_push,
    lemma_filter_sub, lemma_push_fresh_key, lemma_remove_keeps_keys, lemma_update_same_key, Ledger};
use crate::strutil::{clone_opt_string, dec_digits, msg_id_id};

verus! {

/// Whether some transaction row carries the id under the tenant.
pub open spec fn has_transaction(s: Seq<Transaction>, tenant_id: u128, id: u128) -> bool {
    exists|i: int| 0 <= i < s.len() && s[i].id == id && s[i].tenant_id == tenant_id
}

/// The index of the transaction row carrying the id under the tenant.
pub open spec fn transaction_idx(s: Seq<Transaction>, tenant_id: u128, id: u128) -> int {
    choose|i: int| 0 <= i < s.len() && s[i].id == id && s[i].tenant_id == tenant_id
}

/// The transaction row a creation request persists. Reconciliation defaults
/// to false when the request does not carry the flag.
pub open spec fn transaction_row(dto: CreateTransactionDto, id: u128, tenant_id: u128, actor: u128,
    now: i64) -> Transaction {
    Transaction {
        id,
        tenant_id,
        transaction_date: dto.transaction_date,
        description: dto.description,
        transaction_type: dto.transaction_type,
        category_id: dto.category_id,
        tags: dto.tags,
        amount: dto.amount,
        currency_code: dto.currency_code,
        is_reconciled: if dto.is_reconciled is Some {
            dto.is_reconciled->0
        } else {
            false
        },
        reconciliation_date: dto.reconciliation_date,
        notes: dto.notes,
        source_document_url: dto.source_document_url,
        created_at: now,
        created_by: actor,
        updated_at: now,
        updated_by: actor,
    }
}

/// The journal-entry row one requested leg persists.
pub open spec fn journal_row(e: CreateJournalEntryDto, id: u128, tx_id: u128, actor: u128, now: i64) -> JournalEntry {
    JournalEntry {
        id,
        transaction_id: tx_id,
        account_id: e.account_id,
        entry_type: e.entry_type,
        amount: e.amount,
        currency_code: e.currency_code,
        exchange_rate: e.exchange_rate,
        converted_amount: e.converted_amount,
        memo: e.memo,
        created_at: now,
        created_by: actor,
        updated_at: now,
        updated_by: actor,
    }
}

/// The journal-entry rows a creation request persists: one per leg, with
/// identifiers assigned in order after the transaction's own.
pub open spec fn journal_rows(entries: Seq<CreateJournalEntryDto>, tx_id: u128, actor: u128, now: i64) -> Seq<JournalEntry> {
    Seq::new(entries.len(), |k: int| journal_row(entries[k], (tx_id + 1 + k) as u128, tx_id, actor, now))
}

/// Every leg references an active account of the tenant.
pub open spec fn all_accounts_ok(accounts: Seq<crate::models::Account>, tenant_id: u128,
    entries: Seq<CreateJournalEntryDto>) -> bool {
    forall|k: int|
        0 <= k < entries.len() ==> has_active_account(
            accounts,
            tenant_id,
            (#[trigger] entries[k]).account_id,
        )
}

/// The position of the first leg whose account does not resolve.
pub open spec fn first_bad_entry(accounts: Seq<crate::models::Account>, tenant_id: u128,
    entries: Seq<CreateJournalEntryDto>) -> int
    decreases entries.len(),
{
    if entries.len() == 0 {
        0
    } else if !has_active_account(accounts, tenant_id, entries[0].account_id) {
        0
    } else {
        1 + first_bad_entry(accounts, tenant_id, entries.subrange(1, entries.len() as int))
    }
}

proof fn lemma_first_bad(accounts: Seq<crate::models::Account>, tenant_id: u128,
    entries: Seq<CreateJournalEntryDto>, k: int)
    requires
        0 <= k < entries.len(),
        forall|j: int|
            0 <= j < k ==> has_active_account(
                accounts,
                tenant_id,
                (#[trigger] entries[j]).account_id,
            ),
        !has_active_account(accounts, tenant_id, entries[k].account_id),
    ensures
        first_bad_entry(accounts, tenant_id, entries) == k,
    decreases k,
{
    if k > 0 {
        let rest = entries.subrange(1, entries.len() as int);
        assert(forall|j: int|
            0 <= j < k - 1 ==> (#[trigger] rest[j]) == entries[j + 1]);
        assert(rest[k - 1] == entries[k]);
        lemma_first_bad(accounts, tenant_id, rest, k - 1);
    }
}

/// The signed sum of the legs: debits count positive, credits negative.
pub open spec fn signed_sum(entries: Seq<CreateJournalEntryDto>) -> int
    decreases entries.len(),
{
    if entries.len() == 0 {
        0
    } else {
        signed_sum(entries.drop_last()) + (if entries.last().entry_type is Debit {
            entries.last().amount as int
        } else {
            -(entries.last().amount as int)
        })
    }
}

/// Whether the legs balance: the debit total equals the credit total. The
/// write engine does not enforce this; callers decide before writing.
pub open spec fn balanced(entries: Seq<CreateJournalEntryDto>) -> bool {
    signed_sum(entries) == 0
}

pub open spec fn transaction_not_found_msg(id: u128, tenant_id: u128) -> Seq<char> {
    "Transaction with ID "@ + dec_digits(id as int) + " not found for tenant "@ + dec_digits(
        tenant_id as int,
    )
}

pub open spec fn transaction_not_owned_msg(id: u128, tenant_id: u128) -> Seq<char> {
    "Transaction with ID "@ + dec_digits(id as int) + " not found or not owned by tenant "@
        + dec_digits(tenant_id as int)
}

/// Reports whether the requested legs balance, debits against credits, with
/// every leg's amount within the column limit.
pub fn entries_balanced(entries: &Vec<CreateJournalEntryDto>) -> (r: bool)
    requires
        forall|k: int| 0 <= k < entries@.len() ==> 0 <= (#[trigger] entries@[k]).amount,
    ensures
        r == balanced(entries@),
{
    let mut sum: i128 = 0;
    let mut k: usize = 0;
    while k < entries.len()
        invariant
            0 <= k <= entries@.len(),
            forall|j: int| 0 <= j < entries@.len() ==> 0 <= (#[trigger] entries@[j]).amount,
            sum == signed_sum(entries@.subrange(0, k as int)),
            -(k as int) * (i64::MAX as int) <= sum <= (k as int) * (i64::MAX as int),
        decreases entries@.len() - k,
    {
        proof {
            assert(entries@.subrange(0, k + 1).drop_last() =~= entries@.subrange(0, k as int));
            assert(entries@.subrange(0, k + 1).last() == entries@[k as int]);
            assert((k + 1 as int) * (i64::MAX as int) == (k as int) * (i64::MAX as int) + (
            i64::MAX as int)) by (nonlinear_arith);
        }
        let e_amount = entries[k].amount;
        let is_debit = match entries[k].entry_type {
            JournalEntryType::Debit => true,
            JournalEntryType::Credit => false,
        };
        if is_debit {
            sum = sum + e_amount as i128;
        } else {
            sum = sum - e_amount as i128;
        }
        k += 1;
    }
    proof {
        assert(entries@.subrange(0, entries@.len() as int) =~= entries@);
    }
    sum == 0
}

/// Finds the first leg whose account does not resolve under the tenant.
fn check_entries(accounts: &Vec<crate::models::Account>, tenant_id: u128,
    entries: &Vec<CreateJournalEntryDto>) -> (r: Option<usize>)
    ensures
        match r {
            None => all_accounts_ok(accounts@, tenant_id, entries@),
            Some(k) => {
                &&& 0 <= k < entries@.len()
                &&& !all_accounts_ok(accounts@, tenant_id, entries@)
                &&& k as int == first_bad_entry(accounts@, tenant_id, entries@)
                &&& !has_active_account(accounts@, tenant_id, entries@[k as int].account_id)
            },
        },
{
    let mut k: usize = 0;
    while k < entries.len()
        invariant
            0 <= k <= entries@.len(),
            forall|j: int|
                0 <= j < k ==> has_active_account(
                    accounts@,
                    tenant_id,
                    (#[trigger] entries@[j]).account_id,
                ),
        decreases entries@.len() - k,
    {
        if !resolve_account(accounts, tenant_id, entries[k].account_id) {
            proof {
                lemma_first_bad(accounts@, tenant_id, entries@, k as int);
            }
            return Some(k);
        }
        k += 1;
    }
    None
}

fn find_transaction(v: &Vec<Transaction>, tenant_id: u128, id: u128) -> (r: Option<usize>)
    ensures
        match r {
            Some(i) => 0 <= i < v@.len() && v@[i as int].id == id && v@[i as int].tenant_id
                == tenant_id,
            None => !has_transaction(v@, tenant_id, id),
        },
{
    let mut i: usize = 0;
    while i < v.len()
        invariant
            0 <= i <= v@.len(),
            forall|k: int| 0 <= k < i ==> !(v@[k].id == id && v@[k].tenant_id == tenant_id),
        decreases v@.len() - i,
    {
        if v[i].id == id && v[i].tenant_id == tenant_id {
            return Some(i);
        }
        i += 1;
    }
    None
}

/// The listing order of transactions: latest transaction date first, ties by
/// latest creation first.
pub open spec fn transaction_le(a: Transaction, b: Transaction) -> bool {
    if a.transaction_date != b.transaction_date {
        a.transaction_date > b.transaction_date
    } else {
        a.created_at >= b.created_at
    }
}

/// What a listing returns: the tenant's rows, latest transaction date first,
/// ties by latest creation; rows with equal keys keep their insertion order.
pub open spec fn transactions_listed(s: Seq<Transaction>, tenant_id: u128) -> Seq<Transaction> {
    order_by(
        s.filter(|t: Transaction| t.tenant_id == tenant_id),
        |a: Transaction, b: Transaction| transaction_le(a, b),
    )
}

/// The position a row takes among already-listed rows.
fn transaction_insert_pos(v: &Vec<Transaction>, x: &Transaction) -> (j: usize)
    ensures
        0 <= j <= v@.len(),
        forall|k: int| 0 <= k < j ==> transaction_le(#[trigger] v@[k], *x),
        j < v@.len() ==> !transaction_le(v@[j as int], *x),
{
    let mut j: usize = 0;
    while j < v.len()
        invariant
            0 <= j <= v@.len(),
            forall|k: int| 0 <= k < j ==> transaction_le(#[trigger] v@[k], *x),
        decreases v@.len() - j,
    {
        let here_le = if v[j].transaction_date != x.transaction_date {
            v[j].transaction_date > x.transaction_date
        } else {
            v[j].created_at >= x.created_at
        };
        if !here_le {
            return j;
        }
        j += 1;
    }
    j
}

/// Lists the transactions of the tenant, latest transaction date first, ties
/// by latest creation. Each returned row agrees with the stored one on every
/// field, the tag lists compared by contents; no row of another tenant is
/// ever returned.
pub fn list_transactions(store: &Ledger, tenant_id: u128) -> (r: Vec<Transaction>)
    ensures
        r@.len() == transactions_listed(store.transactions@, tenant_id).len(),
        forall|i: int|
            0 <= i < r@.len() ==> tx_equal(
                #[trigger] r@[i],
                transactions_listed(store.transactions@, tenant_id)[i],
            ),
        ordered_by(r@, |a: Transaction, b: Transaction| transaction_le(a, b)),
        forall|i: int| 0 <= i < r@.len() ==> (#[trigger] r@[i]).tenant_id == tenant_id,
{
    let mut r: Vec<Transaction> = Vec::new();
    let mut i: usize = 0;
    while i < store.transactions.len()
        invariant
            0 <= i <= store.transactions@.len(),
            r@.len() == order_by(
                store.transactions@.subrange(0, i as int).filter(
                    |t: Transaction| t.tenant_id == tenant_id,
                ),
                |a: Transaction, b: Transaction| transaction_le(a, b),
            ).len(),
            forall|k: int|
                0 <= k < r@.len() ==> tx_equal(
                    #[trigger] r@[k],
                    order_by(
                        store.transactions@.subrange(0, i as int).filter(
                            |t: Transaction| t.tenant_id == tenant_id,
                        ),
                        |a: Transaction, b: Transaction| transaction_le(a, b),
                    )[k],
                ),
        decreases store.transactions@.len() - i,
    {
        let ghost f = store.transactions@.subrange(0, i as int).filter(
            |t: Transaction| t.tenant_id == tenant_id,
        );
        let ghost ord = order_by(f, |a: Transaction, b: Transaction| transaction_le(a, b));
        proof {
            assert(store.transactions@.subrange(0, i + 1) =~= store.transactions@.subrange(
                0,
                i as int,
            ).push(store.transactions@[i as int]));
            lemma_filter_push(
                store.transactions@.subrange(0, i as int),
                |t: Transaction| t.tenant_id == tenant_id,
                store.transactions@[i as int],
            );
        }
        if store.transactions[i].tenant_id == tenant_id {
            let ghost orig = store.transactions@[i as int];
            let x = store.transactions[i].clone();
            let j = transaction_insert_pos(&r, &x);
            let ghost r0 = r@;
            proof {
                assert forall|k: int| 0 <= k < j implies transaction_le(
                    #[trigger] ord[k],
                    orig,
                ) by {
                    assert(tx_equal(r0[k], ord[k]));
                    assert(transaction_le(r0[k], x));
                }
                if (j as int) < ord.len() {
                    assert(tx_equal(r0[j as int], ord[j as int]));
                    assert(!transaction_le(r0[j as int], x));
                    assert(!transaction_le(ord[j as int], orig));
                }
                lemma_insert_ordered_at(
                    orig,
                    ord,
                    |a: Transaction, b: Transaction| transaction_le(a, b),
                    j as int,
                );
                lemma_order_by_push(
                    f,
                    |a: Transaction, b: Transaction| transaction_le(a, b),
                    orig,
                );
            }
            r.insert(j, x);
            proof {
                let ord2 = order_by(
                    store.transactions@.subrange(0, i + 1).filter(
                        |t: Transaction| t.tenant_id == tenant_id,
                    ),
                    |a: Transaction, b: Transaction| transaction_le(a, b),
                );
                assert(ord2 == ord.insert(j as int, orig));
                assert(r@ == r0.insert(j as int, x));
                assert forall|k: int| 0 <= k < r@.len() implies tx_equal(
                    #[trigger] r@[k],
                    ord2[k],
                ) by {
                    if k < j as int {
                        assert(r@[k] == r0[k]);
                        assert(ord2[k] == ord[k]);
                    } else if k == j as int {
                        assert(r@[k] == x);
                        assert(ord2[k] == orig);
                    } else {
                        assert(r@[k] == r0[k - 1]);
                        assert(ord2[k] == ord[k - 1]);
                    }
                }
            }
        }
        i += 1;
    }
    proof {
        assert(store.transactions@.subrange(0, store.transactions@.len() as int)
            =~= store.transactions@);
        let f = store.transactions@.filter(|t: Transaction| t.tenant_id == tenant_id);
        let listed = transactions_listed(store.transactions@, tenant_id);
        lemma_order_by_sorted(f, |a: Transaction, b: Transaction| transaction_le(a, b));
        lemma_order_by_sub(f, |a: Transaction, b: Transaction| transaction_le(a, b));
        assert forall|i: int, j: int| 0 <= i < j < r@.len() implies transaction_le(
            #[trigger] r@[i],
            #[trigger] r@[j],
        ) by {
            assert(tx_equal(r@[i], listed[i]));
            assert(tx_equal(r@[j], listed[j]));
            assert(transaction_le(listed[i], listed[j]));
        }
        assert forall|i: int| 0 <= i < r@.len() implies (#[trigger] r@[i]).tenant_id
            == tenant_id by {
            assert(tx_equal(r@[i], listed[i]));
            let j = choose|j: int| 0 <= j < f.len() && listed[i] == f[j];
            store.transactions@.lemma_filter_pred(
                |t: Transaction| t.tenant_id == tenant_id,
                j,
            );
        }
    }
    r
}

/// Fetches a transaction by id under the tenant; anything else is NotFound.
pub fn get_transaction_by_id(store: &Ledger, tenant_id: u128, transaction_id: u128) -> (r: Result<
    Transaction,
    AppError,
>)
    requires
        store.wf(),
    ensures
        match r {
            Ok(t) => {
                &&& has_transaction(store.transactions@, tenant_id, transaction_id)
                &&& tx_equal(
                    t,
                    store.transactions@[
                        transaction_idx(store.transactions@, tenant_id, transaction_id)
                    ],
                )
                &&& t.tenant_id == tenant_id
            },
            Err(e) => {
                &&& !has_transaction(store.transactions@, tenant_id, transaction_id)
                &&& e is NotFound
                &&& e.spec_message() == transaction_not_found_msg(transaction_id, tenant_id)
            },
        },
{
    match find_transaction(&store.transactions, tenant_id, transaction_id) {
        Some(i) => {
            proof {
                let j = transaction_idx(store.transactions@, tenant_id, transaction_id);
                assert(store.transactions@[j].id == transaction_id);
                assert(keys_unique(store.transactions@, |t: Transaction| t.id));
                assert(j == i as int);
            }
            Ok(store.transactions[i].clone())
        },
        None => Err(AppError::NotFound(
            msg_id_id(
                "Transaction with ID ",
                transaction_id,
                " not found for tenant ",
                tenant_id,
            ),
        )),
    }
}

/// Creates a transaction together with its journal entries, atomically: on
/// success exactly one transaction row and one journal-entry row per leg are
/// persisted, all legs carrying the new transaction id; on any failure the
/// store is exactly as before — no partial write survives. A leg whose
/// account is not an active account of the tenant fails the whole request
/// with a Validation error naming that account id.
pub fn create_transaction(store: &mut Ledger, tenant_id: u128, created_by_user_id: u128, now: i64,
    dto: CreateTransactionDto) -> (r: Result<Transaction, AppError>)
    requires
        old(store).wf(),
    ensures
        final(store).wf(),
        r is Ok <==> (dto.valid() && all_accounts_ok(
            old(store).accounts@,
            tenant_id,
            dto.journal_entries@,
        ) && old(store).can_assign_ids(1 + dto.journal_entries@.len() as int)),
        match r {
            Ok(tx) => {
                &&& tx_equal(
                    tx,
                    transaction_row(dto, old(store).next_id, tenant_id, created_by_user_id, now),
                )
                &&& final(store).transactions@ == old(store).transactions@.push(
                    transaction_row(dto, old(store).next_id, tenant_id, created_by_user_id, now),
                )
                &&& final(store).journal_entries@ == old(store).journal_entries@ + journal_rows(
                    dto.journal_entries@,
                    old(store).next_id,
                    created_by_user_id,
                    now,
                )
                &&& final(store).next_id == old(store).next_id + 1 + dto.journal_entries@.len()
                &&& *final(store) == (Ledger {
                    transactions: final(store).transactions,
                    journal_entries: final(store).journal_entries,
                    next_id: final(store).next_id,
                    ..*old(store)
                })
            },
            Err(e) => {
                &&& *final(store) == *old(store)
                &&& if !dto.valid() {
                    e is Validation && e.spec_message() == invalid_fields_msg()
                } else if !all_accounts_ok(old(store).accounts@, tenant_id, dto.journal_entries@) {
                    e is Validation && e.spec_message() == invalid_account_msg(
                        dto.journal_entries@[
                            first_bad_entry(old(store).accounts@, tenant_id, dto.journal_entries@)
                        ].account_id,
                        tenant_id,
                    )
                } else {
                    e is InternalServerError && e.spec_message() == ids_exhausted_msg()
                }
            },
        },
{
    if !dto.validate() {
        return Err(invalid_fields_error());
    }
    let ghost entries_view = dto.journal_entries@;
    if let Some(k) = check_entries(&store.accounts, tenant_id, &dto.journal_entries) {
        return Err(invalid_account_error(dto.journal_entries[k].account_id, tenant_id));
    }
    let n: usize = dto.journal_entries.len();
    if store.next_id > u128::MAX - 1 - (n as u128) {
        return Err(ids_exhausted_error());
    }
    let tx_id = store.next_id;
    store.next_id = store.next_id + 1;
    let CreateTransactionDto {
        transaction_date,
        description,
        transaction_type,
        category_id,
        tags,
        amount,
        currency_code,
        is_reconciled,
        reconciliation_date,
        notes,
        source_document_url,
        journal_entries,
    } = dto;
    let row = Transaction {
        id: tx_id,
        tenant_id,
        transaction_date,
        description,
        transaction_type,
        category_id,
        tags,
        amount,
        currency_code,
        is_reconciled: (match is_reconciled {
            Some(b) => b,
            None => false,
        }),
        reconciliation_date,
        notes,
        source_document_url,
        created_at: now,
        created_by: created_by_user_id,
        updated_at: now,
        updated_by: created_by_user_id,
    };
    let copy = row.clone();
    proof {
        assert(row == transaction_row(dto, tx_id, tenant_id, created_by_user_id, now));
        lemma_push_fresh_key(store.transactions@, |t: Transaction| t.id, tx_id as int, row);
    }
    store.transactions.push(row);
    let mut k: usize = 0;
    while k < journal_entries.len()
        invariant
            journal_entries@ == entries_view,
            0 <= k <= journal_entries@.len(),
            store.next_id == tx_id + 1 + k,
            tx_id + 1 + journal_entries@.len() <= u128::MAX,
            store.wf(),
            store.transactions@ == old(store).transactions@.push(
                transaction_row(dto, tx_id, tenant_id, created_by_user_id, now),
            ),
            store.journal_entries@ == old(store).journal_entries@ + journal_rows(
                entries_view.subrange(0, k as int),
                tx_id,
                created_by_user_id,
                now,
            ),
            *store == (Ledger {
                transactions: store.transactions,
                journal_entries: store.journal_entries,
                next_id: store.next_id,
                ..*old(store)
            }),
        decreases journal_entries@.len() - k,
    {
        let e = &journal_entries[k];
        let eid = store.next_id;
        store.next_id = store.next_id + 1;
        let erow = JournalEntry {
            id: eid,
            transaction_id: tx_id,
            account_id: e.account_id,
            entry_type: e.entry_type,
            amount: e.amount,
            currency_code: e.currency_code.clone(),
            exchange_rate: e.exchange_rate,
            converted_amount: e.converted_amount,
            memo: clone_opt_string(&e.memo),
            created_at: now,
            created_by: created_by_user_id,
            updated_at: now,
            updated_by: created_by_user_id,
        };
        proof {
            assert(erow == journal_row(entries_view[k as int], eid, tx_id, created_by_user_id, now));
            lemma_push_fresh_key(store.journal_entries@, |x: JournalEntry| x.id, eid as int, erow);
            assert(journal_rows(entries_view.subrange(0, k + 1), tx_id, created_by_user_id, now)
                =~= journal_rows(
                entries_view.subrange(0, k as int),
                tx_id,
                created_by_user_id,
                now,
            ).push(erow));
        }
        store.journal_entries.push(erow);
        k += 1;
    }
    proof {
        assert(entries_view.subrange(0, entries_view.len() as int) =~= entries_view);
    }
    Ok(copy)
}

/// The transaction row after a sparse metadata update.
pub open spec fn transaction_patched(t: Transaction, dto: UpdateTransactionDto, actor: u128, now: i64) -> Transaction {
    Transaction {
        transaction_date: if dto.transaction_date is Some {
            dto.transaction_date->0
        } else {
            t.transaction_date
        },
        description: if dto.description is Some {
            dto.description->0
        } else {
            t.description
        },
        transaction_type: if dto.transaction_type is Some {
            dto.transaction_type->0
        } else {
            t.transaction_type
        },
        category_id: if dto.category_id is Some {
            dto.category_id
        } else {
            t.category_id
        },
        tags: if dto.tags is Some {
            dto.tags
        } else {
            t.tags
        },
        amount: if dto.amount is Some {
            dto.amount->0
        } else {
            t.amount
        },
        currency_code: if dto.currency_code is Some {
            dto.currency_code->0
        } else {
            t.currency_code
        },
        is_reconciled: if dto.is_reconciled is Some {
            dto.is_reconciled->0
        } else {
            t.is_reconciled
        },
        reconciliation_date: if dto.reconciliation_date is Some {
            dto.reconciliation_date
        } else {
            t.reconciliation_date
        },
        notes: if dto.notes is Some {
            dto.notes
        } else {
            t.notes
        },
        source_document_url: if dto.source_document_url is Some {
            dto.source_document_url
        } else {
            t.source_document_url
        },
        updated_at: now,
        updated_by: actor,
        ..t
    }
}

fn patch_transaction_row(v: &mut Vec<Transaction>, i: usize, dto: UpdateTransactionDto, actor: u128,
    now: i64)
    requires
        i < old(v)@.len(),
    ensures
        final(v)@ == old(v)@.update(
            i as int,
            transaction_patched(old(v)@[i as int], dto, actor, now),
        ),
{
    let orig = v.remove(i);
    let ghost orig_g = orig;
    let row = Transaction {
        id: orig.id,
        tenant_id: orig.tenant_id,
        transaction_date: (match dto.transaction_date {
            Some(x) => x,
            None => orig.transaction_date,
        }),
        description: (match dto.description {
            Some(x) => x,
            None => orig.description,
        }),
        transaction_type: (match dto.transaction_type {
            Some(x) => x,
            None => orig.transaction_type,
        }),
        category_id: (match dto.category_id {
            Some(x) => Some(x),
            None => orig.category_id,
        }),
        tags: (match dto.tags {
            Some(x) => Some(x),
            None => orig.tags,
        }),
        amount: (match dto.amount {
            Some(x) => x,
            None => orig.amount,
        }),
        currency_code: (match dto.currency_code {
            Some(x) => x,
            None => orig.currency_code,
        }),
        is_reconciled: (match dto.is_reconciled {
            Some(x) => x,
            None => orig.is_reconciled,
        }),
        reconciliation_date: (match dto.reconciliation_date {
            Some(x) => Some(x),
            None => orig.reconciliation_date,
        }),
        notes: (match dto.notes {
            Some(x) => Some(x),
            None => orig.notes,
        }),
        source_document_url: (match dto.source_document_url {
            Some(x) => Some(x),
            None => orig.source_document_url,
        }),
        created_at: orig.created_at,
        created_by: orig.created_by,
        updated_at: now,
        updated_by: actor,
    };
    proof {
        assert(row == transaction_patched(orig_g, dto, actor, now));
    }
    v.insert(i, row);
    proof {
        assert(v@ =~= old(v)@.update(i as int, transaction_patched(orig_g, dto, actor, now)));
    }
}

/// Applies a sparse metadata update to a transaction under the tenant. A
/// patched category reference must resolve under the tenant before it is
/// applied; the journal entries are not touched.
pub fn update_transaction(store: &mut Ledger, tenant_id: u128, transaction_id: u128,
    updated_by_user_id: u128, now: i64, dto: UpdateTransactionDto) -> (r: Result<Transaction, AppError>)
    requires
        old(store).wf(),
    ensures
        final(store).wf(),
        r is Ok <==> (!dto.is_empty() && dto.valid() && (dto.category_id is Some
            ==> has_active_category(old(store).categories@, tenant_id, dto.category_id->0))
            && has_transaction(old(store).transactions@, tenant_id, transaction_id)),
        match r {
            Ok(row) => {
                let i = transaction_idx(old(store).transactions@, tenant_id, transaction_id);
                &&& final(store).transactions@ == old(store).transactions@.update(
                    i,
                    transaction_patched(
                        old(store).transactions@[i],
                        dto,
                        updated_by_user_id,
                        now,
                    ),
                )
                &&& tx_equal(
                    row,
                    transaction_patched(old(store).transactions@[i], dto, updated_by_user_id, now),
                )
                &&& row.tenant_id == tenant_id
                &&& *final(store) == (Ledger {
                    transactions: final(store).transactions,
                    ..*old(store)
                })
            },
            Err(e) => {
                &&& *final(store) == *old(store)
                &&& if dto.is_empty() {
                    e is Validation && e.spec_message() == no_fields_msg()
                } else if !dto.valid() {
                    e is Validation && e.spec_message() == invalid_fields_msg()
                } else if dto.category_id is Some && !has_active_category(
                    old(store).categories@,
                    tenant_id,
                    dto.category_id->0,
                ) {
                    e is Validation && e.spec_message() == invalid_category_msg(
                        dto.category_id->0,
                        tenant_id,
                    )
                } else {
                    e is NotFound && e.spec_message() == transaction_not_owned_msg(
                        transaction_id,
                        tenant_id,
                    )
                }
            },
        },
{
    if dto.no_fields() {
        return Err(no_fields_error());
    }
    if !dto.validate() {
        return Err(invalid_fields_error());
    }
    if let Some(c) = &dto.category_id {
        if !resolve_category(&store.categories, tenant_id, *c) {
            return Err(invalid_category_error(*c, tenant_id));
        }
    }
    let i = match find_transaction(&store.transactions, tenant_id, transaction_id) {
        Some(i) => i,
        None => {
            return Err(AppError::NotFound(
                msg_id_id(
                    "Transaction with ID ",
                    transaction_id,
                    " not found or not owned by tenant ",
                    tenant_id,
                ),
            ));
        },
    };
    proof {
        assert(keys_unique(store.transactions@, |t: Transaction| t.id));
        assert(transaction_idx(store.transactions@, tenant_id, transaction_id) == i as int);
    }
    let ghost orig = store.transactions@[i as int];
    patch_transaction_row(&mut store.transactions, i, dto, updated_by_user_id, now);
    proof {
        lemma_update_same_key(
            old(store).transactions@,
            |t: Transaction| t.id,
            old(store).next_id as int,
            i as int,
            transaction_patched(orig, dto, updated_by_user_id, now),
        );
    }
    Ok(store.transactions[i].clone())
}

/// Deletes a transaction under the tenant together with every journal-entry
/// row that references it, as one atomic unit: if the transaction is absent
/// or owned by another tenant, nothing at all is removed and the result is
/// NotFound.
pub fn delete_transaction(store: &mut Ledger, tenant_id: u128, transaction_id: u128) -> (r: Result<
    (),
    AppError,
>)
    requires
        old(store).wf(),
    ensures
        final(store).wf(),
        r is Ok <==> has_transaction(old(store).transactions@, tenant_id, transaction_id),
        match r {
            Ok(()) => {
                &&& final(store).transactions@ == old(store).transactions@.remove(
                    transaction_idx(old(store).transactions@, tenant_id, transaction_id),
                )
                &&& final(store).journal_entries@ == old(store).journal_entries@.filter(
                    |e: JournalEntry| e.transaction_id != transaction_id,
                )
                &&& *final(store) == (Ledger {
                    transactions: final(store).transactions,
                    journal_entries: final(store).journal_entries,
                    ..*old(store)
                })
            },
            Err(e) => {
                &&& *final(store) == *old(store)
                &&& e is NotFound
                &&& e.spec_message() == transaction_not_owned_msg(transaction_id, tenant_id)
            },
        },
{
    let i = match find_transaction(&store.transactions, tenant_id, transaction_id) {
        Some(i) => i,
        None => {
            return Err(AppError::NotFound(
                msg_id_id(
                    "Transaction with ID ",
                    transaction_id,
                    " not found or not owned by tenant ",
                    tenant_id,
                ),
            ));
        },
    };
    proof {
        assert(keys_unique(store.transactions@, |t: Transaction| t.id));
        assert(transaction_idx(store.transactions@, tenant_id, transaction_id) == i as int);
    }
    let mut kept: Vec<JournalEntry> = Vec::new();
    let mut j: usize = 0;
    while j < store.journal_entries.len()
        invariant
            0 <= j <= store.journal_entries@.len(),
            kept@ == store.journal_entries@.subrange(0, j as int).filter(
                |e: JournalEntry| e.transaction_id != transaction_id,
            ),
        decreases store.journal_entries@.len() - j,
    {
        proof {
            assert(store.journal_entries@.subrange(0, j + 1)
                =~= store.journal_entries@.subrange(0, j as int).push(
                store.journal_entries@[j as int],
            ));
            lemma_filter_push(
                store.journal_entries@.subrange(0, j as int),
                |e: JournalEntry| e.transaction_id != transaction_id,
                store.journal_entries@[j as int],
            );
        }
        if store.journal_entries[j].transaction_id != transaction_id {
            kept.push(store.journal_entries[j].clone());
        }
        j += 1;
    }
    proof {
        let pred = |e: JournalEntry| e.transaction_id != transaction_id;
        let key = |e: JournalEntry| e.id;
        assert(store.journal_entries@.subrange(0, store.journal_entries@.len() as int)
            =~= store.journal_entries@);
        lemma_filter_keys_unique(store.journal_entries@, pred, key);
        lemma_filter_sub(store.journal_entries@, pred);
        assert forall|k: int| 0 <= k < kept@.len() implies #[trigger] kept@[k].id < store.next_id by {
            let w = choose|w: int|
                0 <= w < store.journal_entries@.len() && store.journal_entries@[w] == kept@[k];
            assert(store.journal_entries@[w].id < store.next_id);
        }
        lemma_remove_keeps_keys(store.transactions@, |t: Transaction| t.id, i as int);
        assert forall|k: int|
            0 <= k < store.transactions@.remove(i as int).len() implies #[trigger] store.transactions@.remove(
            i as int,
        )[k].id < store.next_id by {
            let k0: int = if k < i as int {
                k
            } else {
                k + 1
            };
            assert(store.transactions@.remove(i as int)[k] == store.transactions@[k0]);
        }
    }
    store.journal_entries = kept;
    store.transactions.remove(i);
    Ok(())
}

} // verus!

//! Direct journal-entry operations and sparse transaction updates.

use ledger::codes::{AccountNormalBalance, JournalEntryType, TransactionType};
use ledger::dto::{
    CreateAccountDto, CreateAccountTypeDto, CreateJournalEntryDto, CreateTenantDto,
    CreateTransactionDto, UpdateJournalEntryDto, UpdateTransactionDto,
};
use ledger::services::journal_entry::{
    create_journal_entry, delete_journal_entry, get_journal_entry_by_id, update_journal_entry,
};
use ledger::services::tenant::create_tenant;
use ledger::services::transaction::{create_transaction, update_transaction};
use ledger::store::Ledger;

const ACTOR: u128 = 5;
const NOW: i64 = 100;

fn setup() -> (Ledger, u128, u128, u128) {
    let mut store = Ledger::new();
    let t = create_tenant(
        &mut store,
        ACTOR,
        NOW,
        CreateTenantDto {
            name: "Acme".to_string(),
            industry: None,
            base_currency_code: "USD".to_string(),
            fiscal_year_end_month: 12,
        },
    )
    .unwrap();
    let at = ledger::services::account_type::create_account_type(
        &mut store,
        ACTOR,
        NOW,
        CreateAccountTypeDto {
            name: "Asset".to_string(),
            normal_balance: AccountNormalBalance::DEBIT,
        },
    )
    .unwrap();
    let a = ledger::services::account::create_account(
        &mut store,
        t.id,
        ACTOR,
        NOW,
        CreateAccountDto {
            account_type_id: at.id,
            name: "Cash".to_string(),
            account_code: None,
            description: None,
            currency_code: "USD".to_string(),
        },
    )
    .unwrap();
    let tx = create_transaction(
        &mut store,
        t.id,
        ACTOR,
        NOW,
        CreateTransactionDto {
            transaction_date: 1,
            description: "Seed".to_string(),
            transaction_type: TransactionType::OpeningBalance,
            category_id: None,
            tags: None,
            amount: 1_000,
            currency_code: "USD".to_string(),
            is_reconciled: None,
            reconciliation_date: None,
            notes: None,
            source_document_url: None,
            journal_entries: Vec::new(),
        },
    )
    .unwrap();
    (store, t.id, a.id, tx.id)
}

fn leg(account_id: u128) -> CreateJournalEntryDto {
    CreateJournalEntryDto {
        account_id,
        entry_type: JournalEntryType::Debit,
        amount: 750,
        currency_code: "USD".to_string(),
        exchange_rate: None,
        converted_amount: None,
        memo: Some("opening leg".to_string()),
    }
}

#[test]
fn direct_entry_creation_checks_transaction_then_account() {
    let (mut store, t, a, tx) = setup();
    let e = create_journal_entry(&mut store, t, ACTOR, NOW, tx, leg(a)).unwrap();
    assert_eq!(e.transaction_id, tx);
    assert_eq!(e.amount, 750);
    assert_eq!(e.memo.as_deref(), Some("opening leg"));
    // A transaction of another tenant is NotFound.
    let err = create_journal_entry(&mut store, t + 1, ACTOR, NOW, tx, leg(a)).unwrap_err();
    assert!(err.is_not_found());
    // A bad account on an owned transaction is Validation.
    let err = create_journal_entry(&mut store, t, ACTOR, NOW, tx, leg(54_321)).unwrap_err();
    assert!(err.is_validation());
    assert_eq!(store.journal_entries.len(), 1);
}

#[test]
fn entry_update_patches_only_the_narrow_fields() {
    let (mut store, t, a, tx) = setup();
    let e = create_journal_entry(&mut store, t, ACTOR, NOW, tx, leg(a)).unwrap();
    let patched = update_journal_entry(
        &mut store,
        t,
        e.id,
        42,
        NOW + 5,
        UpdateJournalEntryDto {
            account_id: Some(999),
            entry_type: Some(JournalEntryType::Credit),
            amount: Some(1),
            currency_code: Some("EUR".to_string()),
            exchange_rate: Some(1_100_000),
            converted_amount: Some(825),
            memo: Some("converted".to_string()),
        },
    )
    .unwrap();
    // The financial core is untouched; only memo, rate and converted amount move.
    assert_eq!(patched.account_id, a);
    assert_eq!(patched.entry_type, JournalEntryType::Debit);
    assert_eq!(patched.amount, 750);
    assert_eq!(patched.currency_code, "USD");
    assert_eq!(patched.exchange_rate, Some(1_100_000));
    assert_eq!(patched.converted_amount, Some(825));
    assert_eq!(patched.memo.as_deref(), Some("converted"));
    assert_eq!(patched.updated_by, 42);
    assert_eq!(patched.updated_at, NOW + 5);
}

#[test]
fn entry_update_with_no_appliable_field_is_rejected() {
    let (mut store, t, a, tx) = setup();
    let e = create_journal_entry(&mut store, t, ACTOR, NOW, tx, leg(a)).unwrap();
    let before = store.journal_entries.clone();
    // Only fields outside the patchable set are carried: still an empty patch.
    let err = update_journal_entry(
        &mut store,
        t,
        e.id,
        ACTOR,
        NOW + 5,
        UpdateJournalEntryDto {
            account_id: Some(1),
            entry_type: None,
            amount: Some(2),
            currency_code: None,
            exchange_rate: None,
            converted_amount: None,
            memo: None,
        },
    )
    .unwrap_err();
    assert!(err.is_validation());
    assert_eq!(err.message().as_str(), "No fields provided for update");
    assert_eq!(store.journal_entries, before);
}

#[test]
fn entry_lookup_and_delete_respect_the_tenant() {
    let (mut store, t, a, tx) = setup();
    let e = create_journal_entry(&mut store, t, ACTOR, NOW, tx, leg(a)).unwrap();
    assert_eq!(get_journal_entry_by_id(&store, t, e.id).unwrap().id, e.id);
    assert!(get_journal_entry_by_id(&store, t + 1, e.id).unwrap_err().is_not_found());
    assert!(delete_journal_entry(&mut store, t + 1, e.id).unwrap_err().is_not_found());
    assert_eq!(store.journal_entries.len(), 1);
    delete_journal_entry(&mut store, t, e.id).unwrap();
    assert!(store.journal_entries.is_empty());
    assert!(delete_journal_entry(&mut store, t, e.id).unwrap_err().is_not_found());
}

#[test]
fn transaction_update_is_sparse_and_checked() {
    let (mut store, t, _, tx) = setup();
    let before = store.transactions.clone();
    // Empty patch: rejected, untouched.
    let err = update_transaction(
        &mut store,
        t,
        tx,
        ACTOR,
        NOW + 1,
        UpdateTransactionDto {
            transaction_date: None,
            description: None,
            transaction_type: None,
            category_id: None,
            tags: None,
            amount: None,
            currency_code: None,
            is_reconciled: None,
            reconciliation_date: None,
            notes: None,
            source_document_url: None,
        },
    )
    .unwrap_err();
    assert!(err.is_validation());
    assert_eq!(store.transactions, before);
    // An unresolvable category reference is Validation.
    let err = update_transaction(
        &mut store,
        t,
        tx,
        ACTOR,
        NOW + 1,
        UpdateTransactionDto {
            transaction_date: None,
            description: None,
            transaction_type: None,
            category_id: Some(31_337),
            tags: None,
            amount: None,
            currency_code: None,
            is_reconciled: None,
            reconciliation_date: None,
            notes: None,
            source_document_url: None,
        },
    )
    .unwrap_err();
    assert!(err.is_validation());
    // A real sparse update moves the named fields and the stamp, nothing else.
    let patched = update_transaction(
        &mut store,
        t,
        tx,
        99,
        NOW + 2,
        UpdateTransactionDto {
            transaction_date: None,
            description: Some("Adjusted".to_string()),
            transaction_type: None,
            category_id: None,
            tags: Some(vec![7, 8]),
            amount: None,
            currency_code: None,
            is_reconciled: Some(true),
            reconciliation_date: Some(44),
            notes: None,
            source_document_url: None,
        },
    )
    .unwrap();
    assert_eq!(patched.description, "Adjusted");
    assert_eq!(patched.tags.as_deref(), Some(&[7, 8][..]));
    assert!(patched.is_reconciled);
    assert_eq!(patched.reconciliation_date, Some(44));
    assert_eq!(patched.amount, 1_000);
    assert_eq!(patched.transaction_type, TransactionType::OpeningBalance);
    assert_eq!(patched.updated_by, 99);
    assert_eq!(patched.updated_at, NOW + 2);
    assert_eq!(patched.created_at, NOW);
}

#[test]
fn transaction_update_of_foreign_rows_is_not_found() {
    let (mut store, t, _, tx) = setup();
    let err = update_transaction(
        &mut store,
        t + 1,
        tx,
        ACTOR,
        NOW + 1,
        UpdateTransactionDto {
            transaction_date: None,
            description: Some("X".to_string()),
            transaction_type: None,
            category_id: None,
            tags: None,
            amount: None,
            currency_code: None,
            is_reconciled: None,
            reconciliation_date: None,
            notes: None,
            source_document_url: None,
        },
    )
    .unwrap_err();
    assert!(err.is_not_found());
    assert_eq!(store.transactions[0].description, "Seed");
}

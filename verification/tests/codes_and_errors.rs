//! The persisted string codes with their two-way mapping, the decimal
//! identifier rendering used in messages, and the error kinds' status codes.

use ledger::codes::{AccountNormalBalance, CategoryType, JournalEntryType, TransactionType};
use ledger::error::AppError;
use ledger::strutil::{dec_string, str_eq};

#[test]
fn codes_round_trip_for_every_variant() {
    for v in [AccountNormalBalance::DEBIT, AccountNormalBalance::CREDIT] {
        assert_eq!(AccountNormalBalance::from_str(v.code().as_str()), Some(v));
    }
    for v in [
        CategoryType::Income,
        CategoryType::Expense,
        CategoryType::Transfer,
        CategoryType::Investment,
        CategoryType::Other,
    ] {
        assert_eq!(CategoryType::from_str(v.code().as_str()), Some(v));
    }
    for v in [JournalEntryType::Debit, JournalEntryType::Credit] {
        assert_eq!(JournalEntryType::from_str(v.code().as_str()), Some(v));
    }
    for v in [
        TransactionType::Income,
        TransactionType::Expense,
        TransactionType::Transfer,
        TransactionType::JournalEntry,
        TransactionType::OpeningBalance,
        TransactionType::Adjustment,
    ] {
        assert_eq!(TransactionType::from_str(v.code().as_str()), Some(v));
    }
}

#[test]
fn exact_code_strings() {
    assert_eq!(AccountNormalBalance::DEBIT.code(), "DEBIT");
    assert_eq!(CategoryType::Investment.code(), "INVESTMENT");
    assert_eq!(JournalEntryType::Credit.code(), "CREDIT");
    assert_eq!(TransactionType::JournalEntry.code(), "JOURNAL_ENTRY");
    assert_eq!(TransactionType::OpeningBalance.code(), "OPENING_BALANCE");
}

#[test]
fn unknown_codes_fail_decoding_explicitly() {
    assert_eq!(AccountNormalBalance::from_str("debit"), None);
    assert_eq!(CategoryType::from_str(""), None);
    assert_eq!(JournalEntryType::from_str("BOTH"), None);
    assert_eq!(TransactionType::from_str("JOURNALENTRY"), None);
}

#[test]
fn decimal_rendering_is_exact() {
    assert_eq!(dec_string(0), "0");
    assert_eq!(dec_string(7), "7");
    assert_eq!(dec_string(10), "10");
    assert_eq!(dec_string(105), "105");
    assert_eq!(dec_string(340_282_366_920_938_463_463_374_607_431_768_211_455), "340282366920938463463374607431768211455");
}

#[test]
fn string_comparison_is_character_exact() {
    assert!(str_eq("", ""));
    assert!(str_eq("abc", "abc"));
    assert!(!str_eq("abc", "abd"));
    assert!(!str_eq("abc", "ab"));
    assert!(str_eq("naïve", "naïve"));
    assert!(!str_eq("naïve", "naive"));
}

#[test]
fn error_kinds_map_to_their_statuses() {
    let db = AppError::DatabaseError("boom".to_string());
    let nf = AppError::NotFound("gone".to_string());
    let va = AppError::Validation("bad".to_string());
    let ise = AppError::InternalServerError("oops".to_string());
    assert_eq!(db.status_code(), 500);
    assert_eq!(nf.status_code(), 404);
    assert_eq!(va.status_code(), 400);
    assert_eq!(ise.status_code(), 500);
    assert!(db.is_database_error());
    assert!(nf.is_not_found());
    assert!(va.is_validation());
    assert!(ise.is_internal_server_error());
    assert_eq!(nf.message().as_str(), "gone");
}

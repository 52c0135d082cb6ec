//! The request shapes and the validation layer: per-field constraints on
//! create and update requests, mirrored exactly by a `valid` specification on
//! each shape. Update shapes are sparse patches — every field optional — and
//! each also tells whether it carries no field at all.
//!
//! String lengths are counted in characters. Monetary fields carry the limits
//! of their fixed-point columns: amounts at most [`MAX_AMOUNT_UNITS`]
//! hundredths, rates at most [`MAX_RATE_UNITS`] millionths.

use vstd::prelude::*;
use crate::codes::{AccountNormalBalance, CategoryType, JournalEntryType, TransactionType};

verus! {

/// The smallest amount a transaction may carry: one hundredth of a unit.
pub const MIN_AMOUNT_UNITS: i64 = 1;

/// The largest amount a fixed-point column of eighteen digits can hold,
/// in hundredths of a currency unit.
pub const MAX_AMOUNT_UNITS: i64 = 999_999_999_999_999_999;

/// The smallest exchange rate: one millionth.
pub const MIN_RATE_UNITS: i64 = 1;

/// The largest exchange rate the fixed-point column can hold, in millionths.
pub const MAX_RATE_UNITS: i64 = 999_999_999_999_999_999;

/// Whether a string's character count lies within the closed range.
pub open spec fn len_in(s: Seq<char>, lo: int, hi: int) -> bool {
    lo <= s.len() <= hi
}

/// The length constraint applied only when the optional field is present.
pub open spec fn opt_len_in(o: Option<String>, lo: int, hi: int) -> bool {
    o is Some ==> len_in(o->0@, lo, hi)
}

/// Whether a string holds what the email collaborator accepts as an address.
pub uninterp spec fn is_valid_email(s: Seq<char>) -> bool;

/// Relies on validator's `ValidateEmail` for `&str`: the verdict is a function
/// of the characters alone, and an empty string is never accepted.
#[verifier::external_body]
pub(crate) fn check_email(s: &str) -> (r: bool)
    ensures
        r == is_valid_email(s@),
        s@.len() == 0 ==> !r,
{
    validator::ValidateEmail::validate_email(&s)
}

fn str_len_in(s: &str, lo: usize, hi: usize) -> (r: bool)
    ensures
        r == len_in(s@, lo as int, hi as int),
{
    let n = s.unicode_len();
    lo <= n && n <= hi
}

fn opt_str_len_in(o: &Option<String>, lo: usize, hi: usize) -> (r: bool)
    ensures
        r == opt_len_in(*o, lo as int, hi as int),
{
    match o {
        None => true,
        Some(s) => str_len_in(s.as_str(), lo, hi),
    }
}

/// Request to create a tenant.
#[derive(Debug, PartialEq)]
pub struct CreateTenantDto {
    pub name: String,
    pub industry: Option<String>,
    pub base_currency_code: String,
    pub fiscal_year_end_month: i32,
}

impl CreateTenantDto {
    pub open spec fn valid(self) -> bool {
        &&& len_in(self.name@, 1, 255)
        &&& opt_len_in(self.industry, 0, 100)
        &&& self.base_currency_code@.len() == 3
        &&& 1 <= self.fiscal_year_end_month <= 12
    }

    pub fn validate(&self) -> (r: bool)
        ensures
            r == self.valid(),
    {
        str_len_in(self.name.as_str(), 1, 255) && opt_str_len_in(&self.industry, 0, 100)
            && self.base_currency_code.as_str().unicode_len() == 3
            && 1 <= self.fiscal_year_end_month && self.fiscal_year_end_month <= 12
    }
}

/// Sparse update of a tenant.
#[derive(Debug, PartialEq)]
pub struct UpdateTenantDto {
    pub name: Option<String>,
    pub industry: Option<String>,
    pub base_currency_code: Option<String>,
    pub fiscal_year_end_month: Option<i32>,
    pub is_active: Option<bool>,
}

impl UpdateTenantDto {
    pub open spec fn is_empty(self) -> bool {
        &&& self.name is None
        &&& self.industry is None
        &&& self.base_currency_code is None
        &&& self.fiscal_year_end_month is None
        &&& self.is_active is None
    }

    pub open spec fn valid(self) -> bool {
        &&& opt_len_in(self.name, 1, 255)
        &&& opt_len_in(self.industry, 0, 100)
        &&& (self.base_currency_code is Some ==> self.base_currency_code->0@.len() == 3)
        &&& (self.fiscal_year_end_month is Some ==> 1 <= self.fiscal_year_end_month->0 <= 12)
    }

    pub fn no_fields(&self) -> (r: bool)
        ensures
            r == self.is_empty(),
    {
        self.name.is_none() && self.industry.is_none() && self.base_currency_code.is_none()
            && self.fiscal_year_end_month.is_none() && self.is_active.is_none()
    }

    pub fn validate(&self) -> (r: bool)
        ensures
            r == self.valid(),
    {
        opt_str_len_in(&self.name, 1, 255) && opt_str_len_in(&self.industry, 0, 100) && (match &self.base_currency_code {
            None => true,
            Some(c) => c.as_str().unicode_len() == 3,
        }) && (match &self.fiscal_year_end_month {
            None => true,
            Some(m) => 1 <= *m && *m <= 12,
        })
    }
}

/// Request to create a currency.
#[derive(Debug, PartialEq)]
pub struct CreateCurrencyDto {
    pub code: String,
    pub name: String,
    pub symbol: Option<String>,
}

impl CreateCurrencyDto {
    pub open spec fn valid(self) -> bool {
        &&& self.code@.len() == 3
        &&& len_in(self.name@, 1, 100)
        &&& opt_len_in(self.symbol, 0, 10)
    }

    pub fn validate(&self) -> (r: bool)
        ensures
            r == self.valid(),
    {
        self.code.as_str().unicode_len() == 3 && str_len_in(self.name.as_str(), 1, 100)
            && opt_str_len_in(&self.symbol, 0, 10)
    }
}

/// Sparse update of a currency.
#[derive(Debug, PartialEq)]
pub struct UpdateCurrencyDto {
    pub name: Option<String>,
    pub symbol: Option<String>,
    pub is_active: Option<bool>,
}

impl UpdateCurrencyDto {
    pub open spec fn is_empty(self) -> bool {
        &&& self.name is None
        &&& self.symbol is None
        &&& self.is_active is None
    }

    pub open spec fn valid(self) -> bool {
        &&& opt_len_in(self.name, 1, 100)
        &&& opt_len_in(self.symbol, 0, 10)
    }

    pub fn no_fields(&self) -> (r: bool)
        ensures
            r == self.is_empty(),
    {
        self.name.is_none() && self.symbol.is_none() && self.is_active.is_none()
    }

    pub fn validate(&self) -> (r: bool)
        ensures
            r == self.valid(),
    {
        opt_str_len_in(&self.name, 1, 100) && opt_str_len_in(&self.symbol, 0, 10)
    }
}

/// Request to create an account type.
#[derive(Debug, PartialEq)]
pub struct CreateAccountTypeDto {
    pub name: String,
    pub normal_balance: AccountNormalBalance,
}

impl CreateAccountTypeDto {
    pub open spec fn valid(self) -> bool {
        len_in(self.name@, 1, 100)
    }

    pub fn validate(&self) -> (r: bool)
        ensures
            r == self.valid(),
    {
        str_len_in(self.name.as_str(), 1, 100)
    }
}

/// Sparse update of an account type.
#[derive(Debug, PartialEq)]
pub struct UpdateAccountTypeDto {
    pub name: Option<String>,
    pub normal_balance: Option<AccountNormalBalance>,
    pub is_active: Option<bool>,
}

impl UpdateAccountTypeDto {
    pub open spec fn is_empty(self) -> bool {
        &&& self.name is None
        &&& self.normal_balance is None
        &&& self.is_active is None
    }

    pub open spec fn valid(self) -> bool {
        opt_len_in(self.name, 1, 100)
    }

    pub fn no_fields(&self) -> (r: bool)
        ensures
            r == self.is_empty(),
    {
        self.name.is_none() && self.normal_balance.is_none() && self.is_active.is_none()
    }

    pub fn validate(&self) -> (r: bool)
        ensures
            r == self.valid(),
    {
        opt_str_len_in(&self.name, 1, 100)
    }
}

/// Request to create an account under a tenant.
#[derive(Debug, PartialEq)]
pub struct CreateAccountDto {
    pub account_type_id: u128,
    pub name: String,
    pub account_code: Option<String>,
    pub description: Option<String>,
    pub currency_code: String,
}

impl CreateAccountDto {
    pub open spec fn valid(self) -> bool {
        &&& len_in(self.name@, 1, 255)
        &&& opt_len_in(self.account_code, 0, 50)
        &&& self.currency_code@.len() == 3
    }

    pub fn validate(&self) -> (r: bool)
        ensures
            r == self.valid(),
    {
        str_len_in(self.name.as_str(), 1, 255) && opt_str_len_in(&self.account_code, 0, 50)
            && self.currency_code.as_str().unicode_len() == 3
    }
}

/// Sparse update of an account.
#[derive(Debug, PartialEq)]
pub struct UpdateAccountDto {
    pub account_type_id: Option<u128>,
    pub name: Option<String>,
    pub account_code: Option<String>,
    pub description: Option<String>,
    pub currency_code: Option<String>,
    pub is_active: Option<bool>,
}

impl UpdateAccountDto {
    pub open spec fn is_empty(self) -> bool {
        &&& self.account_type_id is None
        &&& self.name is None
        &&& self.account_code is None
        &&& self.description is None
        &&& self.currency_code is None
        &&& self.is_active is None
    }

    pub open spec fn valid(self) -> bool {
        &&& opt_len_in(self.name, 1, 255)
        &&& opt_len_in(self.account_code, 0, 50)
        &&& (self.currency_code is Some ==> self.currency_code->0@.len() == 3)
    }

    pub fn no_fields(&self) -> (r: bool)
        ensures
            r == self.is_empty(),
    {
        self.account_type_id.is_none() && self.name.is_none() && self.account_code.is_none()
            && self.description.is_none() && self.currency_code.is_none()
            && self.is_active.is_none()
    }

    pub fn validate(&self) -> (r: bool)
        ensures
            r == self.valid(),
    {
        opt_str_len_in(&self.name, 1, 255) && opt_str_len_in(&self.account_code, 0, 50) && (match &self.currency_code {
            None => true,
            Some(c) => c.as_str().unicode_len() == 3,
        })
    }
}

/// Request to create a category under a tenant.
#[derive(Debug, PartialEq)]
pub struct CreateCategoryDto {
    pub name: String,
    pub description: Option<String>,
    pub category_type: CategoryType,
    pub parent_category_id: Option<u128>,
}

impl CreateCategoryDto {
    pub open spec fn valid(self) -> bool {
        len_in(self.name@, 1, 255)
    }

    pub fn validate(&self) -> (r: bool)
        ensures
            r == self.valid(),
    {
        str_len_in(self.name.as_str(), 1, 255)
    }
}

/// Sparse update of a category.
#[derive(Debug, PartialEq)]
pub struct UpdateCategoryDto {
    pub name: Option<String>,
    pub description: Option<String>,
    pub category_type: Option<CategoryType>,
    pub parent_category_id: Option<u128>,
    pub is_active: Option<bool>,
}

impl UpdateCategoryDto {
    pub open spec fn is_empty(self) -> bool {
        &&& self.name is None
        &&& self.description is None
        &&& self.category_type is None
        &&& self.parent_category_id is None
        &&& self.is_active is None
    }

    pub open spec fn valid(self) -> bool {
        opt_len_in(self.name, 1, 255)
    }

    pub fn no_fields(&self) -> (r: bool)
        ensures
            r == self.is_empty(),
    {
        self.name.is_none() && self.description.is_none() && self.category_type.is_none()
            && self.parent_category_id.is_none() && self.is_active.is_none()
    }

    pub fn validate(&self) -> (r: bool)
        ensures
            r == self.valid(),
    {
        opt_str_len_in(&self.name, 1, 255)
    }
}

/// Request to create a tag under a tenant.
#[derive(Debug, PartialEq)]
pub struct CreateTagDto {
    pub name: String,
    pub description: Option<String>,
}

impl CreateTagDto {
    pub open spec fn valid(self) -> bool {
        len_in(self.name@, 1, 255)
    }

    pub fn validate(&self) -> (r: bool)
        ensures
            r == self.valid(),
    {
        str_len_in(self.name.as_str(), 1, 255)
    }
}

/// Sparse update of a tag.
#[derive(Debug, PartialEq)]
pub struct UpdateTagDto {
    pub name: Option<String>,
    pub description: Option<String>,
    pub is_active: Option<bool>,
}

impl UpdateTagDto {
    pub open spec fn is_empty(self) -> bool {
        &&& self.name is None
        &&& self.description is None
        &&& self.is_active is None
    }

    pub open spec fn valid(self) -> bool {
        opt_len_in(self.name, 1, 255)
    }

    pub fn no_fields(&self) -> (r: bool)
        ensures
            r == self.is_empty(),
    {
        self.name.is_none() && self.description.is_none() && self.is_active.is_none()
    }

    pub fn validate(&self) -> (r: bool)
        ensures
            r == self.valid(),
    {
        opt_str_len_in(&self.name, 1, 255)
    }
}

/// One journal-entry leg inside a transaction creation request.
#[derive(Debug, PartialEq)]
pub struct CreateJournalEntryDto {
    pub account_id: u128,
    pub entry_type: JournalEntryType,
    pub amount: i64,
    pub currency_code: String,
    pub exchange_rate: Option<i64>,
    pub converted_amount: Option<i64>,
    pub memo: Option<String>,
}

impl CreateJournalEntryDto {
    /// A leg carries a non-negative amount within the column limit and a
    /// three-letter currency code.
    pub open spec fn valid(self) -> bool {
        &&& 0 <= self.amount <= MAX_AMOUNT_UNITS
        &&& self.currency_code@.len() == 3
    }

    pub fn validate(&self) -> (r: bool)
        ensures
            r == self.valid(),
    {
        0 <= self.amount && self.amount <= MAX_AMOUNT_UNITS
            && self.currency_code.as_str().unicode_len() == 3
    }
}

/// Sparse update of a journal entry. Only the memo, the exchange rate and the
/// converted amount can be patched: the financial core of a posted entry is
/// changed through adjusting entries, not edited in place.
#[derive(Debug, PartialEq)]
pub struct UpdateJournalEntryDto {
    pub account_id: Option<u128>,
    pub entry_type: Option<JournalEntryType>,
    pub amount: Option<i64>,
    pub currency_code: Option<String>,
    pub exchange_rate: Option<i64>,
    pub converted_amount: Option<i64>,
    pub memo: Option<String>,
}

impl UpdateJournalEntryDto {
    /// Whether the patch carries none of the fields that can be applied.
    pub open spec fn is_empty(self) -> bool {
        &&& self.memo is None
        &&& self.exchange_rate is None
        &&& self.converted_amount is None
    }

    pub fn no_fields(&self) -> (r: bool)
        ensures
            r == self.is_empty(),
    {
        self.memo.is_none() && self.exchange_rate.is_none() && self.converted_amount.is_none()
    }
}

/// Request to create a transaction together with its journal entries.
#[derive(Debug, PartialEq)]
pub struct CreateTransactionDto {
    pub transaction_date: i64,
    pub description: String,
    pub transaction_type: TransactionType,
    pub category_id: Option<u128>,
    pub tags: Option<Vec<u128>>,
    pub amount: i64,
    pub currency_code: String,
    pub is_reconciled: Option<bool>,
    pub reconciliation_date: Option<i64>,
    pub notes: Option<String>,
    pub source_document_url: Option<String>,
    pub journal_entries: Vec<CreateJournalEntryDto>,
}

impl CreateTransactionDto {
    /// The description is non-empty, the amount positive and within the
    /// column limit, the currency code three letters, and every journal-entry
    /// leg valid on its own.
    pub open spec fn valid(self) -> bool {
        &&& self.description@.len() >= 1
        &&& MIN_AMOUNT_UNITS <= self.amount <= MAX_AMOUNT_UNITS
        &&& self.currency_code@.len() == 3
        &&& forall|k: int|
            0 <= k < self.journal_entries@.len() ==> (#[trigger] self.journal_entries@[k]).valid()
    }

    pub fn validate(&self) -> (r: bool)
        ensures
            r == self.valid(),
    {
        if self.description.as_str().unicode_len() < 1 {
            return false;
        }
        if !(MIN_AMOUNT_UNITS <= self.amount && self.amount <= MAX_AMOUNT_UNITS) {
            return false;
        }
        if self.currency_code.as_str().unicode_len() != 3 {
            return false;
        }
        let mut k: usize = 0;
        while k < self.journal_entries.len()
            invariant
                0 <= k <= self.journal_entries@.len(),
                forall|j: int| 0 <= j < k ==> (#[trigger] self.journal_entries@[j]).valid(),
            decreases self.journal_entries@.len() - k,
        {
            if !self.journal_entries[k].validate() {
                return false;
            }
            k += 1;
        }
        true
    }
}

/// Sparse update of a transaction's metadata.
#[derive(Debug, PartialEq)]
pub struct UpdateTransactionDto {
    pub transaction_date: Option<i64>,
    pub description: Option<String>,
    pub transaction_type: Option<TransactionType>,
    pub category_id: Option<u128>,
    pub tags: Option<Vec<u128>>,
    pub amount: Option<i64>,
    pub currency_code: Option<String>,
    pub is_reconciled: Option<bool>,
    pub reconciliation_date: Option<i64>,
    pub notes: Option<String>,
    pub source_document_url: Option<String>,
}

impl UpdateTransactionDto {
    pub open spec fn is_empty(self) -> bool {
        &&& self.transaction_date is None
        &&& self.description is None
        &&& self.transaction_type is None
        &&& self.category_id is None
        &&& self.tags is None
        &&& self.amount is None
        &&& self.currency_code is None
        &&& self.is_reconciled is None
        &&& self.reconciliation_date is None
        &&& self.notes is None
        &&& self.source_document_url is None
    }

    pub open spec fn valid(self) -> bool {
        &&& (self.amount is Some ==> MIN_AMOUNT_UNITS <= self.amount->0 <= MAX_AMOUNT_UNITS)
        &&& (self.currency_code is Some ==> self.currency_code->0@.len() == 3)
    }

    pub fn no_fields(&self) -> (r: bool)
        ensures
            r == self.is_empty(),
    {
        self.transaction_date.is_none() && self.description.is_none()
            && self.transaction_type.is_none() && self.category_id.is_none()
            && self.tags.is_none() && self.amount.is_none() && self.currency_code.is_none()
            && self.is_reconciled.is_none() && self.reconciliation_date.is_none()
            && self.notes.is_none() && self.source_document_url.is_none()
    }

    pub fn validate(&self) -> (r: bool)
        ensures
            r == self.valid(),
    {
        (match &self.amount {
            None => true,
            Some(a) => MIN_AMOUNT_UNITS <= *a && *a <= MAX_AMOUNT_UNITS,
        }) && (match &self.currency_code {
            None => true,
            Some(c) => c.as_str().unicode_len() == 3,
        })
    }
}

/// Request to create an exchange rate, system-wide when no tenant is given.
#[derive(Debug, PartialEq)]
pub struct CreateExchangeRateDto {
    pub tenant_id: Option<u128>,
    pub base_currency_code: String,
    pub target_currency_code: String,
    pub rate: i64,
    pub rate_date: i64,
    pub source: Option<String>,
}

impl CreateExchangeRateDto {
    pub open spec fn valid(self) -> bool {
        &&& self.base_currency_code@.len() == 3
        &&& self.target_currency_code@.len() == 3
        &&& MIN_RATE_UNITS <= self.rate <= MAX_RATE_UNITS
        &&& opt_len_in(self.source, 0, 100)
    }

    pub fn validate(&self) -> (r: bool)
        ensures
            r == self.valid(),
    {
        self.base_currency_code.as_str().unicode_len() == 3
            && self.target_currency_code.as_str().unicode_len() == 3
            && MIN_RATE_UNITS <= self.rate && self.rate <= MAX_RATE_UNITS
            && opt_str_len_in(&self.source, 0, 100)
    }
}

/// Sparse update of an exchange rate.
#[derive(Debug, PartialEq)]
pub struct UpdateExchangeRateDto {
    pub rate: Option<i64>,
    pub rate_date: Option<i64>,
    pub source: Option<String>,
}

impl UpdateExchangeRateDto {
    pub open spec fn is_empty(self) -> bool {
        &&& self.rate is None
        &&& self.rate_date is None
        &&& self.source is None
    }

    pub open spec fn valid(self) -> bool {
        &&& (self.rate is Some ==> MIN_RATE_UNITS <= self.rate->0 <= MAX_RATE_UNITS)
        &&& opt_len_in(self.source, 0, 100)
    }

    pub fn no_fields(&self) -> (r: bool)
        ensures
            r == self.is_empty(),
    {
        self.rate.is_none() && self.rate_date.is_none() && self.source.is_none()
    }

    pub fn validate(&self) -> (r: bool)
        ensures
            r == self.valid(),
    {
        (match &self.rate {
            None => true,
            Some(x) => MIN_RATE_UNITS <= *x && *x <= MAX_RATE_UNITS,
        }) && opt_str_len_in(&self.source, 0, 100)
    }
}

/// Request to create a budget under a tenant.
#[derive(Debug, PartialEq)]
pub struct CreateBudgetDto {
    pub name: String,
    pub start_date: i64,
    pub end_date: i64,
    pub currency_code: String,
}

impl CreateBudgetDto {
    pub open spec fn valid(self) -> bool {
        &&& len_in(self.name@, 1, 255)
        &&& self.currency_code@.len() == 3
    }

    pub fn validate(&self) -> (r: bool)
        ensures
            r == self.valid(),
    {
        str_len_in(self.name.as_str(), 1, 255) && self.currency_code.as_str().unicode_len() == 3
    }
}

/// Sparse update of a budget.
#[derive(Debug, PartialEq)]
pub struct UpdateBudgetDto {
    pub name: Option<String>,
    pub start_date: Option<i64>,
    pub end_date: Option<i64>,
    pub currency_code: Option<String>,
    pub is_active: Option<bool>,
}

impl UpdateBudgetDto {
    pub open spec fn is_empty(self) -> bool {
        &&& self.name is None
        &&& self.start_date is None
        &&& self.end_date is None
        &&& self.currency_code is None
        &&& self.is_active is None
    }

    pub open spec fn valid(self) -> bool {
        &&& opt_len_in(self.name, 1, 255)
        &&& (self.currency_code is Some ==> self.currency_code->0@.len() == 3)
    }

    pub fn no_fields(&self) -> (r: bool)
        ensures
            r == self.is_empty(),
    {
        self.name.is_none() && self.start_date.is_none() && self.end_date.is_none()
            && self.currency_code.is_none() && self.is_active.is_none()
    }

    pub fn validate(&self) -> (r: bool)
        ensures
            r == self.valid(),
    {
        opt_str_len_in(&self.name, 1, 255) && (match &self.currency_code {
            None => true,
            Some(c) => c.as_str().unicode_len() == 3,
        })
    }
}

/// Request to create a budget line item inside a budget.
#[derive(Debug, PartialEq)]
pub struct CreateBudgetLineItemDto {
    pub category_id: Option<u128>,
    pub account_id: Option<u128>,
    pub budgeted_amount: i64,
}

impl CreateBudgetLineItemDto {
    pub open spec fn valid(self) -> bool {
        0 <= self.budgeted_amount <= MAX_AMOUNT_UNITS
    }

    pub fn validate(&self) -> (r: bool)
        ensures
            r == self.valid(),
    {
        0 <= self.budgeted_amount && self.budgeted_amount <= MAX_AMOUNT_UNITS
    }
}

/// Sparse update of a budget line item.
#[derive(Debug, PartialEq)]
pub struct UpdateBudgetLineItemDto {
    pub category_id: Option<u128>,
    pub account_id: Option<u128>,
    pub budgeted_amount: Option<i64>,
    pub is_active: Option<bool>,
}

impl UpdateBudgetLineItemDto {
    pub open spec fn is_empty(self) -> bool {
        &&& self.category_id is None
        &&& self.account_id is None
        &&& self.budgeted_amount is None
        &&& self.is_active is None
    }

    pub open spec fn valid(self) -> bool {
        self.budgeted_amount is Some ==> 0 <= self.budgeted_amount->0 <= MAX_AMOUNT_UNITS
    }

    pub fn no_fields(&self) -> (r: bool)
        ensures
            r == self.is_empty(),
    {
        self.category_id.is_none() && self.account_id.is_none() && self.budgeted_amount.is_none()
            && self.is_active.is_none()
    }

    pub fn validate(&self) -> (r: bool)
        ensures
            r == self.valid(),
    {
        match &self.budgeted_amount {
            None => true,
            Some(a) => 0 <= *a && *a <= MAX_AMOUNT_UNITS,
        }
    }
}

/// Request to register a user, as the user service takes it.
#[derive(Debug, PartialEq)]
pub struct CreateUserRequest {
    pub auth_provider_id: String,
    pub auth_provider_type: String,
    pub email: String,
    pub password: Option<String>,
    pub first_name: String,
    pub last_name: String,
}

impl CreateUserRequest {
    pub open spec fn valid(self) -> bool {
        &&& is_valid_email(self.email@)
        &&& self.first_name@.len() >= 2
        &&& self.last_name@.len() >= 2
    }

    pub fn validate(&self) -> (r: bool)
        ensures
            r == self.valid(),
    {
        check_email(self.email.as_str()) && self.first_name.as_str().unicode_len() >= 2
            && self.last_name.as_str().unicode_len() >= 2
    }
}

/// Sparse update of a user, as the user service takes it.
#[derive(Debug, PartialEq)]
pub struct UpdateUserRequest {
    pub email: Option<String>,
    pub password: Option<String>,
    pub first_name: Option<String>,
    pub last_name: Option<String>,
}

impl UpdateUserRequest {
    pub open spec fn is_empty(self) -> bool {
        &&& self.email is None
        &&& self.password is None
        &&& self.first_name is None
        &&& self.last_name is None
    }

    pub open spec fn valid(self) -> bool {
        &&& (self.email is Some ==> is_valid_email(self.email->0@))
        &&& (self.first_name is Some ==> self.first_name->0@.len() >= 2)
        &&& (self.last_name is Some ==> self.last_name->0@.len() >= 2)
    }

    pub fn no_fields(&self) -> (r: bool)
        ensures
            r == self.is_empty(),
    {
        self.email.is_none() && self.password.is_none() && self.first_name.is_none()
            && self.last_name.is_none()
    }

    pub fn validate(&self) -> (r: bool)
        ensures
            r == self.valid(),
    {
        (match &self.email {
            None => true,
            Some(e) => check_email(e.as_str()),
        }) && (match &self.first_name {
            None => true,
            Some(n) => n.as_str().unicode_len() >= 2,
        }) && (match &self.last_name {
            None => true,
            Some(n) => n.as_str().unicode_len() >= 2,
        })
    }
}

/// Alternative user-creation shape exposed by the data-transfer layer, with
/// tighter per-field bounds.
#[derive(Debug, PartialEq)]
pub struct CreateUserDto {
    pub auth_provider_id: String,
    pub auth_provider_type: String,
    pub email: String,
    pub password: Option<String>,
    pub first_name: String,
    pub last_name: String,
}

impl CreateUserDto {
    pub open spec fn valid(self) -> bool {
        &&& len_in(self.auth_provider_id@, 1, 255)
        &&& len_in(self.auth_provider_type@, 1, 50)
        &&& is_valid_email(self.email@)
        &&& (self.password is Some ==> self.password->0@.len() >= 8)
        &&& len_in(self.first_name@, 1, 100)
        &&& len_in(self.last_name@, 1, 100)
    }

    pub fn validate(&self) -> (r: bool)
        ensures
            r == self.valid(),
    {
        str_len_in(self.auth_provider_id.as_str(), 1, 255)
            && str_len_in(self.auth_provider_type.as_str(), 1, 50)
            && check_email(self.email.as_str()) && (match &self.password {
            None => true,
            Some(p) => p.as_str().unicode_len() >= 8,
        }) && str_len_in(self.first_name.as_str(), 1, 100)
            && str_len_in(self.last_name.as_str(), 1, 100)
    }
}

/// Alternative sparse user update exposed by the data-transfer layer.
#[derive(Debug, PartialEq)]
pub struct UpdateUserDto {
    pub auth_provider_id: Option<String>,
    pub auth_provider_type: Option<String>,
    pub email: Option<String>,
    pub password: Option<String>,
    pub first_name: Option<String>,
    pub last_name: Option<String>,
    pub is_active: Option<bool>,
}

impl UpdateUserDto {
    pub open spec fn valid(self) -> bool {
        &&& opt_len_in(self.auth_provider_id, 1, 255)
        &&& opt_len_in(self.auth_provider_type, 1, 50)
        &&& (self.email is Some ==> is_valid_email(self.email->0@))
        &&& (self.password is Some ==> self.password->0@.len() >= 8)
        &&& opt_len_in(self.first_name, 1, 100)
        &&& opt_len_in(self.last_name, 1, 100)
    }

    pub fn validate(&self) -> (r: bool)
        ensures
            r == self.valid(),
    {
        opt_str_len_in(&self.auth_provider_id, 1, 255)
            && opt_str_len_in(&self.auth_provider_type, 1, 50) && (match &self.email {
            None => true,
            Some(e) => check_email(e.as_str()),
        }) && (match &self.password {
            None => true,
            Some(p) => p.as_str().unicode_len() >= 8,
        }) && opt_str_len_in(&self.first_name, 1, 100) && opt_str_len_in(&self.last_name, 1, 100)
    }
}

} // verus!

//! The persisted entity rows. Identifiers are integers assigned by the store,
//! instants are microseconds since the epoch, calendar dates are day numbers,
//! and monetary values are fixed-point integers: hundredths of a currency unit
//! for amounts, millionths for exchange rates. Nothing here is a float.

use vstd::prelude::*;
use crate::codes::{AccountNormalBalance, CategoryType, JournalEntryType, TransactionType};
use crate::strutil::{clone_opt_string, clone_ids};

verus! {

/// An isolated customer scope; every ledger row below belongs to one tenant.
#[derive(Debug, PartialEq)]
pub struct Tenant {
    pub id: u128,
    pub name: String,
    pub industry: Option<String>,
    pub base_currency_code: String,
    pub fiscal_year_end_month: i32,
    pub is_active: bool,
    pub created_at: i64,
    pub created_by: u128,
    pub updated_at: i64,
    pub updated_by: u128,
}

impl Clone for Tenant {
    fn clone(&self) -> (res: Self)
        ensures
            res == *self,
    {
        Tenant {
            id: self.id,
            name: self.name.clone(),
            industry: clone_opt_string(&self.industry),
            base_currency_code: self.base_currency_code.clone(),
            fiscal_year_end_month: self.fiscal_year_end_month,
            is_active: self.is_active,
            created_at: self.created_at,
            created_by: self.created_by,
            updated_at: self.updated_at,
            updated_by: self.updated_by,
        }
    }
}

/// A currency, keyed by its three-letter code. Not tenant-scoped.
#[derive(Debug, PartialEq)]
pub struct Currency {
    pub code: String,
    pub name: String,
    pub symbol: Option<String>,
    pub is_active: bool,
    pub created_at: i64,
    pub created_by: u128,
    pub updated_at: i64,
    pub updated_by: u128,
}

impl Clone for Currency {
    fn clone(&self) -> (res: Self)
        ensures
            res == *self,
    {
        Currency {
            code: self.code.clone(),
            name: self.name.clone(),
            symbol: clone_opt_string(&self.symbol),
            is_active: self.is_active,
            created_at: self.created_at,
            created_by: self.created_by,
            updated_at: self.updated_at,
            updated_by: self.updated_by,
        }
    }
}

/// A kind of account, with the side on which its balance naturally grows.
/// Not tenant-scoped.
#[derive(Debug, PartialEq)]
pub struct AccountType {
    pub id: u128,
    pub name: String,
    pub normal_balance: AccountNormalBalance,
    pub is_active: bool,
    pub created_at: i64,
    pub created_by: u128,
    pub updated_at: i64,
    pub updated_by: u128,
}

impl Clone for AccountType {
    fn clone(&self) -> (res: Self)
        ensures
            res == *self,
    {
        AccountType {
            id: self.id,
            name: self.name.clone(),
            normal_balance: self.normal_balance,
            is_active: self.is_active,
            created_at: self.created_at,
            created_by: self.created_by,
            updated_at: self.updated_at,
            updated_by: self.updated_by,
        }
    }
}

/// A ledger account belonging to exactly one tenant.
#[derive(Debug, PartialEq)]
pub struct Account {
    pub id: u128,
    pub tenant_id: u128,
    pub account_type_id: u128,
    pub name: String,
    pub account_code: Option<String>,
    pub description: Option<String>,
    pub currency_code: String,
    pub is_active: bool,
    pub created_at: i64,
    pub created_by: u128,
    pub updated_at: i64,
    pub updated_by: u128,
}

impl Clone for Account {
    fn clone(&self) -> (res: Self)
        ensures
            res == *self,
    {
        Account {
            id: self.id,
            tenant_id: self.tenant_id,
            account_type_id: self.account_type_id,
            name: self.name.clone(),
            account_code: clone_opt_string(&self.account_code),
            description: clone_opt_string(&self.description),
            currency_code: self.currency_code.clone(),
            is_active: self.is_active,
            created_at: self.created_at,
            created_by: self.created_by,
            updated_at: self.updated_at,
            updated_by: self.updated_by,
        }
    }
}

/// A tenant-scoped category; the optional parent id forms a tree.
#[derive(Debug, PartialEq)]
pub struct Category {
    pub id: u128,
    pub tenant_id: u128,
    pub name: String,
    pub description: Option<String>,
    pub category_type: CategoryType,
    pub parent_category_id: Option<u128>,
    pub is_active: bool,
    pub created_at: i64,
    pub created_by: u128,
    pub updated_at: i64,
    pub updated_by: u128,
}

impl Clone for Category {
    fn clone(&self) -> (res: Self)
        ensures
            res == *self,
    {
        Category {
            id: self.id,
            tenant_id: self.tenant_id,
            name: self.name.clone(),
            description: clone_opt_string(&self.description),
            category_type: self.category_type,
            parent_category_id: self.parent_category_id,
            is_active: self.is_active,
            created_at: self.created_at,
            created_by: self.created_by,
            updated_at: self.updated_at,
            updated_by: self.updated_by,
        }
    }
}

/// A tenant-scoped label that transactions may reference.
#[derive(Debug, PartialEq)]
pub struct Tag {
    pub id: u128,
    pub tenant_id: u128,
    pub name: String,
    pub description: Option<String>,
    pub is_active: bool,
    pub created_at: i64,
    pub created_by: u128,
    pub updated_at: i64,
    pub updated_by: u128,
}

impl Clone for Tag {
    fn clone(&self) -> (res: Self)
        ensures
            res == *self,
    {
        Tag {
            id: self.id,
            tenant_id: self.tenant_id,
            name: self.name.clone(),
            description: clone_opt_string(&self.description),
            is_active: self.is_active,
            created_at: self.created_at,
            created_by: self.created_by,
            updated_at: self.updated_at,
            updated_by: self.updated_by,
        }
    }
}

/// A financial transaction; owns one-to-many journal entries.
#[derive(Debug, PartialEq)]
pub struct Transaction {
    pub id: u128,
    pub tenant_id: u128,
    pub transaction_date: i64,
    pub description: String,
    pub transaction_type: TransactionType,
    pub category_id: Option<u128>,
    pub tags: Option<Vec<u128>>,
    pub amount: i64,
    pub currency_code: String,
    pub is_reconciled: bool,
    pub reconciliation_date: Option<i64>,
    pub notes: Option<String>,
    pub source_document_url: Option<String>,
    pub created_at: i64,
    pub created_by: u128,
    pub updated_at: i64,
    pub updated_by: u128,
}

/// The observable contents of an optional tag-id list.
pub open spec fn tags_view(t: Option<Vec<u128>>) -> Option<Seq<u128>> {
    match t {
        None => None,
        Some(v) => Some(v@),
    }
}

/// Two transaction rows agree on every field; the tag lists are compared by
/// their contents.
pub open spec fn tx_equal(a: Transaction, b: Transaction) -> bool {
    &&& a.id == b.id
    &&& a.tenant_id == b.tenant_id
    &&& a.transaction_date == b.transaction_date
    &&& a.description == b.description
    &&& a.transaction_type == b.transaction_type
    &&& a.category_id == b.category_id
    &&& tags_view(a.tags) == tags_view(b.tags)
    &&& a.amount == b.amount
    &&& a.currency_code == b.currency_code
    &&& a.is_reconciled == b.is_reconciled
    &&& a.reconciliation_date == b.reconciliation_date
    &&& a.notes == b.notes
    &&& a.source_document_url == b.source_document_url
    &&& a.created_at == b.created_at
    &&& a.created_by == b.created_by
    &&& a.updated_at == b.updated_at
    &&& a.updated_by == b.updated_by
}

impl Clone for Transaction {
    fn clone(&self) -> (res: Self)
        ensures
            tx_equal(res, *self),
    {
        Transaction {
            id: self.id,
            tenant_id: self.tenant_id,
            transaction_date: self.transaction_date,
            description: self.description.clone(),
            transaction_type: self.transaction_type,
            category_id: self.category_id,
            tags: (match &self.tags {
                None => None,
                Some(v) => Some(clone_ids(v)),
            }),
            amount: self.amount,
            currency_code: self.currency_code.clone(),
            is_reconciled: self.is_reconciled,
            reconciliation_date: self.reconciliation_date,
            notes: clone_opt_string(&self.notes),
            source_document_url: clone_opt_string(&self.source_document_url),
            created_at: self.created_at,
            created_by: self.created_by,
            updated_at: self.updated_at,
            updated_by: self.updated_by,
        }
    }
}

/// One debit or credit leg of a transaction.
#[derive(Debug, PartialEq)]
pub struct JournalEntry {
    pub id: u128,
    pub transaction_id: u128,
    pub account_id: u128,
    pub entry_type: JournalEntryType,
    pub amount: i64,
    pub currency_code: String,
    pub exchange_rate: Option<i64>,
    pub converted_amount: Option<i64>,
    pub memo: Option<String>,
    pub created_at: i64,
    pub created_by: u128,
    pub updated_at: i64,
    pub updated_by: u128,
}

impl Clone for JournalEntry {
    fn clone(&self) -> (res: Self)
        ensures
            res == *self,
    {
        JournalEntry {
            id: self.id,
            transaction_id: self.transaction_id,
            account_id: self.account_id,
            entry_type: self.entry_type,
            amount: self.amount,
            currency_code: self.currency_code.clone(),
            exchange_rate: self.exchange_rate,
            converted_amount: self.converted_amount,
            memo: clone_opt_string(&self.memo),
            created_at: self.created_at,
            created_by: self.created_by,
            updated_at: self.updated_at,
            updated_by: self.updated_by,
        }
    }
}

/// A dated conversion rate between two currencies; system-wide when the
/// tenant id is absent. Historical: hard-deleted, never soft-deleted.
#[derive(Debug, PartialEq)]
pub struct ExchangeRate {
    pub id: u128,
    pub tenant_id: Option<u128>,
    pub base_currency_code: String,
    pub target_currency_code: String,
    pub rate: i64,
    pub rate_date: i64,
    pub source: Option<String>,
    pub created_at: i64,
    pub created_by: u128,
    pub updated_at: i64,
    pub updated_by: u128,
}

impl Clone for ExchangeRate {
    fn clone(&self) -> (res: Self)
        ensures
            res == *self,
    {
        ExchangeRate {
            id: self.id,
            tenant_id: self.tenant_id,
            base_currency_code: self.base_currency_code.clone(),
            target_currency_code: self.target_currency_code.clone(),
            rate: self.rate,
            rate_date: self.rate_date,
            source: clone_opt_string(&self.source),
            created_at: self.created_at,
            created_by: self.created_by,
            updated_at: self.updated_at,
            updated_by: self.updated_by,
        }
    }
}

/// A tenant-scoped spending plan over a date range.
#[derive(Debug, PartialEq)]
pub struct Budget {
    pub id: u128,
    pub tenant_id: u128,
    pub name: String,
    pub start_date: i64,
    pub end_date: i64,
    pub currency_code: String,
    pub is_active: bool,
    pub created_at: i64,
    pub created_by: u128,
    pub updated_at: i64,
    pub updated_by: u128,
}

impl Clone for Budget {
    fn clone(&self) -> (res: Self)
        ensures
            res == *self,
    {
        Budget {
            id: self.id,
            tenant_id: self.tenant_id,
            name: self.name.clone(),
            start_date: self.start_date,
            end_date: self.end_date,
            currency_code: self.currency_code.clone(),
            is_active: self.is_active,
            created_at: self.created_at,
            created_by: self.created_by,
            updated_at: self.updated_at,
            updated_by: self.updated_by,
        }
    }
}

/// One budgeted amount inside a budget, optionally tied to a category or an
/// account of the same tenant.
#[derive(Debug, PartialEq)]
pub struct BudgetLineItem {
    pub id: u128,
    pub budget_id: u128,
    pub category_id: Option<u128>,
    pub account_id: Option<u128>,
    pub budgeted_amount: i64,
    pub is_active: bool,
    pub created_at: i64,
    pub created_by: u128,
    pub updated_at: i64,
    pub updated_by: u128,
}

impl Clone for BudgetLineItem {
    fn clone(&self) -> (res: Self)
        ensures
            res == *self,
    {
        BudgetLineItem {
            id: self.id,
            budget_id: self.budget_id,
            category_id: self.category_id,
            account_id: self.account_id,
            budgeted_amount: self.budgeted_amount,
            is_active: self.is_active,
            created_at: self.created_at,
            created_by: self.created_by,
            updated_at: self.updated_at,
            updated_by: self.updated_by,
        }
    }
}

/// An authenticated principal. The password hash, when present, is an opaque
/// string produced by the hashing collaborator.
#[derive(Debug, PartialEq)]
pub struct User {
    pub id: u128,
    pub auth_provider_id: String,
    pub auth_provider_type: String,
    pub email: String,
    pub password_hash: Option<String>,
    pub first_name: String,
    pub last_name: String,
    pub is_active: bool,
    pub last_login_at: Option<i64>,
    pub created_at: i64,
    pub updated_at: i64,
}

impl Clone for User {
    fn clone(&self) -> (res: Self)
        ensures
            res == *self,
    {
        User {
            id: self.id,
            auth_provider_id: self.auth_provider_id.clone(),
            auth_provider_type: self.auth_provider_type.clone(),
            email: self.email.clone(),
            password_hash: clone_opt_string(&self.password_hash),
            first_name: self.first_name.clone(),
            last_name: self.last_name.clone(),
            is_active: self.is_active,
            last_login_at: self.last_login_at,
            created_at: self.created_at,
            updated_at: self.updated_at,
        }
    }
}

/// The shape of a user handed back over the wire: every field of the row but
/// the password hash.
#[derive(Debug, PartialEq)]
pub struct UserResponse {
    pub id: u128,
    pub auth_provider_id: String,
    pub auth_provider_type: String,
    pub email: String,
    pub first_name: String,
    pub last_name: String,
    pub is_active: bool,
    pub last_login_at: Option<i64>,
    pub created_at: i64,
    pub updated_at: i64,
}

impl From<User> for UserResponse {
    fn from(user: User) -> (res: UserResponse) {
        UserResponse {
            id: user.id,
            auth_provider_id: user.auth_provider_id,
            auth_provider_type: user.auth_provider_type,
            email: user.email,
            first_name: user.first_name,
            last_name: user.last_name,
            is_active: user.is_active,
            last_login_at: user.last_login_at,
            created_at: user.created_at,
            updated_at: user.updated_at,
        }
    }
}

impl vstd::std_specs::convert::FromSpecImpl<User> for UserResponse {
    open spec fn obeys_from_spec() -> bool {
        true
    }

    open spec fn from_spec(user: User) -> UserResponse {
        UserResponse {
            id: user.id,
            auth_provider_id: user.auth_provider_id,
            auth_provider_type: user.auth_provider_type,
            email: user.email,
            first_name: user.first_name,
            last_name: user.last_name,
            is_active: user.is_active,
            last_login_at: user.last_login_at,
            created_at: user.created_at,
            updated_at: user.updated_at,
        }
    }
}

} // verus!

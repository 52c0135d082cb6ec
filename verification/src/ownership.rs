//! The ownership resolver: before a write request may reference another
//! entity, the reference must name a row that exists, is active, and belongs
//! to the acting tenant (or is global, for account types). A failed reference
//! check is a Validation error — never NotFound — so that existence does not
//! leak across tenants differently from malformed input.

use vstd::prelude::*;
use crate::error::AppError;
use crate::models::{Account, AccountType, Budget, Category, Transaction};
use crate::strutil::{dec_digits, msg_id, msg_id_id};

verus! {

/// Whether an active account with the id exists under the tenant.
pub open spec fn has_active_account(s: Seq<Account>, tenant_id: u128, id: u128) -> bool {
    exists|i: int|
        0 <= i < s.len() && s[i].id == id && s[i].tenant_id == tenant_id && s[i].is_active
}

/// Whether an active category with the id exists under the tenant.
pub open spec fn has_active_category(s: Seq<Category>, tenant_id: u128, id: u128) -> bool {
    exists|i: int|
        0 <= i < s.len() && s[i].id == id && s[i].tenant_id == tenant_id && s[i].is_active
}

/// Whether an active account type with the id exists. Account types are global.
pub open spec fn has_active_account_type_ref(s: Seq<AccountType>, id: u128) -> bool {
    exists|i: int| 0 <= i < s.len() && s[i].id == id && s[i].is_active
}

/// Whether a transaction with the id exists under the tenant.
pub open spec fn has_tenant_transaction(s: Seq<Transaction>, tenant_id: u128, id: u128) -> bool {
    exists|i: int| 0 <= i < s.len() && s[i].id == id && s[i].tenant_id == tenant_id
}

/// Whether an active budget with the id exists under the tenant.
pub open spec fn has_active_budget_ref(s: Seq<Budget>, tenant_id: u128, id: u128) -> bool {
    exists|i: int|
        0 <= i < s.len() && s[i].id == id && s[i].tenant_id == tenant_id && s[i].is_active
}

/// Confirms that an account reference is resolvable under the tenant.
pub fn resolve_account(v: &Vec<Account>, tenant_id: u128, account_id: u128) -> (r: bool)
    ensures
        r == has_active_account(v@, tenant_id, account_id),
{
    let mut i: usize = 0;
    while i < v.len()
        invariant
            0 <= i <= v@.len(),
            forall|k: int|
                0 <= k < i ==> !(v@[k].id == account_id && v@[k].tenant_id == tenant_id
                    && v@[k].is_active),
        decreases v@.len() - i,
    {
        if v[i].id == account_id && v[i].tenant_id == tenant_id && v[i].is_active {
            return true;
        }
        i += 1;
    }
    false
}

/// Confirms that a category reference is resolvable under the tenant.
pub fn resolve_category(v: &Vec<Category>, tenant_id: u128, category_id: u128) -> (r: bool)
    ensures
        r == has_active_category(v@, tenant_id, category_id),
{
    let mut i: usize = 0;
    while i < v.len()
        invariant
            0 <= i <= v@.len(),
            forall|k: int|
                0 <= k < i ==> !(v@[k].id == category_id && v@[k].tenant_id == tenant_id
                    && v@[k].is_active),
        decreases v@.len() - i,
    {
        if v[i].id == category_id && v[i].tenant_id == tenant_id && v[i].is_active {
            return true;
        }
        i += 1;
    }
    false
}

/// Confirms that an account-type reference is resolvable.
pub fn resolve_account_type(v: &Vec<AccountType>, account_type_id: u128) -> (r: bool)
    ensures
        r == has_active_account_type_ref(v@, account_type_id),
{
    let mut i: usize = 0;
    while i < v.len()
        invariant
            0 <= i <= v@.len(),
            forall|k: int| 0 <= k < i ==> !(v@[k].id == account_type_id && v@[k].is_active),
        decreases v@.len() - i,
    {
        if v[i].id == account_type_id && v[i].is_active {
            return true;
        }
        i += 1;
    }
    false
}

/// Confirms that a transaction belongs to the tenant.
pub fn resolve_transaction(v: &Vec<Transaction>, tenant_id: u128, transaction_id: u128) -> (r: bool)
    ensures
        r == has_tenant_transaction(v@, tenant_id, transaction_id),
{
    let mut i: usize = 0;
    while i < v.len()
        invariant
            0 <= i <= v@.len(),
            forall|k: int|
                0 <= k < i ==> !(v@[k].id == transaction_id && v@[k].tenant_id == tenant_id),
        decreases v@.len() - i,
    {
        if v[i].id == transaction_id && v[i].tenant_id == tenant_id {
            return true;
        }
        i += 1;
    }
    false
}

/// Confirms that a budget reference is resolvable under the tenant.
pub fn resolve_budget(v: &Vec<Budget>, tenant_id: u128, budget_id: u128) -> (r: bool)
    ensures
        r == has_active_budget_ref(v@, tenant_id, budget_id),
{
    let mut i: usize = 0;
    while i < v.len()
        invariant
            0 <= i <= v@.len(),
            forall|k: int|
                0 <= k < i ==> !(v@[k].id == budget_id && v@[k].tenant_id == tenant_id
                    && v@[k].is_active),
        decreases v@.len() - i,
    {
        if v[i].id == budget_id && v[i].tenant_id == tenant_id && v[i].is_active {
            return true;
        }
        i += 1;
    }
    false
}

pub open spec fn invalid_account_msg(id: u128, tenant_id: u128) -> Seq<char> {
    "Account ID "@ + dec_digits(id as int) + " is invalid or inactive for tenant "@ + dec_digits(
        tenant_id as int,
    )
}

/// The rejection of a journal entry or update naming an unresolvable account.
pub fn invalid_account_error(id: u128, tenant_id: u128) -> (e: AppError)
    ensures
        e is Validation,
        e.spec_message() == invalid_account_msg(id, tenant_id),
{
    AppError::Validation(
        msg_id_id("Account ID ", id, " is invalid or inactive for tenant ", tenant_id),
    )
}

pub open spec fn invalid_category_msg(id: u128, tenant_id: u128) -> Seq<char> {
    "Category ID "@ + dec_digits(id as int) + " is invalid or inactive for tenant "@ + dec_digits(
        tenant_id as int,
    )
}

/// The rejection of a request naming an unresolvable category.
pub fn invalid_category_error(id: u128, tenant_id: u128) -> (e: AppError)
    ensures
        e is Validation,
        e.spec_message() == invalid_category_msg(id, tenant_id),
{
    AppError::Validation(
        msg_id_id("Category ID ", id, " is invalid or inactive for tenant ", tenant_id),
    )
}

pub open spec fn invalid_account_type_msg(id: u128) -> Seq<char> {
    "Account type ID "@ + dec_digits(id as int) + " is invalid or inactive"@
}

/// The rejection of a request naming an unresolvable account type.
pub fn invalid_account_type_error(id: u128) -> (e: AppError)
    ensures
        e is Validation,
        e.spec_message() == invalid_account_type_msg(id),
{
    AppError::Validation(msg_id("Account type ID ", id, " is invalid or inactive"))
}

} // verus!

//! The enumerations that are persisted as validated string codes, with their
//! two-way mapping between code and variant. An unrecognized stored code must
//! fail decoding explicitly instead of defaulting silently, so every decoder
//! returns `None` on unknown input.

use vstd::prelude::*;
use crate::strutil::str_eq;

verus! {

/// Whether increases to accounts of a type are recorded as debits or credits.
#[derive(Clone, Copy, Debug, PartialEq, Eq, Structural)]
pub enum AccountNormalBalance {
    DEBIT,
    CREDIT,
}

impl AccountNormalBalance {
    /// The string code under which the variant is persisted.
    pub open spec fn code_spec(self) -> Seq<char> {
        match self {
            AccountNormalBalance::DEBIT => "DEBIT"@,
            AccountNormalBalance::CREDIT => "CREDIT"@,
        }
    }

    /// The variant a stored code decodes to, if any.
    pub open spec fn from_code_spec(s: Seq<char>) -> Option<AccountNormalBalance> {
        if s == "DEBIT"@ {
            Some(AccountNormalBalance::DEBIT)
        } else if s == "CREDIT"@ {
            Some(AccountNormalBalance::CREDIT)
        } else {
            None
        }
    }

    /// Encodes the variant as its persisted string code.
    pub fn code(&self) -> (r: String)
        ensures
            r@ == self.code_spec(),
    {
        match self {
            AccountNormalBalance::DEBIT => "DEBIT".to_owned(),
            AccountNormalBalance::CREDIT => "CREDIT".to_owned(),
        }
    }

    /// Decodes a persisted string code; unknown codes are rejected.
    pub fn from_str(s: &str) -> (r: Option<AccountNormalBalance>)
        ensures
            r == Self::from_code_spec(s@),
    {
        if str_eq(s, "DEBIT") {
            Some(AccountNormalBalance::DEBIT)
        } else if str_eq(s, "CREDIT") {
            Some(AccountNormalBalance::CREDIT)
        } else {
            None
        }
    }
}

/// The classification of a category.
#[derive(Clone, Copy, Debug, PartialEq, Eq, Structural)]
pub enum CategoryType {
    Income,
    Expense,
    Transfer,
    Investment,
    Other,
}

impl CategoryType {
    /// The string code under which the variant is persisted.
    pub open spec fn code_spec(self) -> Seq<char> {
        match self {
            CategoryType::Income => "INCOME"@,
            CategoryType::Expense => "EXPENSE"@,
            CategoryType::Transfer => "TRANSFER"@,
            CategoryType::Investment => "INVESTMENT"@,
            CategoryType::Other => "OTHER"@,
        }
    }

    /// The variant a stored code decodes to, if any.
    pub open spec fn from_code_spec(s: Seq<char>) -> Option<CategoryType> {
        if s == "INCOME"@ {
            Some(CategoryType::Income)
        } else if s == "EXPENSE"@ {
            Some(CategoryType::Expense)
        } else if s == "TRANSFER"@ {
            Some(CategoryType::Transfer)
        } else if s == "INVESTMENT"@ {
            Some(CategoryType::Investment)
        } else if s == "OTHER"@ {
            Some(CategoryType::Other)
        } else {
            None
        }
    }

    /// Encodes the variant as its persisted string code.
    pub fn code(&self) -> (r: String)
        ensures
            r@ == self.code_spec(),
    {
        match self {
            CategoryType::Income => "INCOME".to_owned(),
            CategoryType::Expense => "EXPENSE".to_owned(),
            CategoryType::Transfer => "TRANSFER".to_owned(),
            CategoryType::Investment => "INVESTMENT".to_owned(),
            CategoryType::Other => "OTHER".to_owned(),
        }
    }

    /// Decodes a persisted string code; unknown codes are rejected.
    pub fn from_str(s: &str) -> (r: Option<CategoryType>)
        ensures
            r == Self::from_code_spec(s@),
    {
        if str_eq(s, "INCOME") {
            Some(CategoryType::Income)
        } else if str_eq(s, "EXPENSE") {
            Some(CategoryType::Expense)
        } else if str_eq(s, "TRANSFER") {
            Some(CategoryType::Transfer)
        } else if str_eq(s, "INVESTMENT") {
            Some(CategoryType::Investment)
        } else if str_eq(s, "OTHER") {
            Some(CategoryType::Other)
        } else {
            None
        }
    }
}

/// The side of a journal entry: one debit or credit leg of a transaction.
#[derive(Clone, Copy, Debug, PartialEq, Eq, Structural)]
pub enum JournalEntryType {
    Debit,
    Credit,
}

impl JournalEntryType {
    /// The string code under which the variant is persisted.
    pub open spec fn code_spec(self) -> Seq<char> {
        match self {
            JournalEntryType::Debit => "DEBIT"@,
            JournalEntryType::Credit => "CREDIT"@,
        }
    }

    /// The variant a stored code decodes to, if any.
    pub open spec fn from_code_spec(s: Seq<char>) -> Option<JournalEntryType> {
        if s == "DEBIT"@ {
            Some(JournalEntryType::Debit)
        } else if s == "CREDIT"@ {
            Some(JournalEntryType::Credit)
        } else {
            None
        }
    }

    /// Encodes the variant as its persisted string code.
    pub fn code(&self) -> (r: String)
        ensures
            r@ == self.code_spec(),
    {
        match self {
            JournalEntryType::Debit => "DEBIT".to_owned(),
            JournalEntryType::Credit => "CREDIT".to_owned(),
        }
    }

    /// Decodes a persisted string code; unknown codes are rejected.
    pub fn from_str(s: &str) -> (r: Option<JournalEntryType>)
        ensures
            r == Self::from_code_spec(s@),
    {
        if str_eq(s, "DEBIT") {
            Some(JournalEntryType::Debit)
        } else if str_eq(s, "CREDIT") {
            Some(JournalEntryType::Credit)
        } else {
            None
        }
    }
}

/// The business meaning of a transaction.
#[derive(Clone, Copy, Debug, PartialEq, Eq, Structural)]
pub enum TransactionType {
    Income,
    Expense,
    Transfer,
    JournalEntry,
    OpeningBalance,
    Adjustment,
}

impl TransactionType {
    /// The string code under which the variant is persisted.
    pub open spec fn code_spec(self) -> Seq<char> {
        match self {
            TransactionType::Income => "INCOME"@,
            TransactionType::Expense => "EXPENSE"@,
            TransactionType::Transfer => "TRANSFER"@,
            TransactionType::JournalEntry => "JOURNAL_ENTRY"@,
            TransactionType::OpeningBalance => "OPENING_BALANCE"@,
            TransactionType::Adjustment => "ADJUSTMENT"@,
        }
    }

    /// The variant a stored code decodes to, if any.
    pub open spec fn from_code_spec(s: Seq<char>) -> Option<TransactionType> {
        if s == "INCOME"@ {
            Some(TransactionType::Income)
        } else if s == "EXPENSE"@ {
            Some(TransactionType::Expense)
        } else if s == "TRANSFER"@ {
            Some(TransactionType::Transfer)
        } else if s == "JOURNAL_ENTRY"@ {
            Some(TransactionType::JournalEntry)
        } else if s == "OPENING_BALANCE"@ {
            Some(TransactionType::OpeningBalance)
        } else if s == "ADJUSTMENT"@ {
            Some(TransactionType::Adjustment)
        } else {
            None
        }
    }

    /// Encodes the variant as its persisted string code.
    pub fn code(&self) -> (r: String)
        ensures
            r@ == self.code_spec(),
    {
        match self {
            TransactionType::Income => "INCOME".to_owned(),
            TransactionType::Expense => "EXPENSE".to_owned(),
            TransactionType::Transfer => "TRANSFER".to_owned(),
            TransactionType::JournalEntry => "JOURNAL_ENTRY".to_owned(),
            TransactionType::OpeningBalance => "OPENING_BALANCE".to_owned(),
            TransactionType::Adjustment => "ADJUSTMENT".to_owned(),
        }
    }

    /// Decodes a persisted string code; unknown codes are rejected.
    pub fn from_str(s: &str) -> (r: Option<TransactionType>)
        ensures
            r == Self::from_code_spec(s@),
    {
        if str_eq(s, "INCOME") {
            Some(TransactionType::Income)
        } else if str_eq(s, "EXPENSE") {
            Some(TransactionType::Expense)
        } else if str_eq(s, "TRANSFER") {
            Some(TransactionType::Transfer)
        } else if str_eq(s, "JOURNAL_ENTRY") {
            Some(TransactionType::JournalEntry)
        } else if str_eq(s, "OPENING_BALANCE") {
            Some(TransactionType::OpeningBalance)
        } else if str_eq(s, "ADJUSTMENT") {
            Some(TransactionType::Adjustment)
        } else {
            None
        }
    }
}

/// Law: encoding a variant and decoding the code gives the variant back, for
/// every variant of every persisted enumeration.
pub proof fn lemma_code_round_trip(nb: AccountNormalBalance, ct: CategoryType, jt: JournalEntryType, tt: TransactionType)
    ensures
        AccountNormalBalance::from_code_spec(nb.code_spec()) == Some(nb),
        CategoryType::from_code_spec(ct.code_spec()) == Some(ct),
        JournalEntryType::from_code_spec(jt.code_spec()) == Some(jt),
        TransactionType::from_code_spec(tt.code_spec()) == Some(tt),
{
    reveal_strlit("DEBIT");
    reveal_strlit("CREDIT");
    reveal_strlit("INCOME");
    reveal_strlit("EXPENSE");
    reveal_strlit("TRANSFER");
    reveal_strlit("INVESTMENT");
    reveal_strlit("OTHER");
    reveal_strlit("JOURNAL_ENTRY");
    reveal_strlit("OPENING_BALANCE");
    reveal_strlit("ADJUSTMENT");
    assert("DEBIT"@.len() == 5);
    assert("CREDIT"@.len() == 6);
    assert("INCOME"@.len() == 6);
    assert("EXPENSE"@.len() == 7);
    assert("TRANSFER"@.len() == 8);
    assert("INVESTMENT"@.len() == 10);
    assert("OTHER"@.len() == 5);
    assert("JOURNAL_ENTRY"@.len() == 13);
    assert("OPENING_BALANCE"@.len() == 15);
    assert("ADJUSTMENT"@.len() == 10);
    match nb {
        AccountNormalBalance::DEBIT => assert(AccountNormalBalance::from_code_spec(nb.code_spec()) == Some(nb)),
        AccountNormalBalance::CREDIT => assert(AccountNormalBalance::from_code_spec(nb.code_spec()) == Some(nb)),
    }
    match ct {
        CategoryType::Income => assert(CategoryType::from_code_spec(ct.code_spec()) == Some(ct)),
        CategoryType::Expense => assert(CategoryType::from_code_spec(ct.code_spec()) == Some(ct)),
        CategoryType::Transfer => assert(CategoryType::from_code_spec(ct.code_spec()) == Some(ct)),
        CategoryType::Investment => assert(CategoryType::from_code_spec(ct.code_spec()) == Some(ct)),
        CategoryType::Other => assert(CategoryType::from_code_spec(ct.code_spec()) == Some(ct)),
    }
    match jt {
        JournalEntryType::Debit => assert(JournalEntryType::from_code_spec(jt.code_spec()) == Some(jt)),
        JournalEntryType::Credit => assert(JournalEntryType::from_code_spec(jt.code_spec()) == Some(jt)),
    }
    match tt {
        TransactionType::Income => assert(TransactionType::from_code_spec(tt.code_spec()) == Some(tt)),
        TransactionType::Expense => assert(TransactionType::from_code_spec(tt.code_spec()) == Some(tt)),
        TransactionType::Transfer => assert(TransactionType::from_code_spec(tt.code_spec()) == Some(tt)),
        TransactionType::JournalEntry => assert(TransactionType::from_code_spec(tt.code_spec()) == Some(tt)),
        TransactionType::OpeningBalance => assert(TransactionType::from_code_spec(tt.code_spec()) == Some(tt)),
        TransactionType::Adjustment => assert(TransactionType::from_code_spec(tt.code_spec()) == Some(tt)),
    }
}

} // verus!

//! Ledger accounts.

use vstd::prelude::*;

use crate::calendar::DateTime;

verus! {

/// A ledger account.
#[derive(Clone, Debug)]
pub struct Model {
    pub id: i32,
    pub name: String,
    pub category: AccountCategory,
    pub normal_balance: NormalBalance,
    pub created_at: DateTime,
}

/// The section of the financial statements an account belongs to.
#[derive(Clone, Copy, Debug, PartialEq, Eq, Structural)]
pub enum AccountCategory {
    Asset,
    Liability,
    Equity,
    Revenue,
    Expense,
}

impl AccountCategory {
    pub open spec fn spec_label(self) -> Seq<char> {
        match self {
            AccountCategory::Asset => "Asset"@,
            AccountCategory::Liability => "Liability"@,
            AccountCategory::Equity => "Equity"@,
            AccountCategory::Revenue => "Revenue"@,
            AccountCategory::Expense => "Expense"@,
        }
    }

    /// The display label.
    pub fn label(&self) -> (r: String)
        ensures
            r@ == self.spec_label(),
    {
        match self {
            AccountCategory::Asset => String::from_str("Asset"),
            AccountCategory::Liability => String::from_str("Liability"),
            AccountCategory::Equity => String::from_str("Equity"),
            AccountCategory::Revenue => String::from_str("Revenue"),
            AccountCategory::Expense => String::from_str("Expense"),
        }
    }
}

/// The side on which an account's balance normally grows.
#[derive(Clone, Copy, Debug, PartialEq, Eq, Structural)]
pub enum NormalBalance {
    Debit,
    Credit,
}

impl NormalBalance {
    pub open spec fn spec_label(self) -> Seq<char> {
        match self {
            NormalBalance::Debit => "Debit"@,
            NormalBalance::Credit => "Credit"@,
        }
    }

    /// The display label.
    pub fn label(&self) -> (r: String)
        ensures
            r@ == self.spec_label(),
    {
        match self {
            NormalBalance::Debit => String::from_str("Debit"),
            NormalBalance::Credit => String::from_str("Credit"),
        }
    }
}

} // verus!

//! One debit or credit row within a journal entry.

use vstd::prelude::*;

use crate::amount::Amount;

verus! {

/// Debit or credit.
#[derive(Clone, Copy, Debug, PartialEq, Eq, Structural)]
pub enum EntrySide {
    Debit,
    Credit,
}

impl EntrySide {
    pub open spec fn spec_label(self) -> Seq<char> {
        match self {
            EntrySide::Debit => "Debit"@,
            EntrySide::Credit => "Credit"@,
        }
    }

    /// The display label.
    pub fn label(&self) -> (r: String)
        ensures
            r@ == self.spec_label(),
    {
        match self {
            EntrySide::Debit => String::from_str("Debit"),
            EntrySide::Credit => String::from_str("Credit"),
        }
    }
}

/// A journal entry line. `amount` is positive; `entry_side` says whether
/// it is a debit or a credit.
#[derive(Clone, Debug)]
pub struct Model {
    pub id: i32,
    pub entry_id: i32,
    pub account_id: i32,
    pub entry_side: EntrySide,
    pub amount: Amount,
    pub description: Option<String>,
}

} // verus!

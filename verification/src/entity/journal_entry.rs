//! The header row for a posted double-entry transaction.

use vstd::prelude::*;

use crate::calendar::DateTime;

verus! {

/// A journal entry. At most one of `payment_id`, `claim_id` and
/// `invoice_id` is set: the document the entry was posted for.
#[derive(Clone, Debug)]
pub struct Model {
    pub id: i32,
    pub payment_id: Option<i32>,
    pub claim_id: Option<i32>,
    pub invoice_id: Option<i32>,
    pub created_by_user_id: i32,
    pub created_at: DateTime,
}

/// The document a journal entry traces back to.
#[derive(Clone, Copy, Debug, PartialEq, Eq, Structural)]
pub enum SourceDocument {
    Payment { payment_id: i32 },
    Claim { claim_id: i32 },
    Invoice { invoice_id: i32 },
}

impl SourceDocument {
    /// The `(payment_id, claim_id, invoice_id)` columns the document sets:
    /// its own id in its column and nothing in the two others.
    pub open spec fn spec_to_fks(self) -> (Option<i32>, Option<i32>, Option<i32>) {
        match self {
            SourceDocument::Payment { payment_id } => (Some(payment_id), None, None),
            SourceDocument::Claim { claim_id } => (None, Some(claim_id), None),
            SourceDocument::Invoice { invoice_id } => (None, None, Some(invoice_id)),
        }
    }

    /// Maps the source document into the three optional id columns.
    pub fn to_fks(&self) -> (r: (Option<i32>, Option<i32>, Option<i32>))
        ensures
            r == self.spec_to_fks(),
    {
        match self {
            SourceDocument::Payment { payment_id } => (Some(*payment_id), None, None),
            SourceDocument::Claim { claim_id } => (None, Some(*claim_id), None),
            SourceDocument::Invoice { invoice_id } => (None, None, Some(*invoice_id)),
        }
    }
}

} // verus!

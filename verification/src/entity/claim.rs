//! Expense claims.

use vstd::prelude::*;

use crate::amount::Amount;
use crate::calendar::{Date, DateTime};

verus! {

/// Where a claim stands: awaiting a decision, approved or rejected.
#[derive(Clone, Copy, Debug, PartialEq, Eq, Structural)]
pub enum ClaimStatus {
    Pending,
    Approved,
    Rejected,
}

impl ClaimStatus {
    pub open spec fn spec_label(self) -> Seq<char> {
        match self {
            ClaimStatus::Pending => "Pending"@,
            ClaimStatus::Approved => "Approved"@,
            ClaimStatus::Rejected => "Rejected"@,
        }
    }

    /// The display label.
    pub fn label(&self) -> (r: String)
        ensures
            r@ == self.spec_label(),
    {
        match self {
            ClaimStatus::Pending => String::from_str("Pending"),
            ClaimStatus::Approved => String::from_str("Approved"),
            ClaimStatus::Rejected => String::from_str("Rejected"),
        }
    }
}

/// A claim record.
#[derive(Clone, Debug)]
pub struct Model {
    pub id: i32,
    pub submitted_by_user_id: i32,
    pub reviewed_by_user_id: Option<i32>,
    pub category_id: i32,
    pub title: String,
    pub description: String,
    pub amount: Amount,
    pub purchase_date: Date,
    pub status: ClaimStatus,
    pub rejection_reason: Option<String>,
    pub created_at: DateTime,
    pub updated_at: DateTime,
}

} // verus!

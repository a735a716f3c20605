//! Payments.

use vstd::prelude::*;

use crate::amount::Amount;
use crate::calendar::{Date, DateTime};

verus! {

/// Money in or out.
#[derive(Clone, Copy, Debug, PartialEq, Eq, Structural)]
pub enum PaymentDirection {
    In,
    Out,
}

impl PaymentDirection {
    pub open spec fn spec_label(self) -> Seq<char> {
        match self {
            PaymentDirection::In => "In"@,
            PaymentDirection::Out => "Out"@,
        }
    }

    /// The display label.
    pub fn label(&self) -> (r: String)
        ensures
            r@ == self.spec_label(),
    {
        match self {
            PaymentDirection::In => String::from_str("In"),
            PaymentDirection::Out => String::from_str("Out"),
        }
    }
}

/// A payment record.
#[derive(Clone, Debug)]
pub struct Model {
    pub id: i32,
    pub invoice_id: Option<i32>,
    pub party_id: Option<i32>,
    pub created_by_user_id: i32,
    pub payment_direction: PaymentDirection,
    pub amount: Amount,
    pub payment_date: Date,
    pub remarks: Option<String>,
    pub created_at: DateTime,
}

} // verus!

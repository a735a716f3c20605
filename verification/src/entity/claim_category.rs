//! Expense-claim categories.

use vstd::prelude::*;

verus! {

/// A claim category (transport, meals, ...).
#[derive(Clone, Debug)]
pub struct Model {
    pub id: i32,
    pub name: String,
}

} // verus!

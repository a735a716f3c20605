//! Claim categories as offered in the claim form.

use vstd::prelude::*;

use crate::entity::claim_category as claim_category_entity;

verus! {

/// A category as offered in the claim form's drop-down.
#[derive(Clone, Debug)]
pub struct CategoryOption {
    pub id: i32,
    pub name: String,
}

/// The drop-down options for the categories, in the order given (the
/// caller lists them by name).
pub fn list_options(categories: &[claim_category_entity::Model]) -> (r: Vec<CategoryOption>)
    ensures
        r@.len() == categories@.len(),
        forall|i: int|
            0 <= i < r@.len() ==> (#[trigger] r@[i]).id == categories@[i].id && r@[i].name
                == categories@[i].name,
{
    let mut out: Vec<CategoryOption> = Vec::new();
    let mut i: usize = 0;
    while i < categories.len()
        invariant
            0 <= i <= categories@.len(),
            out@.len() == i,
            forall|j: int|
                0 <= j < i ==> (#[trigger] out@[j]).id == categories@[j].id && out@[j].name
                    == categories@[j].name,
        decreases categories.len() - i,
    {
        out.push(CategoryOption { id: categories[i].id, name: categories[i].name.clone() });
        i = i + 1;
    }
    out
}

/// Whether the category looked up exists.
pub fn category_exists(found: &Option<claim_category_entity::Model>) -> (r: bool)
    ensures
        r == found.is_some(),
{
    found.is_some()
}

} // verus!

//! Customers and vendors.

use vstd::prelude::*;

use crate::calendar::DateTime;

verus! {

/// The kind of party.
#[derive(Clone, Copy, Debug, PartialEq, Eq, Structural)]
pub enum PartyType {
    Customer,
    Vendor,
}

impl PartyType {
    pub open spec fn spec_label(self) -> Seq<char> {
        match self {
            PartyType::Customer => "Customer"@,
            PartyType::Vendor => "Vendor"@,
        }
    }

    /// The display label.
    pub fn label(&self) -> (r: String)
        ensures
            r@ == self.spec_label(),
    {
        match self {
            PartyType::Customer => String::from_str("Customer"),
            PartyType::Vendor => String::from_str("Vendor"),
        }
    }

    /// All party type labels in declaration order.
    pub fn labels() -> (r: Vec<String>)
        ensures
            r@.map_values(|s: String| s@) == seq!["Customer"@, "Vendor"@],
    {
        let mut v: Vec<String> = Vec::new();
        v.push(PartyType::Customer.label());
        v.push(PartyType::Vendor.label());
        proof {
            assert(v@.map_values(|s: String| s@) =~= seq!["Customer"@, "Vendor"@]);
        }
        v
    }
}

/// Whether a party is active or inactive.
#[derive(Clone, Copy, Debug, PartialEq, Eq, Structural)]
pub enum PartyStatus {
    Active,
    Inactive,
}

impl PartyStatus {
    pub open spec fn spec_label(self) -> Seq<char> {
        match self {
            PartyStatus::Active => "Active"@,
            PartyStatus::Inactive => "Inactive"@,
        }
    }

    /// The display label.
    pub fn label(&self) -> (r: String)
        ensures
            r@ == self.spec_label(),
    {
        match self {
            PartyStatus::Active => String::from_str("Active"),
            PartyStatus::Inactive => String::from_str("Inactive"),
        }
    }

    /// All party status labels in declaration order.
    pub fn labels() -> (r: Vec<String>)
        ensures
            r@.map_values(|s: String| s@) == seq!["Active"@, "Inactive"@],
    {
        let mut v: Vec<String> = Vec::new();
        v.push(PartyStatus::Active.label());
        v.push(PartyStatus::Inactive.label());
        proof {
            assert(v@.map_values(|s: String| s@) =~= seq!["Active"@, "Inactive"@]);
        }
        v
    }
}

/// A party record.
#[derive(Clone, Debug)]
pub struct Model {
    pub id: i32,
    pub party_type: PartyType,
    pub name: String,
    pub company: Option<String>,
    pub email: String,
    pub phone: String,
    pub address: String,
    pub status: PartyStatus,
    pub created_at: DateTime,
    pub updated_at: DateTime,
}

} // verus!

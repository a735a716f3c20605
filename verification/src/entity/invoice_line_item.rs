//! Invoice line items.

use vstd::prelude::*;

use crate::amount::Amount;
use crate::text::{ascii_lower, eq_ic, eq_ignore_ascii_case, lemma_trim_plain, trim, trim_spec};

verus! {

/// GST rate applied to an invoice line item.
#[derive(Clone, Copy, Debug, PartialEq, Eq, Structural)]
pub enum GstRate {
    Zero,
    Standard,
}

/// The rate a keyword names, compared ignoring ASCII case.
pub open spec fn gst_rate_keyword(k: Seq<char>) -> Option<GstRate> {
    if eq_ic(k, "none"@) {
        Some(GstRate::Zero)
    } else if eq_ic(k, "standard"@) {
        Some(GstRate::Standard)
    } else {
        None
    }
}

impl GstRate {
    pub open spec fn spec_label(self) -> Seq<char> {
        match self {
            GstRate::Zero => "None"@,
            GstRate::Standard => "Standard"@,
        }
    }

    /// The parts of the rate as a decimal: 0, or 0.09 (Singapore GST, 9%).
    pub open spec fn spec_rate(self) -> (i128, u32) {
        match self {
            GstRate::Zero => (0i128, 0u32),
            GstRate::Standard => (9i128, 2u32),
        }
    }

    /// The display label.
    pub fn label(&self) -> (r: String)
        ensures
            r@ == self.spec_label(),
    {
        match self {
            GstRate::Zero => String::from_str("None"),
            GstRate::Standard => String::from_str("Standard"),
        }
    }

    /// All rate labels in declaration order.
    pub fn labels() -> (r: Vec<String>)
        ensures
            r@.map_values(|s: String| s@) == seq!["None"@, "Standard"@],
    {
        let mut v: Vec<String> = Vec::new();
        v.push(GstRate::Zero.label());
        v.push(GstRate::Standard.label());
        proof {
            assert(v@.map_values(|s: String| s@) =~= seq!["None"@, "Standard"@]);
        }
        v
    }

    /// Parses a rate name, ignoring surrounding whitespace and ASCII case.
    pub fn parse(s: &str) -> (r: Option<GstRate>)
        ensures
            r == gst_rate_keyword(trim_spec(s@)),
    {
        // Unicode lowercasing followed by comparison with these ASCII
        // keywords accepts exactly the ASCII case-insensitive matches.
        let t = trim(s);
        if eq_ignore_ascii_case(t, "none") {
            Some(GstRate::Zero)
        } else if eq_ignore_ascii_case(t, "standard") {
            Some(GstRate::Standard)
        } else {
            None
        }
    }

    /// The rate as a decimal: `Decimal::ZERO` for no GST, 0.09 for the
    /// standard rate.
    pub fn rate(&self) -> (r: Amount)
        ensures
            r@ == self.spec_rate(),
    {
        match self {
            GstRate::Zero => Amount::zero(),
            GstRate::Standard => Amount::from_i64_with_scale(9, 2),
        }
    }
}

/// Every rate's label parses back to the rate.
pub proof fn lemma_gst_rate_label_parses(g: GstRate)
    ensures
        gst_rate_keyword(trim_spec(g.spec_label())) == Some(g),
{
    reveal_strlit("None");
    reveal_strlit("none");
    reveal_strlit("Standard");
    reveal_strlit("standard");
    let l = g.spec_label();
    lemma_trim_plain(l);
    assert(ascii_lower('N') == 'n');
    assert(ascii_lower('S') == 's');
    match g {
        GstRate::Zero => {
            assert(eq_ic(l, "none"@));
        },
        GstRate::Standard => {
            assert(!eq_ic(l, "none"@));
            assert(eq_ic(l, "standard"@));
        },
    }
}

/// An invoice line item record.
#[derive(Clone, Debug)]
pub struct Model {
    pub id: i32,
    pub invoice_id: i32,
    pub description: String,
    pub quantity: i32,
    pub unit_price: Amount,
    pub gst_rate: GstRate,
}

} // verus!

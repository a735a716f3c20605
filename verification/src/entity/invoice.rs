//! Invoices.

use vstd::prelude::*;

use crate::calendar::{Date, DateTime};
use crate::text::{ascii_lower, eq_ic, eq_ignore_ascii_case, lemma_no_spaces_joined, lemma_no_spaces_plain, lemma_trim_plain, no_spaces, remove_spaces, trim, trim_spec};

verus! {

/// Invoice status lifecycle.
#[derive(Clone, Copy, Debug, PartialEq, Eq, Structural)]
pub enum InvoiceStatus {
    Draft,
    Sent,
    PartiallyPaid,
    Paid,
    Voided,
}

/// The status a keyword names, compared ignoring ASCII case.
pub open spec fn invoice_status_keyword(k: Seq<char>) -> Option<InvoiceStatus> {
    if eq_ic(k, "draft"@) {
        Some(InvoiceStatus::Draft)
    } else if eq_ic(k, "sent"@) {
        Some(InvoiceStatus::Sent)
    } else if eq_ic(k, "partiallypaid"@) {
        Some(InvoiceStatus::PartiallyPaid)
    } else if eq_ic(k, "paid"@) {
        Some(InvoiceStatus::Paid)
    } else if eq_ic(k, "voided"@) {
        Some(InvoiceStatus::Voided)
    } else {
        None
    }
}

impl InvoiceStatus {
    pub open spec fn spec_label(self) -> Seq<char> {
        match self {
            InvoiceStatus::Draft => "Draft"@,
            InvoiceStatus::Sent => "Sent"@,
            InvoiceStatus::PartiallyPaid => "Partially Paid"@,
            InvoiceStatus::Paid => "Paid"@,
            InvoiceStatus::Voided => "Voided"@,
        }
    }

    /// The display label.
    pub fn label(&self) -> (r: String)
        ensures
            r@ == self.spec_label(),
    {
        match self {
            InvoiceStatus::Draft => String::from_str("Draft"),
            InvoiceStatus::Sent => String::from_str("Sent"),
            InvoiceStatus::PartiallyPaid => String::from_str("Partially Paid"),
            InvoiceStatus::Paid => String::from_str("Paid"),
            InvoiceStatus::Voided => String::from_str("Voided"),
        }
    }

    /// All status labels in declaration order.
    pub fn labels() -> (r: Vec<String>)
        ensures
            r@.map_values(|s: String| s@) == seq![
                "Draft"@,
                "Sent"@,
                "Partially Paid"@,
                "Paid"@,
                "Voided"@,
            ],
    {
        let mut v: Vec<String> = Vec::new();
        v.push(InvoiceStatus::Draft.label());
        v.push(InvoiceStatus::Sent.label());
        v.push(InvoiceStatus::PartiallyPaid.label());
        v.push(InvoiceStatus::Paid.label());
        v.push(InvoiceStatus::Voided.label());
        proof {
            assert(v@.map_values(|s: String| s@) =~= seq![
                "Draft"@,
                "Sent"@,
                "Partially Paid"@,
                "Paid"@,
                "Voided"@,
            ]);
        }
        v
    }

    /// Parses a status: surrounding whitespace and every space are dropped,
    /// and the rest must equal a status keyword ignoring ASCII case
    /// ("Partially Paid" and "partiallypaid" both name `PartiallyPaid`).
    pub fn parse(s: &str) -> (r: Option<InvoiceStatus>)
        ensures
            r == invoice_status_keyword(no_spaces(trim_spec(s@))),
    {
        // Lowercasing the whole input with Unicode rules and comparing with
        // these all-ASCII keywords accepts exactly the inputs that match them
        // ignoring ASCII case: none of the keywords contains a 'k', the only
        // ASCII letter that a non-ASCII character lowercases to.
        let key = remove_spaces(trim(s));
        let k = key.as_str();
        if eq_ignore_ascii_case(k, "draft") {
            Some(InvoiceStatus::Draft)
        } else if eq_ignore_ascii_case(k, "sent") {
            Some(InvoiceStatus::Sent)
        } else if eq_ignore_ascii_case(k, "partiallypaid") {
            Some(InvoiceStatus::PartiallyPaid)
        } else if eq_ignore_ascii_case(k, "paid") {
            Some(InvoiceStatus::Paid)
        } else if eq_ignore_ascii_case(k, "voided") {
            Some(InvoiceStatus::Voided)
        } else {
            None
        }
    }
}

/// Every status's label parses back to the status (the space of
/// "Partially Paid" is dropped before the comparison).
pub proof fn lemma_invoice_status_label_parses(st: InvoiceStatus)
    ensures
        invoice_status_keyword(no_spaces(trim_spec(st.spec_label()))) == Some(st),
{
    reveal_strlit("Draft");
    reveal_strlit("draft");
    reveal_strlit("Sent");
    reveal_strlit("sent");
    reveal_strlit("Partially Paid");
    reveal_strlit("partiallypaid");
    reveal_strlit("Paid");
    reveal_strlit("paid");
    reveal_strlit("Voided");
    reveal_strlit("voided");
    let l = st.spec_label();
    lemma_trim_plain(l);
    assert(ascii_lower('D') == 'd');
    assert(ascii_lower('S') == 's');
    assert(ascii_lower('P') == 'p');
    assert(ascii_lower('V') == 'v');
    if st == InvoiceStatus::PartiallyPaid {
        let a = seq!['P', 'a', 'r', 't', 'i', 'a', 'l', 'l', 'y'];
        let b = seq!['P', 'a', 'i', 'd'];
        assert(l =~= a + seq![' '] + b);
        lemma_no_spaces_joined(a, b);
        let k = no_spaces(l);
        assert(k =~= a + b);
        assert(!eq_ic(k, "draft"@));
        assert(!eq_ic(k, "sent"@));
        assert(eq_ic(k, "partiallypaid"@));
    } else {
        lemma_no_spaces_plain(l);
        assert(no_spaces(l) == l);
        match st {
            InvoiceStatus::Draft => {
                assert(eq_ic(l, "draft"@));
            },
            InvoiceStatus::Sent => {
                assert(!eq_ic(l, "draft"@));
                assert(eq_ic(l, "sent"@));
            },
            InvoiceStatus::Paid => {
                assert(!eq_ic(l, "draft"@));
                assert(!eq_ic(l, "sent"@));
                assert(!eq_ic(l, "partiallypaid"@));
                assert(eq_ic(l, "paid"@));
            },
            InvoiceStatus::Voided => {
                assert(!eq_ic(l, "draft"@));
                assert(!eq_ic(l, "sent"@));
                assert(!eq_ic(l, "partiallypaid"@));
                assert(!eq_ic(l, "paid"@));
                assert(eq_ic(l, "voided"@));
            },
            _ => {},
        }
    }
}

/// An invoice record.
#[derive(Clone, Debug)]
pub struct Model {
    pub id: i32,
    pub party_id: i32,
    pub created_by_user_id: i32,
    pub invoice_no: String,
    pub issue_date: Date,
    pub due_date: Date,
    pub status: InvoiceStatus,
    pub created_at: DateTime,
    pub updated_at: DateTime,
}

} // verus!

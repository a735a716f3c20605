//! Listing invoices: who may see which, and the names and totals shown
//! beside each.

use vstd::prelude::*;

use std::collections::HashMap;

use crate::amount::Amount;
use crate::calendar::{date_before, Date};
use crate::entity::invoice as invoice_entity;
use crate::entity::invoice::InvoiceStatus;
use crate::entity::user::Role;
use crate::models::journal_entry::map_name;
use crate::models::paging::{
    as_ints, clamp_spec, contains_ignore_ascii_case, lemma_page_positions, matching, page_of_matches,
    page_slice, pages_for, search_hits, search_term,
};

use super::calc::{grand_total, grand_total_spec};
use super::types::{Invoice, InvoiceLineItem};

verus! {

broadcast use vstd::std_specs::hash::group_hash_axioms;

/// The line items of invoice `id`, in order.
pub open spec fn items_for(items: Seq<InvoiceLineItem>, id: i32) -> Seq<InvoiceLineItem>
    decreases items.len(),
{
    if items.len() == 0 {
        Seq::empty()
    } else {
        let rest = items_for(items.drop_last(), id);
        if items.last().invoice_id == id {
            rest.push(items.last())
        } else {
            rest
        }
    }
}

/// Parts of the total shown for an invoice: the grand total of its line
/// items, or zero when it has none; `None` when the arithmetic overflows.
pub open spec fn listed_total(items: Seq<InvoiceLineItem>, id: i32) -> Option<(i128, u32)> {
    if items_for(items, id).len() == 0 {
        Some((0i128, 0u32))
    } else {
        grand_total_spec(items_for(items, id))
    }
}

/// The text of an optional string.
pub open spec fn opt_string(s: Option<String>) -> Option<Seq<char>> {
    match s {
        Some(t) => Some(t@),
        None => None,
    }
}

/// A copy of a line item.
pub fn copy_line_item(item: &InvoiceLineItem) -> (r: InvoiceLineItem)
    ensures
        r == *item,
{
    InvoiceLineItem {
        invoice_id: item.invoice_id,
        description: item.description.clone(),
        quantity: item.quantity,
        unit_price: item.unit_price,
        gst_rate: item.gst_rate,
        line_total: item.line_total,
        line_gst_amount: item.line_gst_amount,
        line_total_with_gst: item.line_total_with_gst,
    }
}

/// The line items of one invoice, in order.
fn collect_items_for(items: &[InvoiceLineItem], id: i32) -> (r: Vec<InvoiceLineItem>)
    ensures
        r@ == items_for(items@, id),
{
    let mut out: Vec<InvoiceLineItem> = Vec::new();
    let mut i: usize = 0;
    proof {
        assert(items@.take(0) =~= Seq::<InvoiceLineItem>::empty());
    }
    while i < items.len()
        invariant
            0 <= i <= items@.len(),
            out@ == items_for(items@.take(i as int), id),
        decreases items.len() - i,
    {
        proof {
            assert(items@.take(i + 1).drop_last() =~= items@.take(i as int));
            assert(items@.take(i + 1).last() == items@[i as int]);
        }
        if items[i].invoice_id == id {
            out.push(copy_line_item(&items[i]));
        }
        i = i + 1;
    }
    proof {
        assert(items@.take(items@.len() as int) =~= items@);
    }
    out
}

/// The name a map gives a key, copied.
fn lookup_name(m: &HashMap<i32, String>, k: i32) -> (r: Option<String>)
    ensures
        opt_string(r) == map_name(m@, k),
{
    match m.get(&k) {
        Some(n) => Some(n.clone()),
        None => None,
    }
}

impl Invoice {
    /// Staff see only the invoices they created; other roles see all.
    pub fn creator_scope(viewer_user_id: i32, viewer_role: Role) -> (r: Option<i32>)
        ensures
            r == if viewer_role == Role::Staff {
                Some(viewer_user_id)
            } else {
                None
            },
    {
        if viewer_role == Role::Staff {
            Some(viewer_user_id)
        } else {
            None
        }
    }

    /// The invoices of a list page, in order, each with its party's name
    /// (when known) and its grand total worked out from its line items
    /// (zero when it has none); `None` when a total overflows.
    pub fn list(
        models: &[invoice_entity::Model],
        party_names: &HashMap<i32, String>,
        items: &[InvoiceLineItem],
    ) -> (r: Option<Vec<Invoice>>)
        ensures
            r is None <==> exists|k: int|
                0 <= k < models@.len() && (#[trigger] listed_total(items@, models@[k].id)) is None,
            r matches Some(v) ==> v@.len() == models@.len() && forall|k: int|
                0 <= k < v@.len() ==> {
                    let m = models@[k];
                    let inv = #[trigger] v@[k];
                    &&& inv.id == m.id && inv.party_id == m.party_id
                    &&& inv.created_by_user_id == m.created_by_user_id
                    &&& inv.invoice_no == m.invoice_no && inv.issue_date == m.issue_date
                    &&& inv.due_date == m.due_date && inv.status == m.status
                    &&& inv.created_at == m.created_at && inv.updated_at == m.updated_at
                    &&& opt_string(inv.party_name) == map_name(party_names@, m.party_id)
                    &&& inv.created_by_name is None
                    &&& Some(inv.grand_total@) == listed_total(items@, m.id)
                },
    {
        let mut out: Vec<Invoice> = Vec::new();
        let mut k: usize = 0;
        while k < models.len()
            invariant
                0 <= k <= models@.len(),
                out@.len() == k,
                forall|j: int|
                    0 <= j < k ==> {
                        let m = models@[j];
                        let inv = #[trigger] out@[j];
                        &&& inv.id == m.id && inv.party_id == m.party_id
                        &&& inv.created_by_user_id == m.created_by_user_id
                        &&& inv.invoice_no == m.invoice_no && inv.issue_date == m.issue_date
                        &&& inv.due_date == m.due_date && inv.status == m.status
                        &&& inv.created_at == m.created_at && inv.updated_at == m.updated_at
                        &&& opt_string(inv.party_name) == map_name(party_names@, m.party_id)
                        &&& inv.created_by_name is None
                        &&& Some(inv.grand_total@) == listed_total(items@, m.id)
                    },
            decreases models.len() - k,
        {
            let m = copy_invoice_model(&models[k]);
            let id = m.id;
            let party_id = m.party_id;
            let own = collect_items_for(items, id);
            let total = if own.len() == 0 {
                Amount::zero()
            } else {
                match grand_total(own.as_slice()) {
                    Some(t) => t,
                    None => {
                        proof {
                            assert(listed_total(items@, models@[k as int].id) is None);
                        }
                        return None;
                    },
                }
            };
            let mut inv = Invoice::from_model(m);
            inv.party_name = lookup_name(party_names, party_id);
            inv.grand_total = total;
            out.push(inv);
            k = k + 1;
        }
        proof {
            assert forall|k: int| 0 <= k < models@.len() implies (#[trigger] listed_total(items@, models@[k].id)) is Some by {
                assert(Some(out@[k].grand_total@) == listed_total(items@, models@[k].id));
            }
        }
        Some(out)
    }
}

/// A copy of an invoice record.
pub fn copy_invoice_model(m: &invoice_entity::Model) -> (r: invoice_entity::Model)
    ensures
        r == *m,
{
    invoice_entity::Model {
        id: m.id,
        party_id: m.party_id,
        created_by_user_id: m.created_by_user_id,
        invoice_no: m.invoice_no.clone(),
        issue_date: m.issue_date,
        due_date: m.due_date,
        status: m.status,
        created_at: m.created_at,
        updated_at: m.updated_at,
    }
}

/// The filters of the invoice list.
#[derive(Clone, Debug)]
pub struct InvoiceFilter {
    pub q: Option<String>,
    pub status: Option<InvoiceStatus>,
    pub party_id: Option<i32>,
    pub from_issue: Option<Date>,
    pub to_issue: Option<Date>,
    pub from_due: Option<Date>,
    pub to_due: Option<Date>,
}

/// The date is not before `from`, if given.
pub open spec fn on_or_after(d: Date, from: Option<Date>) -> bool {
    match from {
        Some(f) => !date_before(d@, f@),
        None => true,
    }
}

/// The date is not after `to`, if given.
pub open spec fn on_or_before(d: Date, to: Option<Date>) -> bool {
    match to {
        Some(t) => !date_before(t@, d@),
        None => true,
    }
}

/// An invoice is listed under the filter for the viewer: its number
/// matches the search text (its trimmed term occurs in it, ASCII letters
/// compared without case; no text or a blank one matches all); its status
/// and party are those asked for; its issue and due dates lie within the
/// dates given; and a staff member sees only the invoices they created.
pub open spec fn invoice_listed(
    f: InvoiceFilter,
    viewer_user_id: i32,
    viewer_role: Role,
    m: invoice_entity::Model,
) -> bool {
    &&& match f.q {
        Some(q) => search_hits(Some(q@), m.invoice_no@),
        None => true,
    }
    &&& match f.status {
        Some(s) => m.status == s,
        None => true,
    }
    &&& match f.party_id {
        Some(p) => m.party_id == p,
        None => true,
    }
    &&& on_or_after(m.issue_date, f.from_issue)
    &&& on_or_before(m.issue_date, f.to_issue)
    &&& on_or_after(m.due_date, f.from_due)
    &&& on_or_before(m.due_date, f.to_due)
    &&& (viewer_role == Role::Staff ==> m.created_by_user_id == viewer_user_id)
}

/// An invoice meets every filter given: its number holds the search term,
/// it has the status and party asked for, its issue and due dates lie
/// within the bounds given, and a staff member's list holds only invoices
/// they created.
pub open spec fn meets_invoice_filters(
    f: InvoiceFilter,
    viewer_user_id: i32,
    viewer_role: Role,
    m: invoice_entity::Model,
) -> bool {
    &&& (f.q matches Some(q) ==> search_hits(Some(q@), m.invoice_no@))
    &&& (f.status matches Some(s) ==> m.status == s)
    &&& (f.party_id matches Some(p) ==> m.party_id == p)
    &&& (f.from_issue matches Some(d) ==> !date_before(m.issue_date@, d@))
    &&& (f.to_issue matches Some(d) ==> !date_before(d@, m.issue_date@))
    &&& (f.from_due matches Some(d) ==> !date_before(m.due_date@, d@))
    &&& (f.to_due matches Some(d) ==> !date_before(d@, m.due_date@))
    &&& (viewer_role == Role::Staff ==> m.created_by_user_id == viewer_user_id)
}

/// An invoice is listed exactly when it meets every filter given: one of
/// another party, of another status, outside the dates, not matching the
/// search, or (for staff) made by someone else is never listed, and every
/// other one is.
pub proof fn lemma_listed_exactly_when_filters_met(
    f: InvoiceFilter,
    viewer_user_id: i32,
    viewer_role: Role,
    m: invoice_entity::Model,
)
    ensures
        invoice_listed(f, viewer_user_id, viewer_role, m) <==> meets_invoice_filters(
            f,
            viewer_user_id,
            viewer_role,
            m,
        ),
        invoice_listed(f, viewer_user_id, viewer_role, m) ==> (f.party_id matches Some(p) ==> m.party_id == p),
{
}

/// Which of the invoices are listed under the filter for the viewer.
pub open spec fn invoices_listed(
    f: InvoiceFilter,
    viewer_user_id: i32,
    viewer_role: Role,
    models: Seq<invoice_entity::Model>,
) -> Seq<bool> {
    models.map_values(|m: invoice_entity::Model| invoice_listed(f, viewer_user_id, viewer_role, m))
}

fn date_at_least(d: &Date, from: &Option<Date>) -> (r: bool)
    ensures
        r == on_or_after(*d, *from),
{
    match from {
        Some(f) => !d.is_before(f),
        None => true,
    }
}

fn date_at_most(d: &Date, to: &Option<Date>) -> (r: bool)
    ensures
        r == on_or_before(*d, *to),
{
    match to {
        Some(t) => !t.is_before(d),
        None => true,
    }
}

impl InvoiceFilter {
    /// Whether an invoice is listed under this filter for the viewer.
    pub fn matches(&self, m: &invoice_entity::Model, viewer_user_id: i32, viewer_role: Role) -> (r: bool)
        ensures
            r == invoice_listed(*self, viewer_user_id, viewer_role, *m),
            r == meets_invoice_filters(*self, viewer_user_id, viewer_role, *m),
            r ==> (self.party_id matches Some(p) ==> m.party_id == p),
            r ==> (self.status matches Some(s) ==> m.status == s),
    {
        match &self.q {
            Some(q) => match search_term(q.as_str()) {
                Some(t) => {
                    if !contains_ignore_ascii_case(m.invoice_no.as_str(), t.as_str()) {
                        return false;
                    }
                },
                None => {},
            },
            None => {},
        }
        match self.status {
            Some(s) => {
                if m.status != s {
                    return false;
                }
            },
            None => {},
        }
        match self.party_id {
            Some(p) => {
                if m.party_id != p {
                    return false;
                }
            },
            None => {},
        }
        if !date_at_least(&m.issue_date, &self.from_issue) || !date_at_most(&m.issue_date, &self.to_issue)
            || !date_at_least(&m.due_date, &self.from_due) || !date_at_most(&m.due_date, &self.to_due) {
            return false;
        }
        match Invoice::creator_scope(viewer_user_id, viewer_role) {
            Some(u) => m.created_by_user_id == u,
            None => true,
        }
    }
}

impl Invoice {
    /// One page of the invoice list. `models` are the invoices newest issue
    /// date first (then highest id); those listed under the filter for the
    /// viewer are cut into pages of `per_page`, and the page asked for
    /// (brought within the pages there are) is picked. Gives the positions
    /// in `models` of the invoices on the page shown, in order, the number
    /// of pages and the page shown.
    pub fn list_page(
        models: &[invoice_entity::Model],
        filter: &InvoiceFilter,
        viewer_user_id: i32,
        viewer_role: Role,
        page: u32,
        per_page: u64,
    ) -> (r: (Vec<usize>, u32, u32))
        requires
            per_page > 0,
        ensures
            ({
                let keep = invoices_listed(*filter, viewer_user_id, viewer_role, models@);
                &&& (r.1, r.2) == clamp_spec(page, pages_for(matching(keep).len(), per_page as nat) as u64)
                &&& as_ints(r.0@) == page_slice(matching(keep), r.2, per_page as nat)
            }),
            1 <= r.2 <= r.1,
            r.0@.len() <= per_page,
            forall|k: int|
                0 <= k < r.0@.len() ==> (#[trigger] r.0@[k] as int) < models@.len() && invoice_listed(
                    *filter,
                    viewer_user_id,
                    viewer_role,
                    models@[r.0@[k] as int],
                ) && meets_invoice_filters(*filter, viewer_user_id, viewer_role, models@[r.0@[k] as int]),
            forall|a: int, b: int| 0 <= a < b < r.0@.len() ==> #[trigger] r.0@[a] < #[trigger] r.0@[b],
    {
        let mut keep: Vec<bool> = Vec::new();
        let mut i: usize = 0;
        while i < models.len()
            invariant
                0 <= i <= models@.len(),
                keep@.len() == i,
                forall|j: int|
                    0 <= j < i ==> #[trigger] keep@[j] == invoice_listed(
                        *filter,
                        viewer_user_id,
                        viewer_role,
                        models@[j],
                    ),
            decreases models.len() - i,
        {
            let b = filter.matches(&models[i], viewer_user_id, viewer_role);
            keep.push(b);
            i = i + 1;
        }
        proof {
            assert(keep@ =~= invoices_listed(*filter, viewer_user_id, viewer_role, models@));
        }
        let r = page_of_matches(&keep, page, per_page);
        proof {
            lemma_page_positions(keep@, r.2, per_page as nat, r.0@);
        }
        r
    }
}

} // verus!

//! Invoice data as the application handles it.

use vstd::prelude::*;

use crate::amount::Amount;
use crate::calendar::{Date, DateTime};
use crate::entity::invoice as invoice_entity;
use crate::entity::invoice::InvoiceStatus;
use crate::entity::invoice_line_item as line_item_entity;
use crate::entity::invoice_line_item::GstRate;

use super::calc::{line_gst_amount, line_gst_spec, line_total, line_total_spec};

verus! {

/// An invoice with the names and total shown alongside it.
#[derive(Clone, Debug)]
pub struct Invoice {
    pub id: i32,
    pub party_id: i32,
    pub created_by_user_id: i32,
    pub invoice_no: String,
    pub issue_date: Date,
    pub due_date: Date,
    pub status: InvoiceStatus,
    pub created_at: DateTime,
    pub updated_at: DateTime,
    pub party_name: Option<String>,
    pub created_by_name: Option<String>,
    pub grand_total: Amount,
}

impl Invoice {
    /// The invoice of a record, with no names and a zero total yet.
    pub fn from_model(m: invoice_entity::Model) -> (r: Invoice)
        ensures
            r.id == m.id,
            r.party_id == m.party_id,
            r.created_by_user_id == m.created_by_user_id,
            r.invoice_no == m.invoice_no,
            r.issue_date == m.issue_date,
            r.due_date == m.due_date,
            r.status == m.status,
            r.created_at == m.created_at,
            r.updated_at == m.updated_at,
            r.party_name is None,
            r.created_by_name is None,
            r.grand_total@ == (0i128, 0u32),
    {
        Invoice {
            id: m.id,
            party_id: m.party_id,
            created_by_user_id: m.created_by_user_id,
            invoice_no: m.invoice_no,
            issue_date: m.issue_date,
            due_date: m.due_date,
            status: m.status,
            created_at: m.created_at,
            updated_at: m.updated_at,
            party_name: None,
            created_by_name: None,
            grand_total: Amount::zero(),
        }
    }
}

/// An invoice line with its totals worked out for display.
#[derive(Clone, Debug)]
pub struct InvoiceLineItem {
    pub invoice_id: i32,
    pub description: String,
    pub quantity: i32,
    pub unit_price: Amount,
    pub gst_rate: GstRate,
    pub line_total: Amount,
    pub line_gst_amount: Amount,
    pub line_total_with_gst: Amount,
}

impl InvoiceLineItem {
    /// A line with its totals: quantity times unit price, the GST on it
    /// rounded to four places, and their sum. `None` when the decimal
    /// arithmetic overflows.
    pub fn new(
        invoice_id: i32,
        description: String,
        quantity: i32,
        unit_price: Amount,
        gst_rate: GstRate,
    ) -> (r: Option<InvoiceLineItem>)
        ensures
            r is Some <==> (line_total_spec(quantity, unit_price@) matches Some(t) && line_gst_spec(
                quantity,
                unit_price@,
                gst_rate,
            ) matches Some(g) && crate::amount::add_parts(t, g) is Some),
            r matches Some(item) ==> {
                &&& item.invoice_id == invoice_id
                &&& item.description == description
                &&& item.quantity == quantity
                &&& item.unit_price == unit_price
                &&& item.gst_rate == gst_rate
                &&& Some(item.line_total@) == line_total_spec(quantity, unit_price@)
                &&& Some(item.line_gst_amount@) == line_gst_spec(quantity, unit_price@, gst_rate)
                &&& Some(item.line_total_with_gst@) == crate::amount::add_parts(
                    item.line_total@,
                    item.line_gst_amount@,
                )
            },
    {
        let total = match line_total(quantity, &unit_price) {
            Some(t) => t,
            None => return None,
        };
        let gst = match line_gst_amount(quantity, &unit_price, &gst_rate) {
            Some(g) => g,
            None => return None,
        };
        let with_gst = match total.checked_add(&gst) {
            Some(w) => w,
            None => return None,
        };
        Some(
            InvoiceLineItem {
                invoice_id,
                description,
                quantity,
                unit_price,
                gst_rate,
                line_total: total,
                line_gst_amount: gst,
                line_total_with_gst: with_gst,
            },
        )
    }

    /// The line of a record, with its totals worked out as `new` does.
    pub fn from_model(m: line_item_entity::Model) -> (r: Option<InvoiceLineItem>)
        ensures
            r is Some <==> (line_total_spec(m.quantity, m.unit_price@) matches Some(t)
                && line_gst_spec(m.quantity, m.unit_price@, m.gst_rate) matches Some(g)
                && crate::amount::add_parts(t, g) is Some),
            r matches Some(item) ==> {
                &&& item.invoice_id == m.invoice_id
                &&& item.description == m.description
                &&& item.quantity == m.quantity
                &&& item.unit_price == m.unit_price
                &&& item.gst_rate == m.gst_rate
                &&& Some(item.line_total@) == line_total_spec(m.quantity, m.unit_price@)
                &&& Some(item.line_gst_amount@) == line_gst_spec(
                    m.quantity,
                    m.unit_price@,
                    m.gst_rate,
                )
                &&& Some(item.line_total_with_gst@) == crate::amount::add_parts(
                    item.line_total@,
                    item.line_gst_amount@,
                )
            },
    {
        InvoiceLineItem::new(m.invoice_id, m.description, m.quantity, m.unit_price, m.gst_rate)
    }
}

/// The record's totals can be worked out without overflow.
pub open spec fn record_ok(m: line_item_entity::Model) -> bool {
    &&& line_total_spec(m.quantity, m.unit_price@) matches Some(t)
    &&& line_gst_spec(m.quantity, m.unit_price@, m.gst_rate) matches Some(g)
    &&& crate::amount::add_parts(t, g) is Some
}

/// The line shows the record with its totals worked out.
pub open spec fn item_of_record(item: InvoiceLineItem, m: line_item_entity::Model) -> bool {
    &&& item.invoice_id == m.invoice_id
    &&& item.description == m.description
    &&& item.quantity == m.quantity
    &&& item.unit_price == m.unit_price
    &&& item.gst_rate == m.gst_rate
    &&& Some(item.line_total@) == line_total_spec(m.quantity, m.unit_price@)
    &&& Some(item.line_gst_amount@) == line_gst_spec(m.quantity, m.unit_price@, m.gst_rate)
    &&& Some(item.line_total_with_gst@) == crate::amount::add_parts(
        item.line_total@,
        item.line_gst_amount@,
    )
}

/// A copy of a line item record.
fn copy_line_record(m: &line_item_entity::Model) -> (r: line_item_entity::Model)
    ensures
        r == *m,
{
    line_item_entity::Model {
        id: m.id,
        invoice_id: m.invoice_id,
        description: m.description.clone(),
        quantity: m.quantity,
        unit_price: m.unit_price,
        gst_rate: m.gst_rate,
    }
}

/// The lines of the records, in order, with their totals worked out;
/// `None` when a line's arithmetic overflows.
pub fn items_from_models(models: &[line_item_entity::Model]) -> (r: Option<Vec<InvoiceLineItem>>)
    ensures
        r is Some <==> forall|i: int| 0 <= i < models@.len() ==> record_ok(#[trigger] models@[i]),
        r matches Some(v) ==> v@.len() == models@.len() && forall|i: int|
            0 <= i < v@.len() ==> item_of_record(#[trigger] v@[i], models@[i]),
{
    let mut out: Vec<InvoiceLineItem> = Vec::new();
    let mut i: usize = 0;
    while i < models.len()
        invariant
            0 <= i <= models@.len(),
            out@.len() == i,
            forall|j: int| 0 <= j < i ==> record_ok(#[trigger] models@[j]),
            forall|j: int| 0 <= j < i ==> item_of_record(#[trigger] out@[j], models@[j]),
        decreases models.len() - i,
    {
        let m = copy_line_record(&models[i]);
        match InvoiceLineItem::from_model(m) {
            Some(item) => {
                out.push(item);
            },
            None => {
                proof {
                    assert(!record_ok(models@[i as int]));
                }
                return None;
            },
        }
        i = i + 1;
    }
    Some(out)
}

/// One line as entered when creating or updating an invoice.
#[derive(Clone, Debug)]
pub struct LineItemInput {
    pub description: String,
    pub quantity: i32,
    pub unit_price: Amount,
    pub gst_rate: GstRate,
}

/// The line items of one invoice, for the GST report.
#[derive(Clone, Debug)]
pub struct GstInvoiceLineGroup {
    pub invoice_id: i32,
    pub invoice_no: String,
    pub issue_date: Date,
    pub items: Vec<InvoiceLineItem>,
}

} // verus!

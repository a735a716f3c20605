//! The GST summary: the GST charged on sales invoices over a period.

use vstd::prelude::*;

use crate::amount::{parts_of, sum_amounts, sum_fits, sum_parts, val, val_sum, Amount};
use crate::calendar::Date;
use crate::entity::invoice_line_item::GstRate;
use crate::models::invoice::types::{GstInvoiceLineGroup, InvoiceLineItem};

verus! {

/// One invoice on the GST summary.
#[derive(Clone, Debug)]
pub struct GstInvoice {
    pub invoice_id: i32,
    pub invoice_no: String,
    pub issue_date: Date,
    pub gst_amount: Amount,
}

/// The GST charged over a period (open-ended where a bound is `None`).
#[derive(Clone, Debug)]
pub struct GstSummary {
    pub from: Option<Date>,
    pub to: Option<Date>,
    pub total_gst: Amount,
    pub invoices: Vec<GstInvoice>,
}

/// The GST amounts of the standard-rated lines, in order.
pub open spec fn standard_gst(items: Seq<InvoiceLineItem>) -> Seq<(i128, u32)>
    decreases items.len(),
{
    if items.len() == 0 {
        Seq::empty()
    } else {
        let rest = standard_gst(items.drop_last());
        if items.last().gst_rate == GstRate::Standard {
            rest.push(items.last().line_gst_amount@)
        } else {
            rest
        }
    }
}

/// The exact GST of the standard-rated lines: the sum, over every line
/// whose rate is standard, of that line's GST amount.
pub open spec fn standard_gst_value(items: Seq<InvoiceLineItem>) -> int
    decreases items.len(),
{
    if items.len() == 0 {
        0
    } else {
        standard_gst_value(items.drop_last()) + if items.last().gst_rate == GstRate::Standard {
            val(items.last().line_gst_amount@)
        } else {
            0
        }
    }
}

/// The GST amounts of the lines kept when the standard-rated ones are
/// picked out.
pub open spec fn picked_standard_gst(items: Seq<InvoiceLineItem>) -> Seq<(i128, u32)> {
    items.filter(|it: InvoiceLineItem| it.gst_rate == GstRate::Standard).map_values(
        |it: InvoiceLineItem| it.line_gst_amount@,
    )
}

/// An invoice's GST amounts are those of all its standard-rated lines and
/// of no other, in order, and their exact sum is the GST of every
/// standard-rated line added up.
pub proof fn lemma_standard_gst_keeps_every_standard_line(items: Seq<InvoiceLineItem>)
    ensures
        standard_gst(items) == picked_standard_gst(items),
        val_sum(standard_gst(items)) == standard_gst_value(items),
    decreases items.len(),
{
    reveal(Seq::filter);
    if items.len() > 0 {
        let d = items.drop_last();
        lemma_standard_gst_keeps_every_standard_line(d);
        let p = |it: InvoiceLineItem| it.gst_rate == GstRate::Standard;
        let g = |it: InvoiceLineItem| it.line_gst_amount@;
        assert(items.filter(p) == if p(items.last()) {
            d.filter(p).push(items.last())
        } else {
            d.filter(p)
        });
        if p(items.last()) {
            assert(items.filter(p).map_values(g) =~= d.filter(p).map_values(g).push(g(items.last())));
            assert(standard_gst(items).drop_last() =~= standard_gst(d));
        }
    }
}

/// Parts of an invoice's GST: the sum of its standard-rated lines' GST.
pub open spec fn group_gst(g: GstInvoiceLineGroup) -> Option<(i128, u32)> {
    sum_parts(standard_gst(g.items@))
}

/// Every invoice's GST can be summed.
pub open spec fn all_gst_defined(groups: Seq<GstInvoiceLineGroup>) -> bool {
    forall|i: int| 0 <= i < groups.len() ==> group_gst(#[trigger] groups[i]) is Some
}

/// The invoices listed, in order: those whose GST is not zero, each with
/// its id, number, issue date and GST.
pub open spec fn listed_invoices(groups: Seq<GstInvoiceLineGroup>) -> Seq<
    (i32, Seq<char>, (i32, u32, u32), (i128, u32)),
>
    decreases groups.len(),
{
    if groups.len() == 0 {
        Seq::empty()
    } else {
        let rest = listed_invoices(groups.drop_last());
        let g = groups.last();
        let gst = group_gst(g).unwrap();
        if val(gst) == 0 {
            rest
        } else {
            rest.push((g.invoice_id, g.invoice_no@, g.issue_date@, gst))
        }
    }
}

/// The GST of each listed invoice.
pub open spec fn listed_gst(ls: Seq<(i32, Seq<char>, (i32, u32, u32), (i128, u32))>) -> Seq<
    (i128, u32),
> {
    ls.map_values(|l: (i32, Seq<char>, (i32, u32, u32), (i128, u32))| l.3)
}

/// The id, number, issue date and GST of each summary line.
pub open spec fn gst_view(v: Seq<GstInvoice>) -> Seq<(i32, Seq<char>, (i32, u32, u32), (i128, u32))> {
    v.map_values(|x: GstInvoice| (x.invoice_id, x.invoice_no@, x.issue_date@, x.gst_amount@))
}

/// The GST of the standard-rated lines of an invoice, in order.
fn standard_amounts(items: &Vec<InvoiceLineItem>) -> (r: Vec<Amount>)
    ensures
        parts_of(r@) == standard_gst(items@),
        parts_of(r@) == picked_standard_gst(items@),
{
    proof {
        lemma_standard_gst_keeps_every_standard_line(items@);
    }
    let mut out: Vec<Amount> = Vec::new();
    let mut i: usize = 0;
    proof {
        assert(items@.take(0) =~= Seq::<InvoiceLineItem>::empty());
        assert(parts_of(out@) =~= Seq::<(i128, u32)>::empty());
    }
    while i < items.len()
        invariant
            0 <= i <= items@.len(),
            parts_of(out@) == standard_gst(items@.take(i as int)),
        decreases items.len() - i,
    {
        proof {
            assert(items@.take(i + 1).drop_last() =~= items@.take(i as int));
            assert(items@.take(i + 1).last() == items@[i as int]);
        }
        if items[i].gst_rate == GstRate::Standard {
            let ghost before = out@;
            out.push(items[i].line_gst_amount);
            proof {
                assert(parts_of(out@) =~= parts_of(before).push(items@[i as int].line_gst_amount@));
            }
        }
        i = i + 1;
    }
    proof {
        assert(items@.take(items@.len() as int) =~= items@);
    }
    out
}

/// GST report.
pub struct GstReport;

impl GstReport {
    /// The GST summary of the invoices of a period, given with their line
    /// items (the caller selects them): each invoice's GST is the sum of the
    /// GST of its standard-rated lines; invoices with no GST are left out;
    /// the total is the sum over the listed invoices. Only GST charged on
    /// sales is counted. `None` when a sum overflows.
    pub fn compute(groups: Vec<GstInvoiceLineGroup>, from: Option<Date>, to: Option<Date>) -> (r:
        Option<GstSummary>)
        ensures
            r is Some <==> all_gst_defined(groups@) && sum_parts(
                listed_gst(listed_invoices(groups@)),
            ) is Some,
            r matches Some(s) ==> {
                &&& s.from == from
                &&& s.to == to
                &&& gst_view(s.invoices@) == listed_invoices(groups@)
                &&& Some(s.total_gst@) == sum_parts(listed_gst(listed_invoices(groups@)))
            },
            r matches Some(s) ==> (sum_fits(listed_gst(listed_invoices(groups@))) ==> val(
                s.total_gst@,
            ) == val_sum(listed_gst(listed_invoices(groups@)))),
            forall|i: int|
                0 <= i < listed_invoices(groups@).len() ==> val(
                    (#[trigger] listed_invoices(groups@)[i]).3,
                ) != 0,
            r is Some ==> forall|j: int|
                0 <= j < groups@.len() && sum_fits(picked_standard_gst(groups@[j].items@)) ==> val(
                    group_gst(#[trigger] groups@[j]).unwrap(),
                ) == standard_gst_value(groups@[j].items@),
    {
        proof {
            lemma_listed_nonzero(groups@);
        }
        let mut invoices: Vec<GstInvoice> = Vec::new();
        let mut amounts: Vec<Amount> = Vec::new();
        let mut i: usize = 0;
        proof {
            assert(groups@.take(0) =~= Seq::<GstInvoiceLineGroup>::empty());
            assert(gst_view(invoices@) =~= Seq::<(i32, Seq<char>, (i32, u32, u32), (i128, u32))>::empty());
            assert(parts_of(amounts@) =~= Seq::<(i128, u32)>::empty());
        }
        while i < groups.len()
            invariant
                0 <= i <= groups@.len(),
                all_gst_defined(groups@.take(i as int)),
                gst_view(invoices@) == listed_invoices(groups@.take(i as int)),
                parts_of(amounts@) == listed_gst(listed_invoices(groups@.take(i as int))),
                forall|j: int|
                    0 <= j < i && sum_fits(picked_standard_gst(groups@[j].items@)) ==> val(
                        group_gst(#[trigger] groups@[j]).unwrap(),
                    ) == standard_gst_value(groups@[j].items@),
            decreases groups.len() - i,
        {
            let g = &groups[i];
            proof {
                assert(groups@.take(i + 1).drop_last() =~= groups@.take(i as int));
                assert(groups@.take(i + 1).last() == groups@[i as int]);
            }
            let amts = standard_amounts(&g.items);
            let gst_amount = match sum_amounts(&amts) {
                Some(t) => t,
                None => {
                    proof {
                        assert(!all_gst_defined(groups@)) by {
                            assert(group_gst(groups@[i as int]) is None);
                        }
                        lemma_listed_nonzero(groups@);
                    }
                    return None;
                },
            };
            proof {
                lemma_standard_gst_keeps_every_standard_line(g.items@);
                assert(groups@[i as int] == *g);
                assert(Some(gst_amount@) == group_gst(groups@[i as int]));
                assert forall|j: int| 0 <= j < groups@.len() && sum_fits(picked_standard_gst(groups@[j].items@))
                    && j < i + 1 implies val(group_gst(#[trigger] groups@[j]).unwrap()) == standard_gst_value(
                    groups@[j].items@,
                ) by {
                    if j == i {
                        assert(sum_fits(parts_of(amts@)));
                    }
                }
                assert forall|j: int| 0 <= j < i + 1 implies group_gst(
                    #[trigger] groups@.take(i + 1)[j],
                ) is Some by {
                    if j < i {
                        assert(groups@.take(i + 1)[j] == groups@.take(i as int)[j]);
                    }
                }
            }
            if !gst_amount.is_zero() {
                let ghost before_inv = invoices@;
                let ghost before_amts = amounts@;
                invoices.push(
                    GstInvoice {
                        invoice_id: g.invoice_id,
                        invoice_no: g.invoice_no.clone(),
                        issue_date: g.issue_date,
                        gst_amount,
                    },
                );
                amounts.push(gst_amount);
                proof {
                    assert(gst_view(invoices@) =~= gst_view(before_inv).push(
                        (g.invoice_id, g.invoice_no@, g.issue_date@, gst_amount@),
                    ));
                    assert(parts_of(amounts@) =~= parts_of(before_amts).push(gst_amount@));
                    assert(listed_gst(listed_invoices(groups@.take(i + 1))) =~= listed_gst(
                        listed_invoices(groups@.take(i as int)),
                    ).push(gst_amount@));
                }
            }
            i = i + 1;
        }
        proof {
            assert(groups@.take(groups@.len() as int) =~= groups@);
        }
        let total_gst = match sum_amounts(&amounts) {
            Some(t) => t,
            None => {
                return None;
            },
        };
        Some(GstSummary { from, to, total_gst, invoices })
    }
}

/// No listed invoice has zero GST.
pub proof fn lemma_listed_nonzero(groups: Seq<GstInvoiceLineGroup>)
    ensures
        forall|i: int|
            0 <= i < listed_invoices(groups).len() ==> val(
                (#[trigger] listed_invoices(groups)[i]).3,
            ) != 0,
    decreases groups.len(),
{
    if groups.len() > 0 {
        lemma_listed_nonzero(groups.drop_last());
        let rest = listed_invoices(groups.drop_last());
        assert forall|i: int| 0 <= i < listed_invoices(groups).len() implies val(
            (#[trigger] listed_invoices(groups)[i]).3,
        ) != 0 by {
            if i < rest.len() {
                assert(listed_invoices(groups)[i] == rest[i]);
            }
        }
    }
}

} // verus!

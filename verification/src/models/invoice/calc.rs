//! Invoice arithmetic: line totals, GST and invoice totals.

use vstd::prelude::*;

use crate::amount::{
    abs_sum, add_parts, fits_at, lemma_pow10_monotonic, max_nat, max_scale, mul_parts, opt_parts, parts_of,
    pow10, room, round_parts, sum_amounts, sum_fits, sum_parts, val, val_sum, Amount, MAX_MANTISSA,
};
use crate::entity::invoice_line_item::GstRate;

use super::types::InvoiceLineItem;

verus! {

/// Parts of `Decimal::from(quantity) * unit_price`.
pub open spec fn line_total_spec(quantity: i32, unit_price: (i128, u32)) -> Option<(i128, u32)> {
    mul_parts((quantity as i128, 0u32), unit_price)
}

/// Parts of the line's GST: the line total times the rate, rounded to four
/// decimal places.
pub open spec fn line_gst_spec(quantity: i32, unit_price: (i128, u32), gst_rate: GstRate) -> Option<
    (i128, u32),
> {
    match line_total_spec(quantity, unit_price) {
        Some(t) => match mul_parts(t, gst_rate.spec_rate()) {
            Some(g) => Some(round_parts(g, 4)),
            None => None,
        },
        None => None,
    }
}

/// Applies `f` to every item; `None` as soon as one gives `None`.
pub open spec fn map_all<A>(s: Seq<A>, f: spec_fn(A) -> Option<(i128, u32)>) -> Option<
    Seq<(i128, u32)>,
>
    decreases s.len(),
{
    if s.len() == 0 {
        Some(Seq::empty())
    } else {
        match (map_all(s.drop_last(), f), f(s.last())) {
            (Some(xs), Some(x)) => Some(xs.push(x)),
            _ => None,
        }
    }
}

pub open spec fn item_line_total(item: InvoiceLineItem) -> Option<(i128, u32)> {
    line_total_spec(item.quantity, item.unit_price@)
}

pub open spec fn item_line_gst(item: InvoiceLineItem) -> Option<(i128, u32)> {
    line_gst_spec(item.quantity, item.unit_price@, item.gst_rate)
}

/// Parts of the subtotal: the line totals, worked out again from quantity
/// and unit price, summed from zero.
pub open spec fn subtotal_spec(items: Seq<InvoiceLineItem>) -> Option<(i128, u32)> {
    match map_all(items, |i: InvoiceLineItem| item_line_total(i)) {
        Some(ts) => sum_parts(ts),
        None => None,
    }
}

/// Parts of the GST total: the GST of each line summed from zero.
pub open spec fn gst_total_spec(items: Seq<InvoiceLineItem>) -> Option<(i128, u32)> {
    match map_all(items, |i: InvoiceLineItem| item_line_gst(i)) {
        Some(gs) => sum_parts(gs),
        None => None,
    }
}

/// Parts of the grand total: subtotal plus GST total.
pub open spec fn grand_total_spec(items: Seq<InvoiceLineItem>) -> Option<(i128, u32)> {
    match (subtotal_spec(items), gst_total_spec(items)) {
        (Some(s), Some(g)) => add_parts(s, g),
        _ => None,
    }
}

/// The exact value of the line totals, `Σ quantity × unit price`.
pub open spec fn exact_subtotal(items: Seq<InvoiceLineItem>) -> int
    decreases items.len(),
{
    if items.len() == 0 {
        0
    } else {
        exact_subtotal(items.drop_last()) + items.last().quantity * val(items.last().unit_price@)
    }
}

/// The magnitudes of the line totals, `Σ |quantity × unit price|`.
pub open spec fn abs_subtotal(items: Seq<InvoiceLineItem>) -> int
    decreases items.len(),
{
    if items.len() == 0 {
        0
    } else {
        let v = items.last().quantity * val(items.last().unit_price@);
        abs_subtotal(items.drop_last()) + (if v < 0 { -v } else { v })
    }
}

/// The largest scale among the unit prices.
pub open spec fn max_price_scale(items: Seq<InvoiceLineItem>) -> nat
    decreases items.len(),
{
    if items.len() == 0 {
        0
    } else {
        max_nat(max_price_scale(items.drop_last()), items.last().unit_price@.1 as nat)
    }
}

/// Every line total fits a decimal exactly, and so does every partial sum
/// at the largest unit-price scale.
pub open spec fn lines_fit(items: Seq<InvoiceLineItem>) -> bool {
    &&& forall|i: int|
        0 <= i < items.len() ==> -MAX_MANTISSA <= #[trigger] items[i].quantity * items[i].unit_price@.0
            <= MAX_MANTISSA
    &&& abs_subtotal(items) <= MAX_MANTISSA * pow10(room(max_price_scale(items)))
}

/// The GST of every line can be worked out.
pub open spec fn gsts_defined(items: Seq<InvoiceLineItem>) -> bool {
    forall|i: int| 0 <= i < items.len() ==> (#[trigger] item_line_gst(items[i])) is Some
}

/// The GST of each line, in order.
pub open spec fn every_line_gst(items: Seq<InvoiceLineItem>) -> Seq<(i128, u32)> {
    Seq::new(items.len(), |i: int| item_line_gst(items[i]).unwrap())
}

/// The exact value of the GST of all the lines: the sum, over every line,
/// of that line's GST.
pub open spec fn exact_gst(items: Seq<InvoiceLineItem>) -> int
    decreases items.len(),
{
    if items.len() == 0 {
        0
    } else {
        exact_gst(items.drop_last()) + val(item_line_gst(items.last()).unwrap())
    }
}

/// Mapping succeeds exactly when every item maps, and then gives the
/// image of every item, in order.
proof fn lemma_map_all_every<A>(s: Seq<A>, f: spec_fn(A) -> Option<(i128, u32)>)
    ensures
        (forall|i: int| 0 <= i < s.len() ==> (#[trigger] f(s[i])) is Some) ==> map_all(s, f) == Some(
            Seq::new(s.len(), |i: int| f(s[i]).unwrap()),
        ),
        map_all(s, f) is Some ==> forall|i: int| 0 <= i < s.len() ==> (#[trigger] f(s[i])) is Some,
    decreases s.len(),
{
    if s.len() > 0 {
        let d = s.drop_last();
        lemma_map_all_every(d, f);
        assert forall|i: int| 0 <= i < d.len() implies d[i] == s[i] by {}
        if forall|i: int| 0 <= i < s.len() ==> (#[trigger] f(s[i])) is Some {
            assert(forall|i: int| 0 <= i < d.len() ==> (#[trigger] f(d[i])) is Some) by {
                assert forall|i: int| 0 <= i < d.len() implies (#[trigger] f(d[i])) is Some by {
                    assert(d[i] == s[i]);
                }
            }
            assert(f(s[s.len() - 1]) is Some);
            assert(s.last() == s[s.len() - 1]);
            assert(Seq::new(d.len(), |i: int| f(d[i]).unwrap()).push(f(s.last()).unwrap()) =~= Seq::new(
                s.len(),
                |i: int| f(s[i]).unwrap(),
            ));
        }
        if map_all(s, f) is Some {
            assert forall|i: int| 0 <= i < s.len() implies (#[trigger] f(s[i])) is Some by {
                if i < d.len() {
                    assert(f(d[i]) is Some);
                    assert(d[i] == s[i]);
                } else {
                    assert(s.last() == s[i]);
                }
            }
        }
    }
}

/// The exact sum of the GST of every line is the GST of all lines.
proof fn lemma_every_line_gst_sum(items: Seq<InvoiceLineItem>)
    ensures
        val_sum(every_line_gst(items)) == exact_gst(items),
    decreases items.len(),
{
    if items.len() > 0 {
        lemma_every_line_gst_sum(items.drop_last());
        assert(every_line_gst(items).drop_last() =~= every_line_gst(items.drop_last()));
        assert(every_line_gst(items).last() == item_line_gst(items.last()).unwrap());
    }
}

/// The GST total adds up the GST of every line, the last one included: it
/// is the sum, from zero and in order, of the GST of each line.
pub proof fn lemma_gst_total_counts_every_line(items: Seq<InvoiceLineItem>)
    ensures
        gsts_defined(items) ==> gst_total_spec(items) == sum_parts(every_line_gst(items)),
        !gsts_defined(items) ==> gst_total_spec(items) is None,
{
    lemma_gst_map(items);
}

/// Working out the GST of each line succeeds exactly when every line's GST
/// can be worked out, and gives them all, in order.
proof fn lemma_gst_map(items: Seq<InvoiceLineItem>)
    ensures
        gsts_defined(items) ==> map_all(items, |i: InvoiceLineItem| item_line_gst(i)) == Some(
            every_line_gst(items),
        ),
        map_all(items, |i: InvoiceLineItem| item_line_gst(i)) is Some ==> gsts_defined(items),
{
    let f = |i: InvoiceLineItem| item_line_gst(i);
    lemma_map_all_every(items, f);
    assert forall|i: int| 0 <= i < items.len() implies f(items[i]) == item_line_gst(items[i]) by {}
    if gsts_defined(items) {
        assert forall|i: int| 0 <= i < items.len() implies (#[trigger] f(items[i])) is Some by {
            assert(item_line_gst(items[i]) is Some);
        }
        assert(Seq::new(items.len(), |i: int| f(items[i]).unwrap()) =~= every_line_gst(items));
    }
    if map_all(items, f) is Some {
        assert forall|i: int| 0 <= i < items.len() implies (#[trigger] item_line_gst(items[i])) is Some by {
            assert(f(items[i]) is Some);
        }
    }
}

/// Line total before GST: `Decimal::from(quantity) * unit_price`; `None`
/// when the multiplication overflows. The product is exact whenever
/// `quantity × mantissa` fits in 96 bits.
pub fn line_total(quantity: i32, unit_price: &Amount) -> (r: Option<Amount>)
    ensures
        opt_parts(r) == line_total_spec(quantity, unit_price@),
        -MAX_MANTISSA <= quantity * unit_price@.0 <= MAX_MANTISSA ==> r is Some && val(r.unwrap()@)
            == quantity * val(unit_price@) && r.unwrap()@.1 <= unit_price@.1,
{
    let q = Amount::from_i32(quantity);
    unit_price.parts_are_ok();
    let r = q.checked_mul(unit_price);
    proof {
        if -MAX_MANTISSA <= quantity * unit_price@.0 <= MAX_MANTISSA {
            if quantity == 0 || unit_price@.0 == 0 {
                assert(quantity * unit_price@.0 == 0);
                vstd::arithmetic::mul::lemma_mul_basics(val(unit_price@));
                vstd::arithmetic::mul::lemma_mul_basics(pow10(room(unit_price@.1 as nat)));
            } else {
                vstd::arithmetic::mul::lemma_mul_is_associative(
                    quantity as int,
                    unit_price@.0 as int,
                    pow10(room(unit_price@.1 as nat)),
                );
            }
        }
    }
    r
}

/// GST amount for a line: the line total times the rate, rounded to four
/// decimal places (midpoints to even); `None` when the decimal arithmetic
/// overflows.
pub fn line_gst_amount(quantity: i32, unit_price: &Amount, gst_rate: &GstRate) -> (r: Option<
    Amount,
>)
    ensures
        opt_parts(r) == line_gst_spec(quantity, unit_price@, *gst_rate),
{
    let total = match line_total(quantity, unit_price) {
        Some(t) => t,
        None => return None,
    };
    let rate = gst_rate.rate();
    match total.checked_mul(&rate) {
        Some(g) => Some(g.round_dp(4)),
        None => None,
    }
}

/// Once a prefix fails to map, every longer prefix fails too.
pub proof fn lemma_map_all_none_extends<A>(s: Seq<A>, f: spec_fn(A) -> Option<(i128, u32)>, k: int)
    requires
        0 <= k <= s.len(),
        map_all(s.take(k), f) is None,
    ensures
        map_all(s, f) is None,
    decreases s.len() - k,
{
    if k < s.len() {
        assert(s.take(k + 1).drop_last() =~= s.take(k));
        lemma_map_all_none_extends(s, f, k + 1);
    } else {
        assert(s.take(k) =~= s);
    }
}

/// The line totals of every item, worked out from quantity and unit price.
fn line_totals(items: &[InvoiceLineItem]) -> (r: Option<Vec<Amount>>)
    ensures
        match r {
            Some(v) => map_all(items@, |i: InvoiceLineItem| item_line_total(i)) == Some(parts_of(v@)),
            None => map_all(items@, |i: InvoiceLineItem| item_line_total(i)) is None,
        },
        lines_fit(items@) ==> r is Some && val_sum(parts_of(r.unwrap()@)) == exact_subtotal(items@)
            && abs_sum(parts_of(r.unwrap()@)) == abs_subtotal(items@)
            && max_scale(parts_of(r.unwrap()@)) <= max_price_scale(items@),
{
    let ghost f = |i: InvoiceLineItem| item_line_total(i);
    let mut out: Vec<Amount> = Vec::new();
    let mut i: usize = 0;
    proof {
        assert(items@.take(0) =~= Seq::<InvoiceLineItem>::empty());
        assert(parts_of(out@) =~= Seq::<(i128, u32)>::empty());
    }
    while i < items.len()
        invariant
            0 <= i <= items.len(),
            f == (|i: InvoiceLineItem| item_line_total(i)),
            map_all(items@.take(i as int), f) == Some(parts_of(out@)),
            lines_fit(items@) ==> val_sum(parts_of(out@)) == exact_subtotal(items@.take(i as int))
                && abs_sum(parts_of(out@)) == abs_subtotal(items@.take(i as int))
                && max_scale(parts_of(out@)) <= max_price_scale(items@.take(i as int)),
        decreases items.len() - i,
    {
        let item = &items[i];
        let ghost pre = items@.take(i as int);
        let ghost post = items@.take(i + 1);
        proof {
            assert(post.drop_last() =~= pre);
            assert(post.last() == *item);
        }
        match line_total(item.quantity, &item.unit_price) {
            Some(t) => {
                let ghost old_out = parts_of(out@);
                out.push(t);
                proof {
                    assert(parts_of(out@) =~= old_out.push(t@));
                    assert(parts_of(out@).drop_last() =~= old_out);
                    if lines_fit(items@) {
                        assert(-MAX_MANTISSA <= items@[i as int].quantity * items@[i as int].unit_price@.0 <= MAX_MANTISSA);
                    }
                }
            },
            None => {
                proof {
                    if lines_fit(items@) {
                        assert(-MAX_MANTISSA <= items@[i as int].quantity * items@[i as int].unit_price@.0 <= MAX_MANTISSA);
                    }
                    lemma_map_all_none_extends(items@, f, i + 1);
                }
                return None;
            },
        }
        i = i + 1;
    }
    proof {
        assert(items@.take(items.len() as int) =~= items@);
    }
    Some(out)
}

/// Sum of line totals before GST, each worked out from quantity and unit
/// price; `None` when the decimal arithmetic overflows. When every line
/// total and partial sum fits (`lines_fit`), the sum is exact.
pub fn subtotal(items: &[InvoiceLineItem]) -> (r: Option<Amount>)
    ensures
        opt_parts(r) == subtotal_spec(items@),
        lines_fit(items@) ==> r is Some && val(r.unwrap()@) == exact_subtotal(items@)
            && r.unwrap()@.1 <= max_price_scale(items@),
{
    match line_totals(items) {
        Some(ts) => {
            let r = sum_amounts(&ts);
            proof {
                if lines_fit(items@) {
                    lemma_pow10_monotonic(
                        room(max_price_scale(items@)),
                        room(max_scale(parts_of(ts@))),
                    );
                    vstd::arithmetic::mul::lemma_mul_inequality(
                        pow10(room(max_price_scale(items@))),
                        pow10(room(max_scale(parts_of(ts@)))),
                        MAX_MANTISSA as int,
                    );
                    vstd::arithmetic::mul::lemma_mul_is_commutative(
                        MAX_MANTISSA as int,
                        pow10(room(max_price_scale(items@))),
                    );
                    vstd::arithmetic::mul::lemma_mul_is_commutative(
                        MAX_MANTISSA as int,
                        pow10(room(max_scale(parts_of(ts@)))),
                    );
                    assert(sum_fits(parts_of(ts@)));
                }
            }
            r
        },
        None => None,
    }
}

/// The GST of every item.
fn line_gsts(items: &[InvoiceLineItem]) -> (r: Option<Vec<Amount>>)
    ensures
        match r {
            Some(v) => map_all(items@, |i: InvoiceLineItem| item_line_gst(i)) == Some(parts_of(v@)),
            None => map_all(items@, |i: InvoiceLineItem| item_line_gst(i)) is None,
        },
{
    let ghost f = |i: InvoiceLineItem| item_line_gst(i);
    let mut out: Vec<Amount> = Vec::new();
    let mut i: usize = 0;
    proof {
        assert(items@.take(0) =~= Seq::<InvoiceLineItem>::empty());
        assert(parts_of(out@) =~= Seq::<(i128, u32)>::empty());
    }
    while i < items.len()
        invariant
            0 <= i <= items.len(),
            f == (|i: InvoiceLineItem| item_line_gst(i)),
            map_all(items@.take(i as int), f) == Some(parts_of(out@)),
        decreases items.len() - i,
    {
        let item = &items[i];
        proof {
            assert(items@.take(i + 1).drop_last() =~= items@.take(i as int));
        }
        match line_gst_amount(item.quantity, &item.unit_price, &item.gst_rate) {
            Some(g) => {
                let ghost old_out = parts_of(out@);
                out.push(g);
                proof {
                    assert(parts_of(out@) =~= old_out.push(g@));
                }
            },
            None => {
                proof {
                    lemma_map_all_none_extends(items@, f, i + 1);
                }
                return None;
            },
        }
        i = i + 1;
    }
    proof {
        assert(items@.take(items.len() as int) =~= items@);
    }
    Some(out)
}

/// Sum of the GST amounts of all lines; `None` when the decimal arithmetic
/// overflows.
pub fn gst_total(items: &[InvoiceLineItem]) -> (r: Option<Amount>)
    ensures
        opt_parts(r) == gst_total_spec(items@),
        r is Some ==> gsts_defined(items@),
        gsts_defined(items@) && sum_fits(every_line_gst(items@)) ==> r is Some && val(r.unwrap()@)
            == exact_gst(items@) && r.unwrap()@.1 <= max_scale(every_line_gst(items@)),
{
    proof {
        lemma_gst_map(items@);
        lemma_every_line_gst_sum(items@);
    }
    match line_gsts(items) {
        Some(gs) => sum_amounts(&gs),
        None => None,
    }
}

/// Subtotal plus GST total; `None` when the decimal arithmetic overflows.
pub fn grand_total(items: &[InvoiceLineItem]) -> (r: Option<Amount>)
    ensures
        opt_parts(r) == grand_total_spec(items@),
        lines_fit(items@) && gsts_defined(items@) && sum_fits(every_line_gst(items@)) && fits_at(
            exact_subtotal(items@) + exact_gst(items@),
            max_nat(max_price_scale(items@), max_scale(every_line_gst(items@))),
        ) ==> r is Some && val(r.unwrap()@) == exact_subtotal(items@) + exact_gst(items@),
{
    let s = subtotal(items);
    let g = gst_total(items);
    proof {
        if lines_fit(items@) && gsts_defined(items@) && sum_fits(every_line_gst(items@)) {
            let sv = s.unwrap()@;
            let gv = g.unwrap()@;
            let big = max_nat(max_price_scale(items@), max_scale(every_line_gst(items@)));
            let m = max_nat(sv.1 as nat, gv.1 as nat);
            assert(m <= big);
            assert(room(big) <= room(m));
            lemma_pow10_monotonic(room(big), room(m));
            vstd::arithmetic::mul::lemma_mul_inequality(pow10(room(big)), pow10(room(m)), MAX_MANTISSA as int);
            vstd::arithmetic::mul::lemma_mul_is_commutative(MAX_MANTISSA as int, pow10(room(big)));
            vstd::arithmetic::mul::lemma_mul_is_commutative(MAX_MANTISSA as int, pow10(room(m)));
        }
    }
    match (s, g) {
        (Some(s), Some(g)) => s.checked_add(&g),
        _ => None,
    }
}

} // verus!

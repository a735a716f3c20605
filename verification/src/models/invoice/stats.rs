//! Invoice counts for the dashboard.

use vstd::prelude::*;

use crate::entity::invoice::InvoiceStatus;

verus! {

/// An invoice is awaiting payment while it is sent or partially paid.
pub open spec fn is_unpaid(s: InvoiceStatus) -> bool {
    s == InvoiceStatus::Sent || s == InvoiceStatus::PartiallyPaid
}

/// How many of the statuses are `Draft`.
pub open spec fn draft_count(s: Seq<InvoiceStatus>) -> nat
    decreases s.len(),
{
    if s.len() == 0 {
        0
    } else {
        draft_count(s.drop_last()) + if s.last() == InvoiceStatus::Draft { 1nat } else { 0nat }
    }
}

/// How many of the statuses are awaiting payment.
pub open spec fn unpaid_count(s: Seq<InvoiceStatus>) -> nat
    decreases s.len(),
{
    if s.len() == 0 {
        0
    } else {
        unpaid_count(s.drop_last()) + if is_unpaid(s.last()) { 1nat } else { 0nat }
    }
}

proof fn lemma_counts_bounded(s: Seq<InvoiceStatus>)
    ensures
        draft_count(s) + unpaid_count(s) <= s.len(),
    decreases s.len(),
{
    if s.len() > 0 {
        lemma_counts_bounded(s.drop_last());
    }
}

/// Invoice counts: all invoices, drafts, and those awaiting payment.
#[derive(Clone, Copy, Debug)]
pub struct InvoiceStats {
    pub total: u64,
    pub draft: u64,
    pub unpaid: u64,
}

impl InvoiceStats {
    /// Counts the invoices whose statuses are given: all of them, the
    /// drafts, and those sent or partially paid.
    pub fn compute(statuses: &[InvoiceStatus]) -> (r: InvoiceStats)
        ensures
            r.total == statuses@.len(),
            r.draft == draft_count(statuses@),
            r.unpaid == unpaid_count(statuses@),
            r.draft + r.unpaid <= r.total,
    {
        let mut draft: u64 = 0;
        let mut unpaid: u64 = 0;
        let mut i: usize = 0;
        proof {
            assert(statuses@.take(0) =~= Seq::<InvoiceStatus>::empty());
        }
        while i < statuses.len()
            invariant
                0 <= i <= statuses@.len(),
                draft == draft_count(statuses@.take(i as int)),
                unpaid == unpaid_count(statuses@.take(i as int)),
                draft + unpaid <= i,
            decreases statuses.len() - i,
        {
            let s = statuses[i];
            proof {
                assert(statuses@.take(i + 1).drop_last() =~= statuses@.take(i as int));
                assert(statuses@.take(i + 1).last() == s);
                lemma_counts_bounded(statuses@.take(i + 1));
            }
            if s == InvoiceStatus::Draft {
                draft = draft + 1;
            } else if s == InvoiceStatus::Sent || s == InvoiceStatus::PartiallyPaid {
                unpaid = unpaid + 1;
            }
            i = i + 1;
        }
        proof {
            assert(statuses@.take(statuses@.len() as int) =~= statuses@);
        }
        InvoiceStats { total: statuses.len() as u64, draft, unpaid }
    }
}

} // verus!

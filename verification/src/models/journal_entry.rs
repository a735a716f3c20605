//! Journal entries: creating them and listing them for the audit trail.

use vstd::prelude::*;

use std::collections::HashMap;

use crate::amount::{parts_of, sum_amounts, sum_fits, val, val_sum, Amount};
use crate::calendar::DateTime;
use crate::entity::journal_entry as journal_entry_entity;
use crate::entity::journal_entry::SourceDocument;
use crate::entity::journal_entry_line as journal_entry_line_entity;
use crate::entity::journal_entry_line::EntrySide;
use crate::models::error::PostingError;
use crate::models::posting::{
    all_positive, credit_total_spec, debit_total_spec, first_non_positive, side_amounts, lines_balanced,
    side_parts, validation_defined, JournalEntryLineInput, NewJournalEntry,
};
use crate::text::{concat, int_digits, int_text};

pub use crate::entity::journal_entry::Model as JournalEntry;

verus! {

broadcast use vstd::std_specs::hash::group_hash_axioms;

/// A journal entry line with its account name, for display.
#[derive(Clone, Debug)]
pub struct AuditLine {
    pub account_name: String,
    pub entry_side: EntrySide,
    pub amount: Amount,
    pub description: Option<String>,
}

/// A journal entry with its lines, the name of who posted it, its source
/// document and its debit and credit totals, for display.
#[derive(Clone, Debug)]
pub struct AuditEntry {
    pub id: i32,
    pub created_at: DateTime,
    pub posted_by_name: Option<String>,
    pub source: String,
    pub source_link: Option<String>,
    pub lines: Vec<AuditLine>,
    pub total_debit: Amount,
    pub total_credit: Amount,
}

/// The name a map gives a key, if any.
pub open spec fn map_name(m: Map<i32, String>, k: i32) -> Option<Seq<char>> {
    if m.contains_key(k) {
        Some(m[k]@)
    } else {
        None
    }
}

/// The label of an entry's source document: the invoice number (or
/// `#id`) for an invoice, `Payment #id` for a payment, the claim title (or
/// `#id`) for a claim, `Manual entry` for none; an invoice takes precedence
/// over a payment, a payment over a claim.
pub open spec fn source_label(
    entry: journal_entry_entity::Model,
    invoices: Map<i32, String>,
    claims: Map<i32, String>,
) -> Seq<char> {
    if entry.invoice_id is Some {
        let id = entry.invoice_id.unwrap();
        match map_name(invoices, id) {
            Some(no) => "Invoice "@ + no,
            None => "Invoice #"@ + int_digits(id as int),
        }
    } else if entry.payment_id is Some {
        "Payment #"@ + int_digits(entry.payment_id.unwrap() as int)
    } else if entry.claim_id is Some {
        let id = entry.claim_id.unwrap();
        match map_name(claims, id) {
            Some(title) => "Claim: "@ + title,
            None => "Claim #"@ + int_digits(id as int),
        }
    } else {
        "Manual entry"@
    }
}

/// The page of an entry's source document, by the same precedence.
pub open spec fn source_link_spec(entry: journal_entry_entity::Model) -> Option<Seq<char>> {
    if entry.invoice_id is Some {
        Some("/invoices/"@ + int_digits(entry.invoice_id.unwrap() as int))
    } else if entry.payment_id is Some {
        Some("/payments/"@ + int_digits(entry.payment_id.unwrap() as int))
    } else if entry.claim_id is Some {
        Some("/claims/"@ + int_digits(entry.claim_id.unwrap() as int))
    } else {
        None
    }
}

fn name_in(m: &HashMap<i32, String>, k: i32) -> (r: Option<String>)
    ensures
        match r {
            Some(s) => map_name(m@, k) == Some(s@),
            None => map_name(m@, k) is None,
        },
{
    match m.get(&k) {
        Some(s) => Some(s.clone()),
        None => None,
    }
}

/// A human-readable label for the source document of a journal entry.
pub fn format_source(
    entry: &journal_entry_entity::Model,
    invoice_map: &HashMap<i32, String>,
    claim_map: &HashMap<i32, String>,
) -> (r: String)
    ensures
        r@ == source_label(*entry, invoice_map@, claim_map@),
        entry.invoice_id matches Some(i) ==> r@ == match map_name(invoice_map@, i) {
            Some(no) => "Invoice "@ + no,
            None => "Invoice #"@ + int_digits(i as int),
        },
        entry.invoice_id is None ==> (entry.payment_id matches Some(p) ==> r@ == "Payment #"@
            + int_digits(p as int)),
        entry.invoice_id is None && entry.payment_id is None ==> (entry.claim_id matches Some(c) ==> r@
            == match map_name(claim_map@, c) {
            Some(title) => "Claim: "@ + title,
            None => "Claim #"@ + int_digits(c as int),
        }),
        entry.invoice_id is None && entry.payment_id is None && entry.claim_id is None ==> r@
            == "Manual entry"@,
{
    if let Some(inv_id) = entry.invoice_id {
        match name_in(invoice_map, inv_id) {
            Some(no) => concat("Invoice ", no.as_str()),
            None => concat("Invoice #", int_text(inv_id as i64).as_str()),
        }
    } else if let Some(pay_id) = entry.payment_id {
        concat("Payment #", int_text(pay_id as i64).as_str())
    } else if let Some(cl_id) = entry.claim_id {
        match name_in(claim_map, cl_id) {
            Some(title) => concat("Claim: ", title.as_str()),
            None => concat("Claim #", int_text(cl_id as i64).as_str()),
        }
    } else {
        String::from_str("Manual entry")
    }
}

/// An entry's source label and its link name the same document: the
/// document the entry was posted for (its invoice, else its payment, else
/// its claim), by that document's own id, never the entry's.
pub proof fn lemma_label_and_link_name_the_document(
    entry: journal_entry_entity::Model,
    invoices: Map<i32, String>,
    claims: Map<i32, String>,
)
    ensures
        entry.invoice_id matches Some(i) ==> source_link_spec(entry) == Some("/invoices/"@ + int_digits(i as int))
            && (map_name(invoices, i) is None ==> source_label(entry, invoices, claims) == "Invoice #"@ + int_digits(i as int)),
        entry.invoice_id is None ==> (entry.payment_id matches Some(p) ==> source_label(entry, invoices, claims)
            == "Payment #"@ + int_digits(p as int) && source_link_spec(entry) == Some("/payments/"@ + int_digits(p as int))),
        entry.invoice_id is None && entry.payment_id is None ==> (entry.claim_id matches Some(c) ==> source_link_spec(entry)
            == Some("/claims/"@ + int_digits(c as int)) && (map_name(claims, c) is None ==> source_label(entry, invoices, claims)
            == "Claim #"@ + int_digits(c as int))),
        entry.invoice_id is None && entry.payment_id is None && entry.claim_id is None ==> source_link_spec(entry) is None
            && source_label(entry, invoices, claims) == "Manual entry"@,
{
}

/// The page of the source document of a journal entry, if it has one.
pub fn source_link(entry: &journal_entry_entity::Model) -> (r: Option<String>)
    ensures
        match r {
            Some(s) => source_link_spec(*entry) == Some(s@),
            None => source_link_spec(*entry) is None,
        },
{
    if let Some(id) = entry.invoice_id {
        Some(concat("/invoices/", int_text(id as i64).as_str()))
    } else if let Some(id) = entry.payment_id {
        Some(concat("/payments/", int_text(id as i64).as_str()))
    } else if let Some(id) = entry.claim_id {
        Some(concat("/claims/", int_text(id as i64).as_str()))
    } else {
        None
    }
}

/// The lines of one entry, in their order.
pub open spec fn entry_lines(lines: Seq<journal_entry_line_entity::Model>, entry_id: i32) -> Seq<
    journal_entry_line_entity::Model,
>
    decreases lines.len(),
{
    if lines.len() == 0 {
        Seq::empty()
    } else {
        let rest = entry_lines(lines.drop_last(), entry_id);
        if lines.last().entry_id == entry_id {
            rest.push(lines.last())
        } else {
            rest
        }
    }
}

/// The side and amount of each line.
pub open spec fn line_pairs(lines: Seq<journal_entry_line_entity::Model>) -> Seq<(EntrySide, Amount)> {
    lines.map_values(|l: journal_entry_line_entity::Model| (l.entry_side, l.amount))
}

/// Both totals of the lines can be summed without overflow.
pub open spec fn line_totals_defined(lines: Seq<journal_entry_line_entity::Model>) -> bool {
    crate::amount::sum_parts(side_parts(line_pairs(lines), EntrySide::Debit)) is Some
        && crate::amount::sum_parts(side_parts(line_pairs(lines), EntrySide::Credit)) is Some
}

/// The name shown for an account: its name, or `Account #id` when unknown.
pub open spec fn account_label(names: Map<i32, String>, id: i32) -> Seq<char> {
    match map_name(names, id) {
        Some(n) => n,
        None => "Account #"@ + int_digits(id as int),
    }
}

/// `a` shows the line `l`.
pub open spec fn shows_line(a: AuditLine, l: journal_entry_line_entity::Model, names: Map<i32, String>) -> bool {
    &&& a.account_name@ == account_label(names, l.account_id)
    &&& a.entry_side == l.entry_side
    &&& a.amount == l.amount
    &&& a.description == l.description
}

/// `a` shows the entry `e` with its lines among `lines`.
pub open spec fn shows_entry(
    a: AuditEntry,
    e: journal_entry_entity::Model,
    lines: Seq<journal_entry_line_entity::Model>,
    users: Map<i32, String>,
    accounts: Map<i32, String>,
    invoices: Map<i32, String>,
    claims: Map<i32, String>,
) -> bool {
    let ls = entry_lines(lines, e.id);
    &&& a.id == e.id
    &&& a.created_at == e.created_at
    &&& match a.posted_by_name {
        Some(n) => map_name(users, e.created_by_user_id) == Some(n@),
        None => map_name(users, e.created_by_user_id) is None,
    }
    &&& a.source@ == source_label(e, invoices, claims)
    &&& match a.source_link {
        Some(s) => source_link_spec(e) == Some(s@),
        None => source_link_spec(e) is None,
    }
    &&& a.lines@.len() == ls.len()
    &&& forall|j: int| 0 <= j < ls.len() ==> shows_line(#[trigger] a.lines@[j], ls[j], accounts)
    &&& Some(a.total_debit@) == crate::amount::sum_parts(side_parts(line_pairs(ls), EntrySide::Debit))
    &&& Some(a.total_credit@) == crate::amount::sum_parts(side_parts(line_pairs(ls), EntrySide::Credit))
}

fn audit_line(line: &journal_entry_line_entity::Model, account_names: &HashMap<i32, String>) -> (r: AuditLine)
    ensures
        shows_line(r, *line, account_names@),
{
    let account_name = match name_in(account_names, line.account_id) {
        Some(n) => n,
        None => concat("Account #", int_text(line.account_id as i64).as_str()),
    };
    AuditLine {
        account_name,
        entry_side: line.entry_side,
        amount: line.amount,
        description: line.description.clone(),
    }
}

/// Builds the display form of one entry from all the lines fetched.
fn build_audit_entry(
    entry: &journal_entry_entity::Model,
    lines: &Vec<journal_entry_line_entity::Model>,
    user_names: &HashMap<i32, String>,
    account_names: &HashMap<i32, String>,
    invoice_map: &HashMap<i32, String>,
    claim_map: &HashMap<i32, String>,
) -> (r: Option<AuditEntry>)
    ensures
        r is Some <==> line_totals_defined(entry_lines(lines@, entry.id)),
        r matches Some(a) ==> shows_entry(a, *entry, lines@, user_names@, account_names@, invoice_map@, claim_map@),
{
    let mut shown: Vec<AuditLine> = Vec::new();
    let mut pairs: Vec<(EntrySide, Amount)> = Vec::new();
    let mut i: usize = 0;
    while i < lines.len()
        invariant
            0 <= i <= lines.len(),
            shown@.len() == entry_lines(lines@.take(i as int), entry.id).len(),
            forall|j: int| 0 <= j < shown@.len() ==> shows_line(#[trigger] shown@[j], entry_lines(lines@.take(i as int), entry.id)[j], account_names@),
            pairs@ =~= line_pairs(entry_lines(lines@.take(i as int), entry.id)),
        decreases lines.len() - i,
    {
        let ghost pre = entry_lines(lines@.take(i as int), entry.id);
        proof {
            assert(lines@.take(i + 1).drop_last() =~= lines@.take(i as int));
        }
        if lines[i].entry_id == entry.id {
            let a = audit_line(&lines[i], account_names);
            shown.push(a);
            pairs.push((lines[i].entry_side, lines[i].amount));
            proof {
                assert(entry_lines(lines@.take(i + 1), entry.id) =~= pre.push(lines@[i as int]));
                assert(line_pairs(pre.push(lines@[i as int])) =~= line_pairs(pre).push((lines@[i as int].entry_side, lines@[i as int].amount)));
            }
        }
        i = i + 1;
    }
    proof {
        assert(lines@.take(lines.len() as int) =~= lines@);
    }
    let (total_debit, total_credit) = match totals(pairs.as_slice()) {
        Some(t) => t,
        None => return None,
    };
    let posted_by_name = name_in(user_names, entry.created_by_user_id);
    let source = format_source(entry, invoice_map, claim_map);
    let link = source_link(entry);
    Some(AuditEntry {
        id: entry.id,
        created_at: entry.created_at,
        posted_by_name,
        source,
        source_link: link,
        lines: shown,
        total_debit,
        total_credit,
    })
}

impl JournalEntry {
    /// The entry to write for the lines and source document, once they
    /// pass `JournalEntryLineInput::validate_all`.
    pub fn create(
        lines: Vec<JournalEntryLineInput>,
        source: SourceDocument,
        created_by_user_id: i32,
    ) -> (r: Result<NewJournalEntry, PostingError>)
        requires
            validation_defined(lines@),
        ensures
            r is Ok <==> lines@.len() > 0 && all_positive(lines@) && lines_balanced(lines@),
            r matches Ok(e) ==> (e.payment_id, e.claim_id, e.invoice_id) == source.spec_to_fks()
                && e.created_by_user_id == created_by_user_id && e.lines@ == lines@,
            lines@.len() == 0 ==> r matches Err(PostingError::NoLines),
            lines@.len() > 0 && !all_positive(lines@) ==> (r matches Err(
                PostingError::NonPositiveAmount { amount },
            ) && first_non_positive(lines@, amount)),
            lines@.len() > 0 && all_positive(lines@) && !lines_balanced(lines@) ==> (r matches Err(
                PostingError::UnbalancedEntry { total_debits, total_credits },
            ) && Some(total_debits@) == debit_total_spec(lines@) && Some(total_credits@)
                == credit_total_spec(lines@)),
            sum_fits(side_amounts(lines@, EntrySide::Debit)) && sum_fits(
                side_amounts(lines@, EntrySide::Credit),
            ) ==> (r is Ok <==> lines@.len() > 0 && all_positive(lines@) && val_sum(
                side_amounts(lines@, EntrySide::Debit),
            ) == val_sum(side_amounts(lines@, EntrySide::Credit))),
    {
        match JournalEntryLineInput::validate_all(lines.as_slice()) {
            Ok(()) => {},
            Err(e) => return Err(e),
        }
        let (payment_id, claim_id, invoice_id) = source.to_fks();
        Ok(NewJournalEntry { payment_id, claim_id, invoice_id, created_by_user_id, lines })
    }

    /// The audit trail of the given entries (in their order), each with its
    /// lines among `lines` (in their order), account, author and source
    /// names resolved, and its debit and credit totals; `None` when a total
    /// overflows.
    pub fn list(
        entries: Vec<JournalEntry>,
        lines: Vec<journal_entry_line_entity::Model>,
        user_names: &HashMap<i32, String>,
        account_names: &HashMap<i32, String>,
        invoice_map: &HashMap<i32, String>,
        claim_map: &HashMap<i32, String>,
    ) -> (r: Option<Vec<AuditEntry>>)
        ensures
            r is Some <==> forall|k: int| 0 <= k < entries@.len() ==> line_totals_defined(
                entry_lines(lines@, #[trigger] entries@[k].id),
            ),
            r matches Some(v) ==> v@.len() == entries@.len() && forall|k: int|
                0 <= k < v@.len() ==> shows_entry(
                    #[trigger] v@[k],
                    entries@[k],
                    lines@,
                    user_names@,
                    account_names@,
                    invoice_map@,
                    claim_map@,
                ),
    {
        let mut out: Vec<AuditEntry> = Vec::new();
        let mut k: usize = 0;
        while k < entries.len()
            invariant
                0 <= k <= entries.len(),
                out@.len() == k,
                forall|j: int| 0 <= j < k ==> line_totals_defined(entry_lines(lines@, #[trigger] entries@[j].id)),
                forall|j: int| 0 <= j < k ==> shows_entry(
                    #[trigger] out@[j],
                    entries@[j],
                    lines@,
                    user_names@,
                    account_names@,
                    invoice_map@,
                    claim_map@,
                ),
            decreases entries.len() - k,
        {
            match build_audit_entry(&entries[k], &lines, user_names, account_names, invoice_map, claim_map) {
                Some(a) => out.push(a),
                None => return None,
            }
            k = k + 1;
        }
        Some(out)
    }
}

/// `xs` is strictly increasing.
pub open spec fn strictly_increasing(xs: Seq<i32>) -> bool {
    forall|i: int, j: int| 0 <= i < j < xs.len() ==> xs[i] < xs[j]
}

/// `r` is what `unique_ids` gives for `ids`: the ids that occur, each once,
/// in increasing order.
pub open spec fn unique_ids_of(ids: Seq<i32>, r: Seq<i32>) -> bool {
    strictly_increasing(r) && forall|x: i32| r.contains(x) <==> ids.contains(x)
}

/// Two increasing sequences with the same members are equal.
proof fn lemma_increasing_same_members(a: Seq<i32>, b: Seq<i32>)
    requires
        strictly_increasing(a),
        strictly_increasing(b),
        forall|x: i32| a.contains(x) <==> b.contains(x),
    ensures
        a == b,
    decreases a.len(),
{
    if a.len() == 0 {
        if b.len() > 0 {
            assert(b.contains(b[0]));
        }
        assert(a =~= b);
    } else {
        assert(a.contains(a[0]));
        assert(b.contains(a[0]));
        assert(b.contains(b[0]));
        assert(a.contains(b[0]));
        let i = choose|i: int| 0 <= i < b.len() && b[i] == a[0];
        let j = choose|j: int| 0 <= j < a.len() && a[j] == b[0];
        if i > 0 {
            assert(b[0] < b[i]);
        }
        if j > 0 {
            assert(a[0] < a[j]);
        }
        assert(a[0] == b[0]);
        let a2 = a.drop_first();
        let b2 = b.drop_first();
        assert forall|x: i32| a2.contains(x) <==> b2.contains(x) by {
            if a2.contains(x) {
                let k = choose|k: int| 0 <= k < a2.len() && a2[k] == x;
                assert(a[k + 1] == x);
                assert(a.contains(x));
                assert(b.contains(x));
                let m = choose|m: int| 0 <= m < b.len() && b[m] == x;
                if m == 0 {
                    assert(a[0] < a[k + 1]);
                }
                assert(b2[m - 1] == x);
            }
            if b2.contains(x) {
                let k = choose|k: int| 0 <= k < b2.len() && b2[k] == x;
                assert(b[k + 1] == x);
                assert(b.contains(x));
                assert(a.contains(x));
                let m = choose|m: int| 0 <= m < a.len() && a[m] == x;
                if m == 0 {
                    assert(b[0] < b[k + 1]);
                }
                assert(a2[m - 1] == x);
            }
        }
        lemma_increasing_same_members(a2, b2);
        assert(a =~= seq![a[0]] + a2);
        assert(b =~= seq![b[0]] + b2);
    }
}

/// The distinct ids are determined by which ids occur: lists with the same
/// members (one a permutation of the other, or with ids repeated) give the
/// same result.
pub proof fn lemma_unique_ids_same_members(xs: Seq<i32>, ys: Seq<i32>, rx: Seq<i32>, ry: Seq<i32>)
    requires
        unique_ids_of(xs, rx),
        unique_ids_of(ys, ry),
        forall|x: i32| xs.contains(x) <==> ys.contains(x),
    ensures
        rx == ry,
{
    lemma_increasing_same_members(rx, ry);
}

/// Deduplicating twice changes nothing, and a list doubled up gives the
/// same distinct ids as the list.
pub proof fn lemma_unique_ids_idempotent(xs: Seq<i32>, r: Seq<i32>, again: Seq<i32>, doubled: Seq<i32>)
    requires
        unique_ids_of(xs, r),
        unique_ids_of(r, again),
        unique_ids_of(xs + xs, doubled),
    ensures
        again == r,
        doubled == r,
{
    lemma_increasing_same_members(again, r);
    assert forall|x: i32| (xs + xs).contains(x) <==> xs.contains(x) by {
        if (xs + xs).contains(x) {
            let k = choose|k: int| 0 <= k < (xs + xs).len() && (xs + xs)[k] == x;
            if k < xs.len() {
                assert(xs[k] == x);
            } else {
                assert(xs[k - xs.len()] == x);
            }
        }
        if xs.contains(x) {
            let k = choose|k: int| 0 <= k < xs.len() && xs[k] == x;
            assert((xs + xs)[k] == x);
        }
    }
    lemma_increasing_same_members(doubled, r);
}

/// Collects, sorts and deduplicates ids: the distinct ids in increasing
/// order.
pub fn unique_ids(ids: Vec<i32>) -> (r: Vec<i32>)
    ensures
        unique_ids_of(ids@, r@),
{
    let mut out: Vec<i32> = Vec::new();
    let mut i: usize = 0;
    while i < ids.len()
        invariant
            0 <= i <= ids.len(),
            strictly_increasing(out@),
            forall|x: i32| out@.contains(x) <==> ids@.take(i as int).contains(x),
        decreases ids.len() - i,
    {
        let x = ids[i];
        let mut pos: usize = 0;
        while pos < out.len() && out[pos] < x
            invariant
                0 <= pos <= out.len(),
                strictly_increasing(out@),
                forall|k: int| 0 <= k < pos ==> out@[k] < x,
            decreases out.len() - pos,
        {
            pos = pos + 1;
        }
        let ghost before = out@;
        if pos < out.len() && out[pos] == x {
        } else {
            out.insert(pos, x);
            proof {
                assert forall|a: int, b: int| 0 <= a < b < out@.len() implies out@[a] < out@[b] by {
                    if b < pos {
                        assert(out@[a] == before[a] && out@[b] == before[b]);
                    } else if b == pos {
                        assert(out@[a] == before[a]);
                    } else if a < pos {
                        assert(out@[b] == before[b - 1]);
                        assert(before[b - 1] >= x);
                    } else if a == pos {
                        assert(out@[b] == before[b - 1]);
                    } else {
                        assert(out@[a] == before[a - 1] && out@[b] == before[b - 1]);
                    }
                }
            }
        }
        proof {
            let pre = ids@.take(i as int);
            let post = ids@.take(i + 1);
            assert(post =~= pre.push(x));
            assert forall|y: i32| out@.contains(y) <==> post.contains(y) by {
                if out@.contains(y) {
                    let k = choose|k: int| 0 <= k < out@.len() && out@[k] == y;
                    if y != x {
                        if pos < before.len() && before[pos as int] == x {
                            assert(before.contains(y));
                        } else {
                            if k < pos {
                                assert(before[k] == y);
                            } else {
                                assert(before[k - 1] == y);
                            }
                            assert(before.contains(y));
                        }
                        assert(pre.contains(y));
                        let j = choose|j: int| 0 <= j < pre.len() && pre[j] == y;
                        assert(post[j] == y);
                    } else {
                        assert(post[i as int] == y);
                    }
                }
                if post.contains(y) {
                    let j = choose|j: int| 0 <= j < post.len() && post[j] == y;
                    if j < i {
                        assert(pre[j] == y);
                        assert(pre.contains(y));
                        assert(before.contains(y));
                        let k = choose|k: int| 0 <= k < before.len() && before[k] == y;
                        if pos < before.len() && before[pos as int] == x {
                            assert(out@[k] == y);
                        } else if k < pos {
                            assert(out@[k] == y);
                        } else {
                            assert(out@[k + 1] == y);
                        }
                    } else {
                        if pos < before.len() && before[pos as int] == x {
                            assert(out@[pos as int] == y);
                        } else {
                            assert(out@[pos as int] == y);
                        }
                    }
                }
            }
        }
        i = i + 1;
    }
    proof {
        assert(ids@.take(ids.len() as int) =~= ids@);
    }
    out
}

/// Sums the debit and the credit amounts of `(side, amount)` pairs, each
/// from zero in order; `None` when a sum overflows.
pub fn totals(pairs: &[(EntrySide, Amount)]) -> (r: Option<(Amount, Amount)>)
    ensures
        r is Some <==> crate::amount::sum_parts(side_parts(pairs@, EntrySide::Debit)) is Some
            && crate::amount::sum_parts(side_parts(pairs@, EntrySide::Credit)) is Some,
        r matches Some((d, c)) ==> Some(d@) == crate::amount::sum_parts(
            side_parts(pairs@, EntrySide::Debit),
        ) && Some(c@) == crate::amount::sum_parts(side_parts(pairs@, EntrySide::Credit)),
        sum_fits(side_parts(pairs@, EntrySide::Debit)) ==> crate::amount::sum_parts(
            side_parts(pairs@, EntrySide::Debit),
        ) is Some && val(crate::amount::sum_parts(side_parts(pairs@, EntrySide::Debit)).unwrap())
            == val_sum(side_parts(pairs@, EntrySide::Debit)),
        sum_fits(side_parts(pairs@, EntrySide::Credit)) ==> crate::amount::sum_parts(
            side_parts(pairs@, EntrySide::Credit),
        ) is Some && val(crate::amount::sum_parts(side_parts(pairs@, EntrySide::Credit)).unwrap())
            == val_sum(side_parts(pairs@, EntrySide::Credit)),
{
    let mut debits: Vec<Amount> = Vec::new();
    let mut credits: Vec<Amount> = Vec::new();
    let mut i: usize = 0;
    proof {
        assert(pairs@.take(0) =~= Seq::<(EntrySide, Amount)>::empty());
        assert(parts_of(debits@) =~= Seq::<(i128, u32)>::empty());
        assert(parts_of(credits@) =~= Seq::<(i128, u32)>::empty());
    }
    while i < pairs.len()
        invariant
            0 <= i <= pairs.len(),
            parts_of(debits@) == side_parts(pairs@.take(i as int), EntrySide::Debit),
            parts_of(credits@) == side_parts(pairs@.take(i as int), EntrySide::Credit),
        decreases pairs.len() - i,
    {
        proof {
            assert(pairs@.take(i + 1).drop_last() =~= pairs@.take(i as int));
        }
        let (side, amount) = pairs[i];
        match side {
            EntrySide::Debit => {
                let ghost old = parts_of(debits@);
                debits.push(amount);
                proof {
                    assert(parts_of(debits@) =~= old.push(amount@));
                }
            },
            EntrySide::Credit => {
                let ghost old = parts_of(credits@);
                credits.push(amount);
                proof {
                    assert(parts_of(credits@) =~= old.push(amount@));
                }
            },
        }
        i = i + 1;
    }
    proof {
        assert(pairs@.take(pairs.len() as int) =~= pairs@);
    }
    let d = sum_amounts(&debits);
    let c = sum_amounts(&credits);
    match (d, c) {
        (Some(d), Some(c)) => Some((d, c)),
        _ => None,
    }
}

} // verus!

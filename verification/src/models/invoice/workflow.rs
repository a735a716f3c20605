//! The invoice workflow: validating input, numbering, and the status
//! transitions `Draft` → `Sent` → `PartiallyPaid` / `Paid`, with `Voided`
//! reachable from `Draft` and `Sent`, and the ledger entries they post.

use vstd::prelude::*;

use crate::amount::{parts_ok, val, val_sum, Amount};
use crate::calendar::{date_before, Date};
use crate::entity::account as account_entity;
use crate::entity::invoice::InvoiceStatus;
use crate::entity::journal_entry::SourceDocument;
use crate::entity::journal_entry_line::EntrySide;
use crate::entity::party::{PartyStatus, PartyType};
use crate::entity::journal_entry_line as line_entity;
use crate::models::account::{account_amounts, find_ar_and_sr, first_named, normal_value, signed_parts};
use crate::models::report::income_statement::lemma_concat_bounds;
use crate::models::error::InvoiceError;
use crate::models::journal_entry::JournalEntry;
use crate::models::party::Party;
use crate::models::posting::{
    account_effect, all_positive, lemma_two_line_entry, line_shape, side_amounts,
    JournalEntryLineInput, NewJournalEntry,
};
use crate::text::{concat, lemma_zero_padded_injective, padded_text, starts_with, trim, trim_spec, zero_padded};

use super::calc::{grand_total, grand_total_spec};
use super::types::{Invoice, InvoiceLineItem, LineItemInput};

verus! {

/// The first problem with a line item, if any: an empty (after trimming)
/// description, a quantity that is not positive, a negative unit price.
pub open spec fn line_problem(item: LineItemInput) -> Option<Seq<char>> {
    if trim_spec(item.description@).len() == 0 {
        Some("Line item description cannot be empty"@)
    } else if item.quantity <= 0 {
        Some("Line item quantity must be positive"@)
    } else if val(item.unit_price@) < 0 {
        Some("Line item unit price cannot be negative"@)
    } else {
        None
    }
}

/// The problem of the first line item that has one.
pub open spec fn first_line_problem(items: Seq<LineItemInput>) -> Option<Seq<char>>
    decreases items.len(),
{
    if items.len() == 0 {
        None
    } else {
        match line_problem(items[0]) {
            Some(p) => Some(p),
            None => first_line_problem(items.drop_first()),
        }
    }
}

/// A line item to insert for an invoice: the input with its description
/// trimmed.
#[derive(Clone, Debug)]
pub struct NewLineItem {
    pub invoice_id: i32,
    pub description: String,
    pub quantity: i32,
    pub unit_price: Amount,
    pub gst_rate: crate::entity::invoice_line_item::GstRate,
}

/// How a status change is posted to the ledger: the status the invoice
/// takes, the description of the entry, and whether Accounts Receivable is
/// debited (sending) or credited (voiding).
#[derive(Clone, Debug)]
pub struct InvoicePosting {
    pub new_status: InvoiceStatus,
    pub description: String,
    pub debit_ar: bool,
}

/// The two lines of an invoice entry: Accounts Receivable and Sales
/// Revenue, both for `total`, on opposite sides (AR debited when sending).
pub open spec fn invoice_entry_spec(
    ar_id: i32,
    sales_id: i32,
    total: Amount,
    description: Seq<char>,
    debit_ar: bool,
) -> Seq<(i32, EntrySide, Amount, Seq<char>)> {
    let (ar_side, sales_side) = if debit_ar {
        (EntrySide::Debit, EntrySide::Credit)
    } else {
        (EntrySide::Credit, EntrySide::Debit)
    };
    seq![(ar_id, ar_side, total, description), (sales_id, sales_side, total, description)]
}

/// Voiding a sent invoice reverses its sending: whatever the descriptions,
/// the entry posted on voiding and the entry posted on sending (both for
/// the invoice's total, on the same two accounts) cancel out on every
/// account.
pub proof fn lemma_void_reverses_send(
    ar_id: i32,
    sales_id: i32,
    total: Amount,
    send_lines: Seq<JournalEntryLineInput>,
    send_description: Seq<char>,
    void_lines: Seq<JournalEntryLineInput>,
    void_description: Seq<char>,
    account_id: i32,
)
    requires
        line_shape(send_lines) == invoice_entry_spec(ar_id, sales_id, total, send_description, true),
        line_shape(void_lines) == invoice_entry_spec(ar_id, sales_id, total, void_description, false),
    ensures
        account_effect(send_lines, account_id) + account_effect(void_lines, account_id) == 0,
{
    reveal_with_fuel(account_effect, 3);
    assert(line_shape(send_lines).len() == send_lines.len());
    assert(line_shape(void_lines).len() == void_lines.len());
    assert(line_shape(send_lines)[0] == invoice_entry_spec(ar_id, sales_id, total, send_description, true)[0]);
    assert(line_shape(send_lines)[1] == invoice_entry_spec(ar_id, sales_id, total, send_description, true)[1]);
    assert(line_shape(void_lines)[0] == invoice_entry_spec(ar_id, sales_id, total, void_description, false)[0]);
    assert(line_shape(void_lines)[1] == invoice_entry_spec(ar_id, sales_id, total, void_description, false)[1]);
    assert(send_lines.drop_last().drop_last() =~= Seq::<JournalEntryLineInput>::empty());
    assert(void_lines.drop_last().drop_last() =~= Seq::<JournalEntryLineInput>::empty());
    assert(send_lines.drop_last().last() == send_lines[0]);
    assert(void_lines.drop_last().last() == void_lines[0]);
}

/// The lines written for an entry: one stored line per entry line, in
/// order, on the same account and side and for the same amount.
pub open spec fn written_for(written: Seq<line_entity::Model>, entry: Seq<JournalEntryLineInput>) -> bool {
    &&& written.len() == entry.len()
    &&& forall|i: int|
        0 <= i < written.len() ==> (#[trigger] written[i]).account_id == entry[i].account_id
            && written[i].entry_side == entry[i].entry_side && written[i].amount == entry[i].amount
}

/// An account's signed amounts in two runs of lines are those of the first
/// run followed by those of the second.
proof fn lemma_account_amounts_concat(a: Seq<line_entity::Model>, b: Seq<line_entity::Model>, id: i32)
    ensures
        account_amounts(a + b, id) == account_amounts(a, id) + account_amounts(b, id),
    decreases b.len(),
{
    if b.len() == 0 {
        assert(a + b =~= a);
        assert(account_amounts(a, id) + account_amounts(b, id) =~= account_amounts(a, id));
    } else {
        lemma_account_amounts_concat(a, b.drop_last(), id);
        assert((a + b).drop_last() =~= a + b.drop_last());
        assert((a + b).last() == b.last());
        let x = signed_parts(b.last().entry_side, b.last().amount@);
        if b.last().account_id == id {
            assert(account_amounts(a, id) + account_amounts(b.drop_last(), id).push(x) =~= (
            account_amounts(a, id) + account_amounts(b.drop_last(), id)).push(x));
        }
    }
}

/// The lines written for an entry move each account's exact balance by
/// the entry's effect on it.
proof fn lemma_written_effect(written: Seq<line_entity::Model>, entry: Seq<JournalEntryLineInput>, id: i32)
    requires
        written_for(written, entry),
        forall|i: int| 0 <= i < entry.len() ==> parts_ok((#[trigger] entry[i]).amount@),
    ensures
        val_sum(account_amounts(written, id)) == account_effect(entry, id),
    decreases entry.len(),
{
    if entry.len() > 0 {
        let w = written.drop_last();
        let e = entry.drop_last();
        assert forall|i: int| 0 <= i < w.len() implies (#[trigger] w[i]).account_id == e[i].account_id
            && w[i].entry_side == e[i].entry_side && w[i].amount == e[i].amount by {
            assert(w[i] == written[i] && e[i] == entry[i]);
        }
        assert forall|i: int| 0 <= i < e.len() implies parts_ok((#[trigger] e[i]).amount@) by {
            assert(e[i] == entry[i]);
        }
        lemma_written_effect(w, e, id);
        let l = written.last();
        assert(l == written[written.len() - 1]);
        assert(entry.last() == entry[entry.len() - 1]);
        assert(parts_ok(entry.last().amount@));
        let x = signed_parts(l.entry_side, l.amount@);
        if l.account_id == id {
            assert(account_amounts(w, id).push(x).drop_last() =~= account_amounts(w, id));
            if l.entry_side == EntrySide::Credit {
                vstd::arithmetic::mul::lemma_mul_unary_negation(
                    l.amount@.0 as int,
                    crate::amount::pow10(crate::amount::room(l.amount@.1 as nat)),
                );
            }
        }
    }
}

/// Sending an invoice and then voiding it leaves the books as they were:
/// once the lines of the sending entry and of the voiding entry (both for
/// the invoice's total, on Accounts Receivable and Sales Revenue) are
/// written after any ledger, every account's exact balance is the one it
/// had in that ledger.
pub proof fn lemma_send_then_void_restores_balances(
    ledger: Seq<line_entity::Model>,
    ar_id: i32,
    sales_id: i32,
    total: Amount,
    send_entry: Seq<JournalEntryLineInput>,
    send_description: Seq<char>,
    send_written: Seq<line_entity::Model>,
    void_entry: Seq<JournalEntryLineInput>,
    void_description: Seq<char>,
    void_written: Seq<line_entity::Model>,
    account_id: i32,
)
    requires
        line_shape(send_entry) == invoice_entry_spec(ar_id, sales_id, total, send_description, true),
        line_shape(void_entry) == invoice_entry_spec(ar_id, sales_id, total, void_description, false),
        parts_ok(total@),
        written_for(send_written, send_entry),
        written_for(void_written, void_entry),
    ensures
        val_sum(account_amounts(ledger + send_written + void_written, account_id)) == val_sum(
            account_amounts(ledger, account_id),
        ),
{
    lemma_void_reverses_send(
        ar_id,
        sales_id,
        total,
        send_entry,
        send_description,
        void_entry,
        void_description,
        account_id,
    );
    assert(line_shape(send_entry).len() == send_entry.len());
    assert(line_shape(void_entry).len() == void_entry.len());
    assert forall|i: int| 0 <= i < send_entry.len() implies parts_ok((#[trigger] send_entry[i]).amount@) by {
        assert(line_shape(send_entry)[i].2 == send_entry[i].amount);
        assert(invoice_entry_spec(ar_id, sales_id, total, send_description, true)[i].2 == total);
    }
    assert forall|i: int| 0 <= i < void_entry.len() implies parts_ok((#[trigger] void_entry[i]).amount@) by {
        assert(line_shape(void_entry)[i].2 == void_entry[i].amount);
        assert(invoice_entry_spec(ar_id, sales_id, total, void_description, false)[i].2 == total);
    }
    lemma_written_effect(send_written, send_entry, account_id);
    lemma_written_effect(void_written, void_entry, account_id);
    lemma_account_amounts_concat(ledger, send_written, account_id);
    lemma_account_amounts_concat(ledger + send_written, void_written, account_id);
    lemma_concat_bounds(account_amounts(ledger, account_id), account_amounts(send_written, account_id));
    lemma_concat_bounds(
        account_amounts(ledger, account_id) + account_amounts(send_written, account_id),
        account_amounts(void_written, account_id),
    );
}

/// Sending an invoice and then voiding it leaves the reported balances as
/// they were: a balance reported for an account over a ledger, and one
/// reported for it once the lines of both entries are written after that
/// ledger (each the exact total of the account's lines, counted from its
/// normal side, as `balances_by_category` reports it whenever the sum
/// fits), have the same value.
pub proof fn lemma_send_then_void_restores_reported_balance(
    ledger: Seq<line_entity::Model>,
    ar_id: i32,
    sales_id: i32,
    total: Amount,
    send_entry: Seq<JournalEntryLineInput>,
    send_description: Seq<char>,
    send_written: Seq<line_entity::Model>,
    void_entry: Seq<JournalEntryLineInput>,
    void_description: Seq<char>,
    void_written: Seq<line_entity::Model>,
    account: account_entity::Model,
    before: Amount,
    after: Amount,
)
    requires
        line_shape(send_entry) == invoice_entry_spec(ar_id, sales_id, total, send_description, true),
        line_shape(void_entry) == invoice_entry_spec(ar_id, sales_id, total, void_description, false),
        parts_ok(total@),
        written_for(send_written, send_entry),
        written_for(void_written, void_entry),
        val(before@) == normal_value(account.normal_balance, val_sum(account_amounts(ledger, account.id))),
        val(after@) == normal_value(
            account.normal_balance,
            val_sum(account_amounts(ledger + send_written + void_written, account.id)),
        ),
    ensures
        val(after@) == val(before@),
{
    lemma_send_then_void_restores_balances(
        ledger,
        ar_id,
        sales_id,
        total,
        send_entry,
        send_description,
        send_written,
        void_entry,
        void_description,
        void_written,
        account.id,
    );
}

/// The entry of an invoice's status change balances: its two lines carry
/// the same amount on opposite sides, so on every account other than the
/// two it touches it has no effect, and its debits equal its credits.
pub proof fn lemma_invoice_entry_balanced(
    ar_id: i32,
    sales_id: i32,
    total: Amount,
    lines: Seq<JournalEntryLineInput>,
    description: Seq<char>,
    debit_ar: bool,
    account_id: i32,
)
    requires
        line_shape(lines) == invoice_entry_spec(ar_id, sales_id, total, description, debit_ar),
        crate::amount::parts_ok(total@),
    ensures
        val_sum(side_amounts(lines, EntrySide::Debit)) == val_sum(side_amounts(lines, EntrySide::Credit)),
        account_id != ar_id && account_id != sales_id ==> account_effect(lines, account_id) == 0,
{
    reveal_with_fuel(account_effect, 3);
    assert(line_shape(lines).len() == lines.len());
    assert(line_shape(lines)[0] == invoice_entry_spec(ar_id, sales_id, total, description, debit_ar)[0]);
    assert(line_shape(lines)[1] == invoice_entry_spec(ar_id, sales_id, total, description, debit_ar)[1]);
    assert(lines.drop_last().drop_last() =~= Seq::<JournalEntryLineInput>::empty());
    assert(lines.drop_last().last() == lines[0]);
    lemma_two_line_entry(lines);
}

/// The number of the next invoice of a month: `INV-`, the month's
/// `YYYYMM` label, `-`, and the count of the month's existing numbers plus
/// one, zero-padded to four digits.
pub open spec fn invoice_no_spec(month_label: Seq<char>, existing: nat) -> Seq<char> {
    "INV-"@ + month_label + "-"@ + zero_padded(existing + 1, 4)
}

/// Invoice numbers of a month: each begins with the month's prefix (the
/// one its existing numbers are counted by), and different counts give
/// different numbers.
pub proof fn lemma_invoice_numbers(month_label: Seq<char>, a: nat, b: nat)
    ensures
        starts_with(invoice_no_spec(month_label, a), "INV-"@ + month_label),
        invoice_no_spec(month_label, a) == invoice_no_spec(month_label, b) ==> a == b,
{
    let p = "INV-"@ + month_label + "-"@;
    let na = invoice_no_spec(month_label, a);
    let nb = invoice_no_spec(month_label, b);
    assert(na.subrange(0, ("INV-"@ + month_label).len() as int) =~= "INV-"@ + month_label);
    if na == nb {
        assert(zero_padded(a + 1, 4) =~= na.subrange(p.len() as int, na.len() as int));
        assert(zero_padded(b + 1, 4) =~= nb.subrange(p.len() as int, nb.len() as int));
        lemma_zero_padded_injective(a + 1, b + 1, 4);
    }
}

impl Invoice {
    /// Checks the dates and line items of an invoice: the due date is not
    /// before the issue date, there is at least one line, and each line has
    /// a description, a positive quantity and a unit price that is not
    /// negative. The first failed check is reported.
    pub fn validate_inputs(issue_date: &Date, due_date: &Date, items: &[LineItemInput]) -> (r: Result<(), InvoiceError>)
        ensures
            date_before(due_date@, issue_date@) ==> (r matches Err(InvoiceError::ValidationError(m)) && m@ == "Due date cannot be before issue date"@),
            !date_before(due_date@, issue_date@) && items@.len() == 0 ==> r matches Err(InvoiceError::NoLineItems),
            !date_before(due_date@, issue_date@) && items@.len() > 0 ==> match first_line_problem(items@) {
                Some(p) => (r matches Err(InvoiceError::ValidationError(m)) && m@ == p),
                None => r is Ok,
            },
    {
        if due_date.is_before(issue_date) {
            return Err(InvoiceError::ValidationError(String::from_str("Due date cannot be before issue date")));
        }
        if items.len() == 0 {
            return Err(InvoiceError::NoLineItems);
        }
        let mut i: usize = 0;
        proof {
            assert(items@.subrange(0, items@.len() as int) =~= items@);
        }
        while i < items.len()
            invariant
                0 <= i <= items.len(),
                !date_before(due_date@, issue_date@),
                items@.len() > 0,
                first_line_problem(items@) == first_line_problem(items@.subrange(i as int, items@.len() as int)),
            decreases items.len() - i,
        {
            let item = &items[i];
            let ghost rest = items@.subrange(i as int, items@.len() as int);
            proof {
                assert(rest[0] == *item);
                assert(rest.drop_first() =~= items@.subrange(i + 1, items@.len() as int));
            }
            if trim(item.description.as_str()).is_empty() {
                return Err(InvoiceError::ValidationError(String::from_str("Line item description cannot be empty")));
            }
            if item.quantity <= 0 {
                return Err(InvoiceError::ValidationError(String::from_str("Line item quantity must be positive")));
            }
            if item.unit_price.is_negative() {
                return Err(InvoiceError::ValidationError(String::from_str("Line item unit price cannot be negative")));
            }
            i = i + 1;
        }
        proof {
            assert(items@.subrange(items@.len() as int, items@.len() as int) =~= Seq::<LineItemInput>::empty());
        }
        Ok(())
    }

    /// The line items to insert for an invoice, in order, each description
    /// trimmed.
    pub fn line_items_to_active(invoice_id: i32, items: Vec<LineItemInput>) -> (r: Vec<NewLineItem>)
        ensures
            r@.len() == items@.len(),
            forall|i: int| 0 <= i < r@.len() ==> {
                &&& (#[trigger] r@[i]).invoice_id == invoice_id
                &&& r@[i].description@ == trim_spec(items@[i].description@)
                &&& r@[i].quantity == items@[i].quantity
                &&& r@[i].unit_price == items@[i].unit_price
                &&& r@[i].gst_rate == items@[i].gst_rate
            },
    {
        let mut out: Vec<NewLineItem> = Vec::new();
        let mut i: usize = 0;
        while i < items.len()
            invariant
                0 <= i <= items.len(),
                out@.len() == i,
                forall|j: int| 0 <= j < i ==> {
                    &&& (#[trigger] out@[j]).invoice_id == invoice_id
                    &&& out@[j].description@ == trim_spec(items@[j].description@)
                    &&& out@[j].quantity == items@[j].quantity
                    &&& out@[j].unit_price == items@[j].unit_price
                    &&& out@[j].gst_rate == items@[j].gst_rate
                },
            decreases items.len() - i,
        {
            let item = &items[i];
            out.push(NewLineItem {
                invoice_id,
                description: String::from_str(trim(item.description.as_str())),
                quantity: item.quantity,
                unit_price: item.unit_price,
                gst_rate: item.gst_rate,
            });
            i = i + 1;
        }
        out
    }

    /// An invoice can only be for an existing, active customer.
    pub fn require_active_party(party: Option<&Party>) -> (r: Result<(), InvoiceError>)
        ensures
            party is None ==> r matches Err(InvoiceError::NotFound),
            party matches Some(p) ==> if p.status != PartyStatus::Active {
                r matches Err(InvoiceError::ValidationError(m)) && m@ == "Selected party is not active"@
            } else if p.party_type != PartyType::Customer {
                r matches Err(InvoiceError::ValidationError(m)) && m@ == "Invoices can only be created for customers"@
            } else {
                r is Ok
            },
    {
        match party {
            None => Err(InvoiceError::NotFound),
            Some(p) => {
                if p.status != PartyStatus::Active {
                    return Err(InvoiceError::ValidationError(String::from_str("Selected party is not active")));
                }
                if p.party_type != PartyType::Customer {
                    return Err(InvoiceError::ValidationError(String::from_str("Invoices can only be created for customers")));
                }
                Ok(())
            },
        }
    }

    /// The prefix of the numbers of invoices issued in the month of
    /// `issue_date`: `INV-YYYYMM`.
    pub fn invoice_no_prefix(issue_date: &Date) -> (r: String)
        ensures
            r@ == "INV-"@ + crate::calendar::year_month_label(issue_date@.0, issue_date@.1, issue_date@.2),
            0 <= issue_date@.0 <= 9999 ==> r@ == "INV-"@ + zero_padded(issue_date@.0 as nat, 4) + zero_padded(issue_date@.1 as nat, 2),
    {
        concat("INV-", issue_date.year_month().as_str())
    }

    /// The next invoice number of the month, given how many numbers of the
    /// month exist: `INV-YYYYMM-NNNN`, the sequence number being one more
    /// than the count, zero-padded to four digits.
    pub fn generate_invoice_no(issue_date: &Date, existing: u64) -> (r: String)
        requires
            existing < u64::MAX,
        ensures
            r@ == invoice_no_spec(
                crate::calendar::year_month_label(issue_date@.0, issue_date@.1, issue_date@.2),
                existing as nat,
            ),
    {
        let prefix = Invoice::invoice_no_prefix(issue_date);
        let with_dash = concat(prefix.as_str(), "-");
        concat(with_dash.as_str(), padded_text(existing + 1, 4).as_str())
    }

    /// Whether to try another invoice number after a failed insert: only for
    /// a unique-number violation, and at most five times.
    pub fn should_retry_insert(unique_violation: bool, retries: u32) -> (r: bool)
        ensures
            r == (unique_violation && retries < 5),
    {
        unique_violation && retries < 5
    }

    /// Only a draft invoice can be edited.
    pub fn ensure_editable(&self) -> (r: Result<(), InvoiceError>)
        ensures
            self.status == InvoiceStatus::Draft ==> r is Ok,
            self.status != InvoiceStatus::Draft ==> r matches Err(InvoiceError::NotEditable),
    {
        if self.status != InvoiceStatus::Draft {
            return Err(InvoiceError::NotEditable);
        }
        Ok(())
    }

    /// Sending a draft (`Draft` → `Sent`): debit Accounts Receivable under
    /// the description `Invoice <number>`. Any other status cannot be sent.
    pub fn send_posting(&self) -> (r: Result<InvoicePosting, InvoiceError>)
        ensures
            self.status == InvoiceStatus::Draft ==> (r matches Ok(p) && p.new_status == InvoiceStatus::Sent
                && p.debit_ar && p.description@ == "Invoice "@ + self.invoice_no@),
            self.status != InvoiceStatus::Draft ==> (r matches Err(InvoiceError::InvalidStatusTransition { from, to })
                && from@ == self.status.spec_label() && to@ == "Sent"@),
    {
        if self.status != InvoiceStatus::Draft {
            return Err(InvoiceError::InvalidStatusTransition {
                from: self.status.label(),
                to: InvoiceStatus::Sent.label(),
            });
        }
        Ok(InvoicePosting {
            new_status: InvoiceStatus::Sent,
            description: concat("Invoice ", self.invoice_no.as_str()),
            debit_ar: true,
        })
    }

    /// The check made before voiding, on the status the caller holds: a
    /// voided invoice cannot be voided again, nor one with payments.
    pub fn void_precheck(&self) -> (r: Result<(), InvoiceError>)
        ensures
            self.status == InvoiceStatus::Voided ==> r matches Err(InvoiceError::AlreadyVoided),
            (self.status == InvoiceStatus::PartiallyPaid || self.status == InvoiceStatus::Paid) ==> r matches Err(InvoiceError::VoidWithPayments),
            (self.status == InvoiceStatus::Draft || self.status == InvoiceStatus::Sent) ==> r is Ok,
    {
        match self.status {
            InvoiceStatus::Voided => Err(InvoiceError::AlreadyVoided),
            InvoiceStatus::PartiallyPaid | InvoiceStatus::Paid => Err(InvoiceError::VoidWithPayments),
            _ => Ok(()),
        }
    }

    /// Voiding, decided on the status the caller holds (`self`) and the
    /// status just read back (`current`): a draft is voided without posting
    /// (`Ok(None)`); a sent invoice is voided with a reversal entry that
    /// credits Accounts Receivable under `Void invoice <number>`. If the
    /// status read back is no longer the one held, the transition is refused.
    pub fn void_plan(&self, current: &Invoice) -> (r: Result<Option<InvoicePosting>, InvoiceError>)
        ensures
            self.status == InvoiceStatus::Voided ==> r matches Err(InvoiceError::AlreadyVoided),
            (self.status == InvoiceStatus::PartiallyPaid || self.status == InvoiceStatus::Paid) ==> r matches Err(InvoiceError::VoidWithPayments),
            (self.status == InvoiceStatus::Draft || self.status == InvoiceStatus::Sent) && current.status != self.status ==> (r matches Err(InvoiceError::InvalidStatusTransition { from, to })
                && from@ == current.status.spec_label() && to@ == "Voided"@),
            self.status == InvoiceStatus::Draft && current.status == InvoiceStatus::Draft ==> r matches Ok(None),
            self.status == InvoiceStatus::Sent && current.status == InvoiceStatus::Sent ==> (r matches Ok(Some(p)) && p.new_status == InvoiceStatus::Voided
                && !p.debit_ar && p.description@ == "Void invoice "@ + current.invoice_no@),
    {
        match self.status {
            InvoiceStatus::Voided => Err(InvoiceError::AlreadyVoided),
            InvoiceStatus::PartiallyPaid | InvoiceStatus::Paid => Err(InvoiceError::VoidWithPayments),
            InvoiceStatus::Draft => {
                if current.status != InvoiceStatus::Draft {
                    return Err(InvoiceError::InvalidStatusTransition {
                        from: current.status.label(),
                        to: InvoiceStatus::Voided.label(),
                    });
                }
                Ok(None)
            },
            InvoiceStatus::Sent => {
                if current.status != InvoiceStatus::Sent {
                    return Err(InvoiceError::InvalidStatusTransition {
                        from: current.status.label(),
                        to: InvoiceStatus::Voided.label(),
                    });
                }
                Ok(Some(InvoicePosting {
                    new_status: InvoiceStatus::Voided,
                    description: concat("Void invoice ", current.invoice_no.as_str()),
                    debit_ar: false,
                }))
            },
        }
    }

    /// The two lines of an invoice entry for `total`: Accounts Receivable
    /// on the debit side when `debit_ar` (sending) and Sales Revenue on the
    /// other, or the reverse (voiding), both described by `description`.
    pub fn entry_lines(ar_id: i32, sales_id: i32, total: Amount, description: &str, debit_ar: bool) -> (r: Vec<JournalEntryLineInput>)
        ensures
            line_shape(r@) == invoice_entry_spec(ar_id, sales_id, total, description@, debit_ar),
            r@.len() == 2,
            r@[0].description is Some && r@[1].description is Some,
    {
        let (ar_side, sales_side) = if debit_ar {
            (EntrySide::Debit, EntrySide::Credit)
        } else {
            (EntrySide::Credit, EntrySide::Debit)
        };
        let mut lines: Vec<JournalEntryLineInput> = Vec::new();
        lines.push(JournalEntryLineInput {
            account_id: ar_id,
            entry_side: ar_side,
            amount: total,
            description: Some(String::from_str(description)),
        });
        lines.push(JournalEntryLineInput {
            account_id: sales_id,
            entry_side: sales_side,
            amount: total,
            description: Some(String::from_str(description)),
        });
        proof {
            assert(line_shape(lines@) =~= invoice_entry_spec(ar_id, sales_id, total, description@, debit_ar));
        }
        lines
    }

    /// The journal entry for a status change of this invoice (`current`):
    /// the two lines of `entry_lines` on "Accounts Receivable" and "Sales
    /// Revenue" for the invoice's grand total, traced to the invoice and
    /// posted by `user_id`. A missing account is `NotFound`; otherwise the
    /// entry is refused, with the posting error, exactly when the total is
    /// not positive.
    pub fn post_invoice_entry(
        current: &Invoice,
        accounts: &[account_entity::Model],
        total: Amount,
        posting: &InvoicePosting,
        user_id: i32,
    ) -> (r: Result<NewJournalEntry, InvoiceError>)
        ensures
            first_named(accounts@, "Accounts Receivable"@) is None || first_named(accounts@, "Sales Revenue"@) is None
                ==> (r matches Err(InvoiceError::NotFound)),
            first_named(accounts@, "Accounts Receivable"@) is Some && first_named(accounts@, "Sales Revenue"@) is Some
                ==> {
                let ar = first_named(accounts@, "Accounts Receivable"@).unwrap();
                let sales = first_named(accounts@, "Sales Revenue"@).unwrap();
                &&& (r is Ok <==> val(total@) > 0)
                &&& (r matches Ok(e) ==> e.invoice_id == Some(current.id) && e.payment_id is None && e.claim_id is None
                    && e.created_by_user_id == user_id
                    && line_shape(e.lines@) == invoice_entry_spec(ar.id, sales.id, total, posting.description@, posting.debit_ar))
                &&& (val(total@) <= 0 ==> (r matches Err(InvoiceError::Posting(crate::models::error::PostingError::NonPositiveAmount { amount })) && amount == total))
            },
    {
        let (ar, sales) = match find_ar_and_sr(accounts) {
            Ok(p) => p,
            Err(e) => {
                return Err(InvoiceError::from(e));
            },
        };
        let lines = Invoice::entry_lines(ar.id, sales.id, total, posting.description.as_str(), posting.debit_ar);
        total.parts_are_ok();
        proof {
            lemma_two_line_entry(lines@);
            if val(total@) > 0 {
                assert(all_positive(lines@));
            } else {
                assert(!all_positive(lines@));
                assert(lines@[0].amount == total);
            }
        }
        match JournalEntry::create(lines, SourceDocument::Invoice { invoice_id: current.id }, user_id) {
            Ok(e) => Ok(e),
            Err(e) => Err(InvoiceError::Posting(e)),
        }
    }

    /// The status an invoice takes from the amount paid against it: sent and
    /// partly paid invoices become `Paid` once the payments reach the grand
    /// total, `PartiallyPaid` while something but not all is paid, and
    /// `Sent` otherwise; paid and voided invoices keep their status
    /// (`Ok(None)`); a draft cannot be recomputed.
    pub fn apply_recomputed_status(&self, total_paid: &Amount, grand_total: &Amount) -> (r: Result<Option<InvoiceStatus>, InvoiceError>)
        ensures
            (self.status == InvoiceStatus::Paid || self.status == InvoiceStatus::Voided) ==> r matches Ok(None),
            self.status == InvoiceStatus::Draft ==> (r matches Err(InvoiceError::InvalidStatusTransition { from, to })
                && from@ == "Draft"@ && to@ == "recompute"@),
            (self.status == InvoiceStatus::Sent || self.status == InvoiceStatus::PartiallyPaid) ==> r == Ok::<Option<InvoiceStatus>, InvoiceError>(Some(
                if val(total_paid@) >= val(grand_total@) {
                    InvoiceStatus::Paid
                } else if val(total_paid@) > 0 {
                    InvoiceStatus::PartiallyPaid
                } else {
                    InvoiceStatus::Sent
                },
            )),
    {
        match self.status {
            InvoiceStatus::Paid | InvoiceStatus::Voided => Ok(None),
            InvoiceStatus::Draft => Err(InvoiceError::InvalidStatusTransition {
                from: self.status.label(),
                to: String::from_str("recompute"),
            }),
            InvoiceStatus::Sent | InvoiceStatus::PartiallyPaid => {
                let new_status = if !total_paid.less_than(grand_total) {
                    InvoiceStatus::Paid
                } else if total_paid.is_positive() {
                    InvoiceStatus::PartiallyPaid
                } else {
                    InvoiceStatus::Sent
                };
                Ok(Some(new_status))
            },
        }
    }

    /// Recomputes the status from the invoice's line items and the total
    /// paid: the grand total of the items, then `apply_recomputed_status`.
    /// `None` when the grand total overflows.
    pub fn recompute_status_for(&self, items: &[InvoiceLineItem], total_paid: &Amount) -> (r: Option<Result<Option<InvoiceStatus>, InvoiceError>>)
        ensures
            r is None <==> grand_total_spec(items@) is None,
            r matches Some(res) ==> {
                let g = grand_total_spec(items@).unwrap();
                &&& (self.status == InvoiceStatus::Paid || self.status == InvoiceStatus::Voided) ==> res == Ok::<Option<InvoiceStatus>, InvoiceError>(None)
                &&& self.status == InvoiceStatus::Draft ==> (res matches Err(
                    InvoiceError::InvalidStatusTransition { from, to },
                ) && from@ == "Draft"@ && to@ == "recompute"@)
                &&& (self.status == InvoiceStatus::Sent || self.status == InvoiceStatus::PartiallyPaid) ==> res == Ok::<Option<InvoiceStatus>, InvoiceError>(Some(
                    if val(total_paid@) >= val(g) {
                        InvoiceStatus::Paid
                    } else if val(total_paid@) > 0 {
                        InvoiceStatus::PartiallyPaid
                    } else {
                        InvoiceStatus::Sent
                    },
                ))
            },
    {
        match grand_total(items) {
            Some(g) => Some(self.apply_recomputed_status(total_paid, &g)),
            None => None,
        }
    }
}

} // verus!

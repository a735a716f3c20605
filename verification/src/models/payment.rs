//! Payments: money received or paid, each posted to the ledger as a move
//! from one account to another.

use vstd::prelude::*;

use crate::amount::{opt_parts, parts_of, sum_amounts, sum_fits, sum_parts, val, val_sum, Amount};
use crate::calendar::{Date, DateTime};
use crate::entity::journal_entry::SourceDocument;
use crate::entity::journal_entry_line::EntrySide;
use crate::entity::payment as payment_entity;
use crate::entity::payment::PaymentDirection;
use crate::models::error::{PaymentCreateError, PostingError};
use crate::models::posting::{
    account_effect, all_positive, lemma_two_line_entry, line_shape, JournalEntryLineInput,
    NewJournalEntry, PostingService,
};
use crate::text::{ascii_lower, eq_ic, eq_ignore_ascii_case, lemma_trim_plain, trim, trim_spec};

verus! {

/// The direction a keyword names, compared ignoring ASCII case.
pub open spec fn payment_direction_keyword(k: Seq<char>) -> Option<PaymentDirection> {
    if eq_ic(k, "in"@) {
        Some(PaymentDirection::In)
    } else if eq_ic(k, "out"@) {
        Some(PaymentDirection::Out)
    } else {
        None
    }
}

/// Every direction's label parses back to the direction.
pub proof fn lemma_payment_direction_label_parses(d: PaymentDirection)
    ensures
        payment_direction_keyword(trim_spec(d.spec_label())) == Some(d),
{
    reveal_strlit("In");
    reveal_strlit("in");
    reveal_strlit("Out");
    reveal_strlit("out");
    let l = d.spec_label();
    lemma_trim_plain(l);
    assert(ascii_lower('I') == 'i');
    assert(ascii_lower('O') == 'o');
    match d {
        PaymentDirection::In => {
            assert(eq_ic(l, "in"@));
        },
        PaymentDirection::Out => {
            assert(!eq_ic(l, "in"@));
            assert(eq_ic(l, "out"@));
        },
    }
}

impl PaymentDirection {
    /// The direction named by `in` or `out`, ignoring surrounding
    /// whitespace and ASCII case.
    pub fn parse(s: &str) -> (r: Option<PaymentDirection>)
        ensures
            r == payment_direction_keyword(trim_spec(s@)),
    {
        let t = trim(s);
        if eq_ignore_ascii_case(t, "in") {
            Some(PaymentDirection::In)
        } else if eq_ignore_ascii_case(t, "out") {
            Some(PaymentDirection::Out)
        } else {
            None
        }
    }
}

/// A payment record as the application handles it.
#[derive(Clone, Debug)]
pub struct Payment {
    pub id: i32,
    pub invoice_id: Option<i32>,
    pub party_id: Option<i32>,
    pub created_by_user_id: i32,
    pub payment_direction: PaymentDirection,
    pub amount: Amount,
    pub payment_date: Date,
    pub remarks: Option<String>,
    pub created_at: DateTime,
}

/// A payment with its party's and creator's names, for display.
#[derive(Clone, Debug)]
pub struct PaymentDetail {
    pub id: i32,
    pub payment_direction: PaymentDirection,
    pub payment_date: Date,
    pub party_name: Option<String>,
    pub amount: Amount,
    pub remarks: Option<String>,
    pub created_at: DateTime,
    pub created_by_name: Option<String>,
}

/// The two lines a payment posts: the receiving account debited and the
/// paying account credited for the amount, with no description.
pub open spec fn payment_entry_spec(from_account_id: i32, to_account_id: i32, amount: Amount) -> Seq<
    (i32, EntrySide, Amount, Seq<char>),
> {
    seq![
        (to_account_id, EntrySide::Debit, amount, Seq::<char>::empty()),
        (from_account_id, EntrySide::Credit, amount, Seq::<char>::empty()),
    ]
}

/// A payment moves its amount from one account to the other: the paying
/// account goes down by the amount, the receiving one up by it, and no
/// other account is touched.
pub proof fn lemma_payment_moves_amount(
    lines: Seq<JournalEntryLineInput>,
    from_account_id: i32,
    to_account_id: i32,
    amount: Amount,
    account_id: i32,
)
    requires
        line_shape(lines) == payment_entry_spec(from_account_id, to_account_id, amount),
        from_account_id != to_account_id,
    ensures
        account_effect(lines, to_account_id) == val(amount@),
        account_effect(lines, from_account_id) == -val(amount@),
        account_id != from_account_id && account_id != to_account_id ==> account_effect(
            lines,
            account_id,
        ) == 0,
{
    reveal_with_fuel(account_effect, 3);
    assert(line_shape(lines).len() == lines.len());
    assert(line_shape(lines)[0] == payment_entry_spec(from_account_id, to_account_id, amount)[0]);
    assert(line_shape(lines)[1] == payment_entry_spec(from_account_id, to_account_id, amount)[1]);
    assert(lines.drop_last().drop_last() =~= Seq::<JournalEntryLineInput>::empty());
    assert(lines.drop_last().last() == lines[0]);
}

impl Payment {
    /// The payment of a record.
    pub fn from_model(m: payment_entity::Model) -> (r: Payment)
        ensures
            r.id == m.id && r.invoice_id == m.invoice_id && r.party_id == m.party_id
                && r.created_by_user_id == m.created_by_user_id && r.payment_direction
                == m.payment_direction && r.amount == m.amount && r.payment_date == m.payment_date
                && r.remarks == m.remarks && r.created_at == m.created_at,
    {
        Payment {
            id: m.id,
            invoice_id: m.invoice_id,
            party_id: m.party_id,
            created_by_user_id: m.created_by_user_id,
            payment_direction: m.payment_direction,
            amount: m.amount,
            payment_date: m.payment_date,
            remarks: m.remarks,
            created_at: m.created_at,
        }
    }

    /// The detail view of a payment, if there is one, with the party's
    /// name (only when the payment has a party) and the creator's name.
    pub fn find_with_linked(
        model: Option<payment_entity::Model>,
        party_name: Option<String>,
        created_by_name: Option<String>,
    ) -> (r: Option<PaymentDetail>)
        ensures
            model is None ==> r is None,
            model matches Some(m) ==> (r matches Some(d) && d.id == m.id && d.payment_direction
                == m.payment_direction && d.payment_date == m.payment_date && d.party_name == (
            if m.party_id is Some {
                party_name
            } else {
                None
            }) && d.amount == m.amount && d.remarks == m.remarks && d.created_at == m.created_at
                && d.created_by_name == created_by_name),
    {
        let m = match model {
            Some(m) => m,
            None => {
                return None;
            },
        };
        let party = match m.party_id {
            Some(_) => party_name,
            None => None,
        };
        Some(
            PaymentDetail {
                id: m.id,
                payment_direction: m.payment_direction,
                payment_date: m.payment_date,
                party_name: party,
                amount: m.amount,
                remarks: m.remarks,
                created_at: m.created_at,
                created_by_name,
            },
        )
    }

    /// A payment cannot move money from an account to itself.
    pub fn check_accounts(from_account_id: i32, to_account_id: i32) -> (r: Result<(), PaymentCreateError>)
        ensures
            r is Ok <==> from_account_id != to_account_id,
            r is Err ==> r matches Err(PaymentCreateError::SameAccount),
    {
        if from_account_id == to_account_id {
            return Err(PaymentCreateError::SameAccount);
        }
        Ok(())
    }

    /// The journal entry of a recorded payment: the receiving account
    /// debited and the paying account credited for its amount, traced to the
    /// payment and posted by its creator. Refused when the accounts are the
    /// same (`SameAccount`) or the amount is not positive (a posting error).
    pub fn create(payment: &Payment, from_account_id: i32, to_account_id: i32) -> (r: Result<
        NewJournalEntry,
        PaymentCreateError,
    >)
        ensures
            from_account_id == to_account_id ==> r matches Err(PaymentCreateError::SameAccount),
            from_account_id != to_account_id ==> (r is Ok <==> val(payment.amount@) > 0),
            from_account_id != to_account_id && val(payment.amount@) <= 0 ==> (r matches Err(
                PaymentCreateError::Posting(PostingError::NonPositiveAmount { amount }),
            ) && amount == payment.amount),
            r matches Ok(e) ==> e.payment_id == Some(payment.id) && e.claim_id is None
                && e.invoice_id is None && e.created_by_user_id == payment.created_by_user_id
                && line_shape(e.lines@) == payment_entry_spec(
                from_account_id,
                to_account_id,
                payment.amount,
            ),
    {
        if from_account_id == to_account_id {
            return Err(PaymentCreateError::SameAccount);
        }
        let mut lines: Vec<JournalEntryLineInput> = Vec::new();
        lines.push(
            JournalEntryLineInput {
                account_id: to_account_id,
                entry_side: EntrySide::Debit,
                amount: payment.amount,
                description: None,
            },
        );
        lines.push(
            JournalEntryLineInput {
                account_id: from_account_id,
                entry_side: EntrySide::Credit,
                amount: payment.amount,
                description: None,
            },
        );
        payment.amount.parts_are_ok();
        let ghost lv = lines@;
        proof {
            assert(line_shape(lines@) =~= payment_entry_spec(
                from_account_id,
                to_account_id,
                payment.amount,
            ));
            lemma_two_line_entry(lines@);
            if val(payment.amount@) <= 0 {
                assert(!all_positive(lines@));
                assert(lines@[0].amount == payment.amount);
            } else {
                assert(all_positive(lines@));
            }
        }
        match PostingService::post_entry_in(
            lines,
            SourceDocument::Payment { payment_id: payment.id },
            payment.created_by_user_id,
        ) {
            Ok(e) => Ok(e),
            Err(e) => {
                proof {
                    assert(forall|i: int| 0 <= i < lv.len() ==> lv[i].amount == payment.amount);
                }
                Err(PaymentCreateError::from(e))
            },
        }
    }

    /// The sum of the payments' amounts, in order from zero; `None` when it
    /// overflows. Exact when the amounts' magnitudes sum within a decimal at
    /// their finest scale.
    pub fn total_for_party(payments: &[Payment]) -> (r: Option<Amount>)
        ensures
            opt_parts(r) == sum_parts(payment_amounts(payments@)),
            sum_fits(payment_amounts(payments@)) ==> r is Some && val(r.unwrap()@) == val_sum(
                payment_amounts(payments@),
            ),
    {
        let mut amounts: Vec<Amount> = Vec::new();
        let mut i: usize = 0;
        while i < payments.len()
            invariant
                0 <= i <= payments@.len(),
                amounts@.len() == i,
                forall|j: int| 0 <= j < i ==> #[trigger] amounts@[j] == payments@[j].amount,
            decreases payments.len() - i,
        {
            amounts.push(payments[i].amount);
            i = i + 1;
        }
        proof {
            assert(parts_of(amounts@) =~= payment_amounts(payments@));
        }
        sum_amounts(&amounts)
    }
}

/// The amount of each payment.
pub open spec fn payment_amounts(payments: Seq<Payment>) -> Seq<(i128, u32)> {
    payments.map_values(|p: Payment| p.amount@)
}

} // verus!

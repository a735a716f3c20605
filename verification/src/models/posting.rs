//! Journal posting: the rules every journal entry obeys before it is
//! written (at least one line, positive amounts, debits equal to credits).

use vstd::prelude::*;

use crate::amount::{abs_sum, lemma_pow10_positive, max_scale, pow10, room, sum_fits, sum_parts, val, val_sum, Amount, MAX_MANTISSA};
use crate::entity::journal_entry::SourceDocument;
use crate::entity::journal_entry_line::EntrySide;
use crate::models::error::PostingError;
use crate::models::journal_entry::totals;

verus! {

/// One debit or credit line of a journal entry to be posted.
#[derive(Clone, Debug)]
pub struct JournalEntryLineInput {
    pub account_id: i32,
    pub entry_side: EntrySide,
    pub amount: Amount,
    pub description: Option<String>,
}

/// The amounts on one side, in order.
pub open spec fn side_parts(pairs: Seq<(EntrySide, Amount)>, side: EntrySide) -> Seq<(i128, u32)>
    decreases pairs.len(),
{
    if pairs.len() == 0 {
        Seq::empty()
    } else {
        let rest = side_parts(pairs.drop_last(), side);
        if pairs.last().0 == side {
            rest.push(pairs.last().1@)
        } else {
            rest
        }
    }
}

/// The side and amount of each line.
pub open spec fn entry_pairs(lines: Seq<JournalEntryLineInput>) -> Seq<(EntrySide, Amount)> {
    lines.map_values(|l: JournalEntryLineInput| (l.entry_side, l.amount))
}

/// The amounts of the lines on one side, in order.
pub open spec fn side_amounts(lines: Seq<JournalEntryLineInput>, side: EntrySide) -> Seq<
    (i128, u32),
> {
    side_parts(entry_pairs(lines), side)
}

/// Parts of the total of the debit lines.
pub open spec fn debit_total_spec(lines: Seq<JournalEntryLineInput>) -> Option<(i128, u32)> {
    sum_parts(side_amounts(lines, EntrySide::Debit))
}

/// Parts of the total of the credit lines.
pub open spec fn credit_total_spec(lines: Seq<JournalEntryLineInput>) -> Option<(i128, u32)> {
    sum_parts(side_amounts(lines, EntrySide::Credit))
}

/// Both totals can be computed without decimal overflow.
pub open spec fn totals_defined(lines: Seq<JournalEntryLineInput>) -> bool {
    debit_total_spec(lines) is Some && credit_total_spec(lines) is Some
}

/// Every line's amount is greater than zero.
pub open spec fn all_positive(lines: Seq<JournalEntryLineInput>) -> bool {
    forall|i: int| 0 <= i < lines.len() ==> val(#[trigger] lines[i].amount@) > 0
}

/// `a` is the amount of the first line whose amount is not positive.
pub open spec fn first_non_positive(lines: Seq<JournalEntryLineInput>, a: Amount) -> bool {
    exists|i: int|
        0 <= i < lines.len() && #[trigger] lines[i].amount == a && val(a@) <= 0 && forall|j: int|
            0 <= j < i ==> val(#[trigger] lines[j].amount@) > 0
}

/// The debit total equals the credit total.
pub open spec fn lines_balanced(lines: Seq<JournalEntryLineInput>) -> bool {
    totals_defined(lines) && val(debit_total_spec(lines).unwrap()) == val(
        credit_total_spec(lines).unwrap(),
    )
}

/// The inputs on which validation runs to the end without a decimal
/// overflow: those it rejects early, those whose totals can be summed, and
/// those whose sides sum without losing a digit.
pub open spec fn validation_defined(lines: Seq<JournalEntryLineInput>) -> bool {
    ||| lines.len() == 0
    ||| !all_positive(lines)
    ||| totals_defined(lines)
    ||| sum_fits(side_amounts(lines, EntrySide::Debit)) && sum_fits(
        side_amounts(lines, EntrySide::Credit),
    )
}

/// What validating the lines answers: `Ok` exactly for a non-empty entry of
/// positive amounts whose debit total equals its credit total; otherwise
/// `NoLines` for no lines, the first amount that is not positive, or the
/// two totals of an unbalanced entry (each the exact sum of its side
/// whenever that sum fits a decimal without loss).
pub open spec fn validation_result(lines: Seq<JournalEntryLineInput>, r: Result<(), PostingError>) -> bool {
    let debits = side_amounts(lines, EntrySide::Debit);
    let credits = side_amounts(lines, EntrySide::Credit);
    &&& (r is Ok <==> lines.len() > 0 && all_positive(lines) && lines_balanced(lines))
    &&& (lines.len() == 0 ==> r matches Err(PostingError::NoLines))
    &&& (lines.len() > 0 && !all_positive(lines) ==> (r matches Err(
        PostingError::NonPositiveAmount { amount },
    ) && first_non_positive(lines, amount)))
    &&& (lines.len() > 0 && all_positive(lines) && !lines_balanced(lines) ==> (r matches Err(
        PostingError::UnbalancedEntry { total_debits, total_credits },
    ) && Some(total_debits@) == debit_total_spec(lines) && Some(total_credits@) == credit_total_spec(
        lines,
    ) && (sum_fits(debits) ==> val(total_debits@) == val_sum(debits)) && (sum_fits(credits) ==> val(
        total_credits@,
    ) == val_sum(credits))))
    &&& (sum_fits(debits) && sum_fits(credits) ==> (r is Ok <==> lines.len() > 0 && all_positive(
        lines,
    ) && val_sum(debits) == val_sum(credits)))
}

/// Validation has a single answer for given lines: any two results that
/// both are what validating them answers are equal. So
/// `JournalEntryLineInput::validate_all`, `PostingService::validate_lines`
/// and the check made by `PostingService::post_entry_in` agree on every
/// input, errors and their amounts included.
pub proof fn lemma_validation_result_unique(
    lines: Seq<JournalEntryLineInput>,
    r1: Result<(), PostingError>,
    r2: Result<(), PostingError>,
)
    requires
        validation_result(lines, r1),
        validation_result(lines, r2),
    ensures
        r1 == r2,
{
    if lines.len() == 0 {
        assert(r1 matches Err(PostingError::NoLines));
        assert(r2 matches Err(PostingError::NoLines));
        assert(r1 == r2);
    } else if !all_positive(lines) {
        assert(r1 is Err && r2 is Err);
        let e1 = r1->Err_0;
        let e2 = r2->Err_0;
        assert(e1 is NonPositiveAmount && e2 is NonPositiveAmount);
        let a1 = e1->amount;
        let a2 = e2->amount;
        assert(first_non_positive(lines, a1));
        assert(first_non_positive(lines, a2));
        let i1 = choose|i: int|
            0 <= i < lines.len() && #[trigger] lines[i].amount == a1 && val(a1@) <= 0 && forall|j: int|
                0 <= j < i ==> val(#[trigger] lines[j].amount@) > 0;
        let i2 = choose|i: int|
            0 <= i < lines.len() && #[trigger] lines[i].amount == a2 && val(a2@) <= 0 && forall|j: int|
                0 <= j < i ==> val(#[trigger] lines[j].amount@) > 0;
        if i1 < i2 {
            assert(val(lines[i1].amount@) > 0);
        } else if i2 < i1 {
            assert(val(lines[i2].amount@) > 0);
        }
        assert(a1 == a2);
        assert(e1 == e2);
        assert(r1 == r2);
    } else if !lines_balanced(lines) {
        assert(r1 is Err && r2 is Err);
        let e1 = r1->Err_0;
        let e2 = r2->Err_0;
        assert(e1 is UnbalancedEntry && e2 is UnbalancedEntry);
        crate::amount::lemma_parts_determine(e1->total_debits, e2->total_debits);
        crate::amount::lemma_parts_determine(e1->total_credits, e2->total_credits);
        assert(e1 == e2);
        assert(r1 == r2);
    } else {
        assert(r1 is Ok && r2 is Ok);
        let u1: () = r1->Ok_0;
        let u2: () = r2->Ok_0;
        assert(u1 == u2);
        assert(r1 == Ok::<(), PostingError>(u1));
        assert(r1 == r2);
    }
}

/// The account, side, amount and description of each line.
pub open spec fn line_shape(lines: Seq<JournalEntryLineInput>) -> Seq<(i32, EntrySide, Amount, Seq<char>)> {
    lines.map_values(|l: JournalEntryLineInput| (l.account_id, l.entry_side, l.amount, match l.description {
        Some(d) => d@,
        None => Seq::<char>::empty(),
    }))
}

/// The net effect of lines on an account: debits minus credits, in exact
/// values.
pub open spec fn account_effect(lines: Seq<JournalEntryLineInput>, account_id: i32) -> int
    decreases lines.len(),
{
    if lines.len() == 0 {
        0
    } else {
        let l = lines.last();
        account_effect(lines.drop_last(), account_id) + if l.account_id != account_id {
            0
        } else if l.entry_side == EntrySide::Debit {
            val(l.amount@)
        } else {
            -val(l.amount@)
        }
    }
}

/// One debit line and one credit line of the same amount always sum
/// without loss and balance.
pub proof fn lemma_two_line_entry(lines: Seq<JournalEntryLineInput>)
    requires
        lines.len() == 2,
        lines[0].entry_side != lines[1].entry_side,
        lines[0].amount == lines[1].amount,
        crate::amount::parts_ok(lines[0].amount@),
    ensures
        sum_fits(side_amounts(lines, EntrySide::Debit)),
        sum_fits(side_amounts(lines, EntrySide::Credit)),
        val_sum(side_amounts(lines, EntrySide::Debit)) == val_sum(side_amounts(lines, EntrySide::Credit)),
        validation_defined(lines),
{
    let a = lines[0].amount@;
    let pairs = entry_pairs(lines);
    assert(pairs.drop_last().drop_last() =~= Seq::<(EntrySide, Amount)>::empty());
    assert(pairs.drop_last().last() == (lines[0].entry_side, lines[0].amount));
    assert(pairs.last() == (lines[1].entry_side, lines[1].amount));
    reveal_with_fuel(side_parts, 3);
    assert(side_parts(pairs, EntrySide::Debit) =~= seq![a]);
    assert(side_parts(pairs, EntrySide::Credit) =~= seq![a]);
    assert(seq![a].drop_last() =~= Seq::<(i128, u32)>::empty());
    lemma_pow10_positive(room(a.1 as nat));
    let p = pow10(room(a.1 as nat));
    if a.0 >= 0 {
        vstd::arithmetic::mul::lemma_mul_inequality(a.0 as int, MAX_MANTISSA as int, p);
        vstd::arithmetic::mul::lemma_mul_nonnegative(a.0 as int, p);
    } else {
        vstd::arithmetic::mul::lemma_mul_inequality(-a.0 as int, MAX_MANTISSA as int, p);
        vstd::arithmetic::mul::lemma_mul_unary_negation(-a.0 as int, p);
    }
    assert(seq![a].last() == a);
    assert(abs_sum(seq![a].drop_last()) == 0);
    assert(max_scale(seq![a].drop_last()) == 0);
    assert(val(a) == a.0 * p);
    assert(abs_sum(seq![a]) <= MAX_MANTISSA * p);
    assert(max_scale(seq![a]) == a.1 as nat);
}

impl JournalEntryLineInput {
    /// Sums the debit and the credit amounts, each from zero in line order;
    /// `None` when a sum overflows.
    pub fn totals(lines: &[JournalEntryLineInput]) -> (r: Option<(Amount, Amount)>)
        ensures
            r is Some <==> totals_defined(lines@),
            r matches Some((d, c)) ==> Some(d@) == debit_total_spec(lines@) && Some(c@)
                == credit_total_spec(lines@),
            sum_fits(side_amounts(lines@, EntrySide::Debit)) ==> debit_total_spec(lines@) is Some
                && val(debit_total_spec(lines@).unwrap()) == val_sum(
                side_amounts(lines@, EntrySide::Debit),
            ),
            sum_fits(side_amounts(lines@, EntrySide::Credit)) ==> credit_total_spec(lines@) is Some
                && val(credit_total_spec(lines@).unwrap()) == val_sum(
                side_amounts(lines@, EntrySide::Credit),
            ),
    {
        let mut pairs: Vec<(EntrySide, Amount)> = Vec::new();
        let mut i: usize = 0;
        while i < lines.len()
            invariant
                0 <= i <= lines.len(),
                pairs@ =~= entry_pairs(lines@.take(i as int)),
            decreases lines.len() - i,
        {
            pairs.push((lines[i].entry_side, lines[i].amount));
            i = i + 1;
            proof {
                assert(entry_pairs(lines@.take(i as int)) =~= entry_pairs(lines@.take(i - 1)).push(
                    (lines@[i - 1].entry_side, lines@[i - 1].amount),
                ));
            }
        }
        proof {
            assert(lines@.take(lines.len() as int) =~= lines@);
        }
        totals(pairs.as_slice())
    }

    /// Validates journal entry lines: there is at least one line, every
    /// amount is positive (the first that is not is reported), and the debit
    /// total equals the credit total.
    pub fn validate_all(lines: &[JournalEntryLineInput]) -> (r: Result<(), PostingError>)
        requires
            validation_defined(lines@),
        ensures
            validation_result(lines@, r),
    {
        if lines.len() == 0 {
            return Err(PostingError::NoLines);
        }
        let mut i: usize = 0;
        while i < lines.len()
            invariant
                0 <= i <= lines.len(),
                forall|j: int| 0 <= j < i ==> val(#[trigger] lines@[j].amount@) > 0,
            decreases lines.len() - i,
        {
            if !lines[i].amount.is_positive() {
                let amount = lines[i].amount;
                proof {
                    assert(lines@[i as int].amount == amount);
                }
                return Err(PostingError::NonPositiveAmount { amount });
            }
            i = i + 1;
        }
        match JournalEntryLineInput::totals(lines) {
            Some((total_debits, total_credits)) => {
                if !total_debits.num_eq(&total_credits) {
                    return Err(PostingError::UnbalancedEntry { total_debits, total_credits });
                }
                Ok(())
            },
            None => {
                proof {
                    assert(false);
                }
                Ok(())
            },
        }
    }
}

/// A validated journal entry, ready to be written: the document columns,
/// the author and the lines.
#[derive(Clone, Debug)]
pub struct NewJournalEntry {
    pub payment_id: Option<i32>,
    pub claim_id: Option<i32>,
    pub invoice_id: Option<i32>,
    pub created_by_user_id: i32,
    pub lines: Vec<JournalEntryLineInput>,
}

/// Centralised posting service for the double-entry accounting engine.
pub struct PostingService;

impl PostingService {
    /// Validates amounts and balance (the same rules as
    /// `JournalEntryLineInput::validate_all`).
    pub fn validate_lines(lines: &[JournalEntryLineInput]) -> (r: Result<(), PostingError>)
        requires
            validation_defined(lines@),
        ensures
            validation_result(lines@, r),
    {
        JournalEntryLineInput::validate_all(lines)
    }

    /// The entry to write for the lines and source document, once they pass
    /// validation: the document's id in its own column, the author, and the
    /// lines unchanged.
    pub fn post_entry_in(
        lines: Vec<JournalEntryLineInput>,
        source: SourceDocument,
        created_by_user_id: i32,
    ) -> (r: Result<NewJournalEntry, PostingError>)
        requires
            validation_defined(lines@),
        ensures
            r is Ok <==> lines@.len() > 0 && all_positive(lines@) && lines_balanced(lines@),
            r matches Ok(e) ==> (e.payment_id, e.claim_id, e.invoice_id) == source.spec_to_fks()
                && e.created_by_user_id == created_by_user_id && e.lines@ == lines@,
            validation_result(
                lines@,
                match r {
                    Ok(_) => Ok(()),
                    Err(e) => Err(e),
                },
            ),
    {
        match PostingService::validate_lines(lines.as_slice()) {
            Ok(()) => {},
            Err(e) => return Err(e),
        }
        let (payment_id, claim_id, invoice_id) = source.to_fks();
        Ok(NewJournalEntry { payment_id, claim_id, invoice_id, created_by_user_id, lines })
    }
}

} // verus!

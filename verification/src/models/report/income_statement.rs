//! The income statement: revenue and expenses over a period, and the
//! profit or loss they leave.

use vstd::prelude::*;

use crate::amount::{
    abs_sum, lemma_val_sum_bounded, max_nat, max_scale, parts_of, sub_parts, sum_amounts, sum_fits,
    sum_parts, val, val_sum, Amount,
};
use crate::calendar::DateTime;
use crate::entity::account as account_entity;
use crate::entity::account::AccountCategory;
use crate::entity::journal_entry_line as line_entity;
use crate::models::account::{
    account_amounts, balance_parts, balances_by_category, in_categories, normal_value,
    some_total_overflows, AccountBalance,
};

use super::balance_sheet::{lemma_fits_within, lemma_sum_fits_within, row_amounts};

verus! {

/// One account on the income statement: its name and amount.
#[derive(Clone, Debug)]
pub struct IncomeStatementLine {
    pub account_name: String,
    pub amount: Amount,
}

/// The income statement of a period (open-ended where a bound is `None`).
#[derive(Clone, Debug)]
pub struct IncomeStatement {
    pub from: Option<DateTime>,
    pub to: Option<DateTime>,
    pub revenue: Vec<IncomeStatementLine>,
    pub total_revenue: Amount,
    pub expenses: Vec<IncomeStatementLine>,
    pub total_expenses: Amount,
    pub net_profit: Amount,
    pub is_loss: bool,
}

/// The name and balance of each account of category `c`, in order.
pub open spec fn statement_rows(
    accounts: Seq<account_entity::Model>,
    lines: Seq<line_entity::Model>,
    c: AccountCategory,
) -> Seq<(Seq<char>, (i128, u32))> {
    let sel = in_categories(accounts, seq![c]);
    Seq::new(sel.len(), |i: int| (sel[i].name@, balance_parts(sel[i], lines).unwrap()))
}

/// The balances of the accounts of category `c` can be computed: there is
/// none, or no running total of the lines overflows.
pub open spec fn balances_defined(
    accounts: Seq<account_entity::Model>,
    lines: Seq<line_entity::Model>,
    c: AccountCategory,
) -> bool {
    in_categories(accounts, seq![c]).len() == 0 || !some_total_overflows(lines)
}

/// Parts of total revenue, total expenses and their difference; `None` when
/// a sum overflows.
pub open spec fn statement_figures(
    revenue: Seq<(Seq<char>, (i128, u32))>,
    expenses: Seq<(Seq<char>, (i128, u32))>,
) -> Option<((i128, u32), (i128, u32), (i128, u32))> {
    match (sum_parts(row_amounts(revenue)), sum_parts(row_amounts(expenses))) {
        (Some(tr), Some(te)) => match sub_parts(tr, te) {
            Some(n) => Some((tr, te, n)),
            None => None,
        },
        _ => None,
    }
}

/// The name and amount of each statement line.
pub open spec fn statement_view(v: Seq<IncomeStatementLine>) -> Seq<(Seq<char>, (i128, u32))> {
    v.map_values(|l: IncomeStatementLine| (l.account_name@, l.amount@))
}

/// How many of the accounts are of category `c`.
pub open spec fn category_count(accounts: Seq<account_entity::Model>, c: AccountCategory) -> nat
    decreases accounts.len(),
{
    if accounts.len() == 0 {
        0
    } else {
        category_count(accounts.drop_last(), c) + if accounts.last().category == c {
            1nat
        } else {
            0nat
        }
    }
}

/// The exact total of the balances of the accounts of category `c`: for
/// each, the debits less the credits of the lines posted to it, counted
/// from its normal side.
pub open spec fn category_balance_total(
    accounts: Seq<account_entity::Model>,
    lines: Seq<line_entity::Model>,
    c: AccountCategory,
) -> int
    decreases accounts.len(),
{
    if accounts.len() == 0 {
        0
    } else {
        let a = accounts.last();
        category_balance_total(accounts.drop_last(), lines, c) + if a.category == c {
            normal_value(a.normal_balance, val_sum(account_amounts(lines, a.id)))
        } else {
            0
        }
    }
}

/// Every account's lines sum without losing a digit.
pub open spec fn ledger_fits(lines: Seq<line_entity::Model>) -> bool {
    forall|id: i32| #[trigger] sum_fits(account_amounts(lines, id))
}

/// Selecting one category keeps exactly the accounts of that category.
proof fn lemma_category_selection(accounts: Seq<account_entity::Model>, c: AccountCategory)
    ensures
        in_categories(accounts, seq![c]).len() == category_count(accounts, c),
    decreases accounts.len(),
{
    if accounts.len() > 0 {
        lemma_category_selection(accounts.drop_last(), c);
        assert(seq![c][0] == c);
        assert(seq![c].contains(accounts.last().category) <==> accounts.last().category == c);
    }
}

/// Amounts that are, one by one, the exact balances of the accounts of a
/// category sum to that category's total.
proof fn lemma_category_values(
    accounts: Seq<account_entity::Model>,
    lines: Seq<line_entity::Model>,
    c: AccountCategory,
    vals: Seq<(i128, u32)>,
)
    requires
        vals.len() == in_categories(accounts, seq![c]).len(),
        forall|k: int|
            0 <= k < vals.len() ==> val(#[trigger] vals[k]) == normal_value(
                in_categories(accounts, seq![c])[k].normal_balance,
                val_sum(account_amounts(lines, in_categories(accounts, seq![c])[k].id)),
            ),
    ensures
        val_sum(vals) == category_balance_total(accounts, lines, c),
    decreases accounts.len(),
{
    if accounts.len() > 0 {
        let d = accounts.drop_last();
        let a = accounts.last();
        assert(seq![c][0] == c);
        assert(seq![c].contains(a.category) <==> a.category == c);
        let sel = in_categories(accounts, seq![c]);
        let rest = in_categories(d, seq![c]);
        if a.category == c {
            let vs = vals.drop_last();
            assert forall|k: int| 0 <= k < vs.len() implies val(#[trigger] vs[k]) == normal_value(
                rest[k].normal_balance,
                val_sum(account_amounts(lines, rest[k].id)),
            ) by {
                assert(vs[k] == vals[k]);
                assert(sel[k] == rest[k]);
            }
            lemma_category_values(d, lines, c, vs);
            assert(vals.last() == vals[vals.len() - 1]);
            assert(sel[sel.len() - 1] == a);
        } else {
            lemma_category_values(d, lines, c, vals);
        }
    }
}

/// The rows of a category on the income statement are one per account of
/// that category, in the order of the accounts, each named after its
/// account and carrying that account's balance.
pub proof fn lemma_statement_rows_cover_category(
    accounts: Seq<account_entity::Model>,
    lines: Seq<line_entity::Model>,
    c: AccountCategory,
)
    ensures
        statement_rows(accounts, lines, c).len() == category_count(accounts, c),
        forall|k: int|
            0 <= k < statement_rows(accounts, lines, c).len() ==> {
                let a = in_categories(accounts, seq![c])[k];
                &&& a.category == c
                &&& accounts.contains(a)
                &&& (#[trigger] statement_rows(accounts, lines, c)[k]).0 == a.name@
                &&& Some(statement_rows(accounts, lines, c)[k].1) == balance_parts(a, lines)
                    || balance_parts(a, lines) is None
            },
{
    lemma_category_selection(accounts, c);
    lemma_selection_members(accounts, c);
}

/// Every account selected for a category is one of the accounts, of that
/// category.
proof fn lemma_selection_members(accounts: Seq<account_entity::Model>, c: AccountCategory)
    ensures
        forall|k: int|
            0 <= k < in_categories(accounts, seq![c]).len() ==> (#[trigger] in_categories(
                accounts,
                seq![c],
            )[k]).category == c && accounts.contains(in_categories(accounts, seq![c])[k]),
    decreases accounts.len(),
{
    if accounts.len() > 0 {
        let d = accounts.drop_last();
        lemma_selection_members(d, c);
        assert(seq![c][0] == c);
        assert(seq![c].contains(accounts.last().category) <==> accounts.last().category == c);
        let sel = in_categories(accounts, seq![c]);
        let rest = in_categories(d, seq![c]);
        assert forall|k: int| 0 <= k < sel.len() implies (#[trigger] sel[k]).category == c
            && accounts.contains(sel[k]) by {
            if k < rest.len() {
                assert(sel[k] == rest[k]);
                let j = choose|j: int| 0 <= j < d.len() && d[j] == rest[k];
                assert(accounts[j] == d[j]);
            } else {
                assert(sel[k] == accounts.last());
                assert(accounts[accounts.len() - 1] == accounts.last());
            }
        }
    }
}

/// The statement lines of account balances.
fn statement_lines(b: &Vec<AccountBalance>) -> (r: (Vec<IncomeStatementLine>, Vec<Amount>))
    ensures
        statement_view(r.0@) == b@.map_values(
            |x: AccountBalance| (x.account.name@, x.balance@),
        ),
        parts_of(r.1@) == b@.map_values(|x: AccountBalance| x.balance@),
{
    let mut ls: Vec<IncomeStatementLine> = Vec::new();
    let mut amts: Vec<Amount> = Vec::new();
    let mut i: usize = 0;
    while i < b.len()
        invariant
            0 <= i <= b@.len(),
            ls@.len() == i,
            amts@.len() == i,
            forall|j: int|
                0 <= j < i ==> (#[trigger] ls@[j]).account_name@ == b@[j].account.name@
                    && ls@[j].amount == b@[j].balance,
            forall|j: int| 0 <= j < i ==> #[trigger] amts@[j] == b@[j].balance,
        decreases b.len() - i,
    {
        ls.push(
            IncomeStatementLine { account_name: b[i].account.name.clone(), amount: b[i].balance },
        );
        amts.push(b[i].balance);
        i = i + 1;
    }
    proof {
        assert(statement_view(ls@) =~= b@.map_values(
            |x: AccountBalance| (x.account.name@, x.balance@),
        ));
        assert(parts_of(amts@) =~= b@.map_values(|x: AccountBalance| x.balance@));
    }
    (ls, amts)
}

/// The balances of the accounts of one category.
fn category_balances(
    accounts: &[account_entity::Model],
    lines: &[line_entity::Model],
    c: AccountCategory,
) -> (r: Option<(Vec<IncomeStatementLine>, Vec<Amount>)>)
    ensures
        r is Some <==> balances_defined(accounts@, lines@, c),
        r matches Some((ls, amts)) ==> statement_view(ls@) == statement_rows(accounts@, lines@, c)
            && parts_of(amts@) == row_amounts(statement_rows(accounts@, lines@, c)),
        r matches Some((ls, amts)) ==> ls@.len() == category_count(accounts@, c) && amts@.len()
            == category_count(accounts@, c),
        r matches Some((ls, amts)) ==> (forall|k: int|
            0 <= k < ls@.len() ==> (#[trigger] ls@[k]).account_name@ == in_categories(
                accounts@,
                seq![c],
            )[k].name@),
        r matches Some((ls, amts)) ==> (ledger_fits(lines@) ==> val_sum(parts_of(amts@))
            == category_balance_total(accounts@, lines@, c)),
{
    let mut cats: Vec<AccountCategory> = Vec::new();
    cats.push(c);
    proof {
        assert(cats@ =~= seq![c]);
    }
    match balances_by_category(accounts, cats.as_slice(), lines) {
        Some(b) => {
            let (ls, amts) = statement_lines(&b);
            proof {
                assert(statement_view(ls@) =~= statement_rows(accounts@, lines@, c));
                assert(parts_of(amts@) =~= row_amounts(statement_rows(accounts@, lines@, c)));
                lemma_category_selection(accounts@, c);
                assert(statement_view(ls@).len() == ls@.len());
                assert(parts_of(amts@).len() == amts@.len());
                assert forall|k: int| 0 <= k < ls@.len() implies (#[trigger] ls@[k]).account_name@
                    == in_categories(accounts@, seq![c])[k].name@ by {
                    assert(statement_view(ls@)[k] == (ls@[k].account_name@, ls@[k].amount@));
                }
                if ledger_fits(lines@) {
                    let sel = in_categories(accounts@, seq![c]);
                    let vals = parts_of(amts@);
                    assert forall|k: int| 0 <= k < vals.len() implies val(#[trigger] vals[k]) == normal_value(
                        sel[k].normal_balance,
                        val_sum(account_amounts(lines@, sel[k].id)),
                    ) by {
                        assert(b@[k].account == sel[k]);
                        assert(sum_fits(account_amounts(lines@, b@[k].account.id)));
                        assert(vals[k] == b@[k].balance@);
                    }
                    lemma_category_values(accounts@, lines@, c, vals);
                }
            }
            Some((ls, amts))
        },
        None => None,
    }
}

/// Income statement report.
pub struct IncomeStatementReport;

impl IncomeStatementReport {
    /// The income statement from the journal lines of the period (the
    /// caller selects them): each revenue and expense account with its
    /// balance, total revenue, total expenses, the net profit (revenue minus
    /// expenses) and whether it is a loss. `None` when a sum overflows.
    ///
    /// When the figures are exact (the magnitudes of all the balances sum
    /// within a decimal at their finest scale), the net profit is total
    /// revenue minus total expenses exactly, and it is a loss exactly when
    /// expenses exceed revenue.
    pub fn compute(
        accounts: &[account_entity::Model],
        lines: &[line_entity::Model],
        from: Option<DateTime>,
        to: Option<DateTime>,
    ) -> (r: Option<IncomeStatement>)
        ensures
            !balances_defined(accounts@, lines@, AccountCategory::Revenue) || !balances_defined(
                accounts@,
                lines@,
                AccountCategory::Expense,
            ) ==> r is None,
            balances_defined(accounts@, lines@, AccountCategory::Revenue) && balances_defined(
                accounts@,
                lines@,
                AccountCategory::Expense,
            ) ==> (r is Some <==> statement_figures(
                statement_rows(accounts@, lines@, AccountCategory::Revenue),
                statement_rows(accounts@, lines@, AccountCategory::Expense),
            ) is Some),
            r matches Some(s) ==> {
                &&& s.from == from
                &&& s.to == to
                &&& statement_view(s.revenue@) == statement_rows(
                    accounts@,
                    lines@,
                    AccountCategory::Revenue,
                )
                &&& statement_view(s.expenses@) == statement_rows(
                    accounts@,
                    lines@,
                    AccountCategory::Expense,
                )
                &&& statement_figures(
                    statement_rows(accounts@, lines@, AccountCategory::Revenue),
                    statement_rows(accounts@, lines@, AccountCategory::Expense),
                ) == Some((s.total_revenue@, s.total_expenses@, s.net_profit@))
                &&& s.is_loss == (val(s.net_profit@) < 0)
            },
            r matches Some(s) ==> (sum_fits(
                row_amounts(statement_rows(accounts@, lines@, AccountCategory::Revenue)) + row_amounts(
                    statement_rows(accounts@, lines@, AccountCategory::Expense),
                ),
            ) ==> {
                &&& val(s.total_revenue@) == val_sum(
                    row_amounts(statement_rows(accounts@, lines@, AccountCategory::Revenue)),
                )
                &&& val(s.total_expenses@) == val_sum(
                    row_amounts(statement_rows(accounts@, lines@, AccountCategory::Expense)),
                )
                &&& val(s.net_profit@) == val(s.total_revenue@) - val(s.total_expenses@)
                &&& s.is_loss == (val(s.total_revenue@) < val(s.total_expenses@))
            }),
            r matches Some(s) ==> {
                &&& s.revenue@.len() == category_count(accounts@, AccountCategory::Revenue)
                &&& s.expenses@.len() == category_count(accounts@, AccountCategory::Expense)
                &&& forall|k: int|
                    0 <= k < s.revenue@.len() ==> (#[trigger] s.revenue@[k]).account_name@
                        == in_categories(accounts@, seq![AccountCategory::Revenue])[k].name@
                &&& forall|k: int|
                    0 <= k < s.expenses@.len() ==> (#[trigger] s.expenses@[k]).account_name@
                        == in_categories(accounts@, seq![AccountCategory::Expense])[k].name@
            },
            r matches Some(s) ==> (ledger_fits(lines@) && sum_fits(
                row_amounts(statement_rows(accounts@, lines@, AccountCategory::Revenue)) + row_amounts(
                    statement_rows(accounts@, lines@, AccountCategory::Expense),
                ),
            ) ==> {
                &&& val(s.total_revenue@) == category_balance_total(
                    accounts@,
                    lines@,
                    AccountCategory::Revenue,
                )
                &&& val(s.total_expenses@) == category_balance_total(
                    accounts@,
                    lines@,
                    AccountCategory::Expense,
                )
                &&& val(s.net_profit@) == category_balance_total(
                    accounts@,
                    lines@,
                    AccountCategory::Revenue,
                ) - category_balance_total(accounts@, lines@, AccountCategory::Expense)
            }),
    {
        let (revenue, revenue_amts) = match category_balances(accounts, lines, AccountCategory::Revenue) {
            Some(x) => x,
            None => {
                return None;
            },
        };
        let (expenses, expense_amts) = match category_balances(accounts, lines, AccountCategory::Expense) {
            Some(x) => x,
            None => {
                return None;
            },
        };
        let ghost r_xs = parts_of(revenue_amts@);
        let ghost x_xs = parts_of(expense_amts@);
        let ghost both = r_xs + x_xs;
        proof {
            lemma_concat_bounds(r_xs, x_xs);
            lemma_val_sum_bounded(r_xs);
            lemma_val_sum_bounded(x_xs);
            if sum_fits(both) {
                lemma_sum_fits_within(both, r_xs);
                lemma_sum_fits_within(both, x_xs);
            }
        }
        let total_revenue = match sum_amounts(&revenue_amts) {
            Some(t) => t,
            None => {
                return None;
            },
        };
        let total_expenses = match sum_amounts(&expense_amts) {
            Some(t) => t,
            None => {
                return None;
            },
        };
        proof {
            if sum_fits(both) {
                lemma_fits_within(
                    both,
                    val(total_revenue@) - val(total_expenses@),
                    max_nat(total_revenue@.1 as nat, total_expenses@.1 as nat),
                );
            }
        }
        let net_profit = match total_revenue.checked_sub(&total_expenses) {
            Some(n) => n,
            None => {
                return None;
            },
        };
        let is_loss = net_profit.is_negative();
        Some(
            IncomeStatement {
                from,
                to,
                revenue,
                total_revenue,
                expenses,
                total_expenses,
                net_profit,
                is_loss,
            },
        )
    }
}

/// The magnitudes, exact sums and scales of a concatenation are those of
/// its parts combined.
pub proof fn lemma_concat_bounds(xs: Seq<(i128, u32)>, ys: Seq<(i128, u32)>)
    ensures
        abs_sum(xs + ys) == abs_sum(xs) + abs_sum(ys),
        val_sum(xs + ys) == val_sum(xs) + val_sum(ys),
        max_scale(xs + ys) == max_nat(max_scale(xs), max_scale(ys)),
    decreases ys.len(),
{
    if ys.len() == 0 {
        assert(xs + ys =~= xs);
    } else {
        lemma_concat_bounds(xs, ys.drop_last());
        assert((xs + ys).drop_last() =~= xs + ys.drop_last());
        assert((xs + ys).last() == ys.last());
    }
}

} // verus!

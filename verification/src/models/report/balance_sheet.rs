//! The balance sheet: assets, liabilities and equity at a point in time,
//! with the period's net income shown as an equity line so that the sheet
//! balances.

use vstd::prelude::*;

use crate::amount::{
    abs_sum, fits_at, lemma_pow10_monotonic, lemma_val_sum_bounded, max_nat, max_scale, parts_of,
    parts_ok, pow10, room, sub_parts, add_parts, sum_amounts, sum_fits, sum_parts, val, val_sum, Amount,
    MAX_MANTISSA,
};
use crate::calendar::DateTime;
use crate::entity::account as account_entity;
use crate::entity::account::{AccountCategory, NormalBalance};
use crate::entity::journal_entry_line as line_entity;
use crate::entity::journal_entry_line::EntrySide;
use crate::models::posting::{entry_pairs, side_amounts, JournalEntryLineInput};
use super::income_statement::lemma_concat_bounds;
use crate::models::account::{
    account_amounts, balance_parts, balances_by_category, in_categories, normal_value,
    signed_parts, some_total_overflows, AccountBalance,
};

verus! {

/// One account shown on a statement: its name and amount.
#[derive(Clone, Debug)]
pub struct BalanceSheetLine {
    pub account_name: String,
    pub amount: Amount,
}

/// The balance sheet as of a point in time (`None`: as of now).
#[derive(Clone, Debug)]
pub struct BalanceSheet {
    pub as_of: Option<DateTime>,
    pub assets: Vec<BalanceSheetLine>,
    pub total_assets: Amount,
    pub liabilities: Vec<BalanceSheetLine>,
    pub total_liabilities: Amount,
    pub equity: Vec<BalanceSheetLine>,
    pub total_equity: Amount,
    pub total_liabilities_and_equity: Amount,
    pub current_period_net_income: Amount,
}

/// The category, name and balance of each account balance.
pub open spec fn rows_of(b: Seq<AccountBalance>) -> Seq<(AccountCategory, Seq<char>, (i128, u32))> {
    b.map_values(|x: AccountBalance| (x.account.category, x.account.name@, x.balance@))
}

/// The category, name and balance of each account, its balance computed
/// from the lines (meaningful when no account total overflows).
pub open spec fn balance_rows(
    accounts: Seq<account_entity::Model>,
    lines: Seq<line_entity::Model>,
) -> Seq<(AccountCategory, Seq<char>, (i128, u32))> {
    Seq::new(
        accounts.len(),
        |i: int|
            (accounts[i].category, accounts[i].name@, balance_parts(accounts[i], lines).unwrap()),
    )
}

/// The name and balance of the rows of category `c`, in order.
pub open spec fn category_rows(
    rows: Seq<(AccountCategory, Seq<char>, (i128, u32))>,
    c: AccountCategory,
) -> Seq<(Seq<char>, (i128, u32))>
    decreases rows.len(),
{
    if rows.len() == 0 {
        Seq::empty()
    } else {
        let rest = category_rows(rows.drop_last(), c);
        if rows.last().0 == c {
            rest.push((rows.last().1, rows.last().2))
        } else {
            rest
        }
    }
}

/// The amounts of named lines.
pub open spec fn row_amounts(ls: Seq<(Seq<char>, (i128, u32))>) -> Seq<(i128, u32)> {
    ls.map_values(|l: (Seq<char>, (i128, u32))| l.1)
}

/// The balances of all rows.
pub open spec fn all_amounts(rows: Seq<(AccountCategory, Seq<char>, (i128, u32))>) -> Seq<
    (i128, u32),
> {
    rows.map_values(|r: (AccountCategory, Seq<char>, (i128, u32))| r.2)
}

/// Some line carries the name.
pub open spec fn has_named(ls: Seq<(Seq<char>, (i128, u32))>, name: Seq<char>) -> bool {
    exists|i: int| 0 <= i < ls.len() && #[trigger] ls[i].0 == name
}

/// The equity lines, with a "Net Income" line for `net` added at the end
/// unless an equity account already carries that name.
pub open spec fn equity_with_net(
    rows: Seq<(AccountCategory, Seq<char>, (i128, u32))>,
    net: (i128, u32),
) -> Seq<(Seq<char>, (i128, u32))> {
    let e = category_rows(rows, AccountCategory::Equity);
    if has_named(e, "Net Income"@) {
        e
    } else {
        e.push(("Net Income"@, net))
    }
}

/// The exact total of the rows of a category.
pub open spec fn category_total(
    rows: Seq<(AccountCategory, Seq<char>, (i128, u32))>,
    c: AccountCategory,
) -> int {
    val_sum(row_amounts(category_rows(rows, c)))
}

/// Parts of the sheet's figures, each sum taken in row order from zero:
/// net income (revenue minus expenses), total assets, total liabilities,
/// total equity (with the net income line) and liabilities plus equity;
/// `None` when a sum overflows.
pub open spec fn sheet_figures(rows: Seq<(AccountCategory, Seq<char>, (i128, u32))>) -> Option<
    ((i128, u32), (i128, u32), (i128, u32), (i128, u32), (i128, u32)),
> {
    match (
        sum_parts(row_amounts(category_rows(rows, AccountCategory::Revenue))),
        sum_parts(row_amounts(category_rows(rows, AccountCategory::Expense))),
    ) {
        (Some(rev), Some(exp)) => match sub_parts(rev, exp) {
            Some(net) => match (
                sum_parts(row_amounts(category_rows(rows, AccountCategory::Asset))),
                sum_parts(row_amounts(category_rows(rows, AccountCategory::Liability))),
                sum_parts(row_amounts(equity_with_net(rows, net))),
            ) {
                (Some(ta), Some(tl), Some(te)) => match add_parts(tl, te) {
                    Some(tle) => Some((net, ta, tl, te, tle)),
                    None => None,
                },
                _ => None,
            },
            None => None,
        },
        _ => None,
    }
}

/// The name and amount of each statement line.
pub open spec fn line_view(v: Seq<BalanceSheetLine>) -> Seq<(Seq<char>, (i128, u32))> {
    v.map_values(|l: BalanceSheetLine| (l.account_name@, l.amount@))
}

/// The sheet shows the rows: assets, liabilities and equity (with the net
/// income line) in row order, and the figures of `sheet_figures`.
pub open spec fn sheet_shows(
    bs: BalanceSheet,
    rows: Seq<(AccountCategory, Seq<char>, (i128, u32))>,
    as_of: Option<DateTime>,
) -> bool {
    &&& bs.as_of == as_of
    &&& line_view(bs.assets@) == category_rows(rows, AccountCategory::Asset)
    &&& line_view(bs.liabilities@) == category_rows(rows, AccountCategory::Liability)
    &&& line_view(bs.equity@) == equity_with_net(rows, bs.current_period_net_income@)
    &&& sheet_figures(rows) == Some(
        (
            bs.current_period_net_income@,
            bs.total_assets@,
            bs.total_liabilities@,
            bs.total_equity@,
            bs.total_liabilities_and_equity@,
        ),
    )
}

/// The sheet's figures are the exact sums of the rows.
pub open spec fn sheet_exact(bs: BalanceSheet, rows: Seq<(AccountCategory, Seq<char>, (i128, u32))>) -> bool {
    &&& val(bs.total_assets@) == category_total(rows, AccountCategory::Asset)
    &&& val(bs.total_liabilities@) == category_total(rows, AccountCategory::Liability)
    &&& val(bs.current_period_net_income@) == category_total(rows, AccountCategory::Revenue)
        - category_total(rows, AccountCategory::Expense)
    &&& val(bs.total_equity@) == category_total(rows, AccountCategory::Equity) + if has_named(
        category_rows(rows, AccountCategory::Equity),
        "Net Income"@,
    ) {
        0
    } else {
        val(bs.current_period_net_income@)
    }
    &&& val(bs.total_liabilities_and_equity@) == val(bs.total_liabilities@) + val(bs.total_equity@)
}

/// The debit-normal balances (assets and expenses) sum to the credit-normal
/// ones (liabilities, equity and revenue), as they do when every posted
/// entry balances.
pub open spec fn trial_balanced(rows: Seq<(AccountCategory, Seq<char>, (i128, u32))>) -> bool {
    category_total(rows, AccountCategory::Asset) + category_total(rows, AccountCategory::Expense)
        == category_total(rows, AccountCategory::Liability) + category_total(
        rows,
        AccountCategory::Equity,
    ) + category_total(rows, AccountCategory::Revenue)
}

/// The rows of category `c` among the first `i + 1` rows.
pub proof fn lemma_category_rows_step(
    rows: Seq<(AccountCategory, Seq<char>, (i128, u32))>,
    i: int,
    c: AccountCategory,
)
    requires
        0 <= i < rows.len(),
    ensures
        category_rows(rows.take(i + 1), c) == if rows[i].0 == c {
            category_rows(rows.take(i), c).push((rows[i].1, rows[i].2))
        } else {
            category_rows(rows.take(i), c)
        },
{
    assert(rows.take(i + 1).drop_last() =~= rows.take(i));
    assert(rows.take(i + 1).last() == rows[i]);
}

/// Every category's magnitudes are part of the magnitudes of all rows, its
/// scales among theirs; the exact totals of the categories add up to the
/// exact total of all rows.
pub proof fn lemma_category_split(rows: Seq<(AccountCategory, Seq<char>, (i128, u32))>)
    ensures
        abs_sum(all_amounts(rows)) == abs_sum(row_amounts(category_rows(rows, AccountCategory::Asset)))
            + abs_sum(row_amounts(category_rows(rows, AccountCategory::Liability))) + abs_sum(
            row_amounts(category_rows(rows, AccountCategory::Equity)),
        ) + abs_sum(row_amounts(category_rows(rows, AccountCategory::Revenue))) + abs_sum(
            row_amounts(category_rows(rows, AccountCategory::Expense)),
        ),
        val_sum(all_amounts(rows)) == category_total(rows, AccountCategory::Asset) + category_total(
            rows,
            AccountCategory::Liability,
        ) + category_total(rows, AccountCategory::Equity) + category_total(
            rows,
            AccountCategory::Revenue,
        ) + category_total(rows, AccountCategory::Expense),
        forall|c: AccountCategory|
            max_scale(row_amounts(#[trigger] category_rows(rows, c))) <= max_scale(
                all_amounts(rows),
            ),
        forall|c: AccountCategory| abs_sum(row_amounts(#[trigger] category_rows(rows, c))) >= 0,
    decreases rows.len(),
{
    if rows.len() > 0 {
        let d = rows.drop_last();
        let last = rows.last();
        lemma_category_split(d);
        assert(all_amounts(rows).drop_last() =~= all_amounts(d));
        assert(all_amounts(rows).last() == last.2);
        assert forall|c: AccountCategory|
            #![trigger category_rows(rows, c)]
            row_amounts(category_rows(rows, c)) == if last.0 == c {
                row_amounts(category_rows(d, c)).push(last.2)
            } else {
                row_amounts(category_rows(d, c))
            } by {
            if last.0 == c {
                assert(row_amounts(category_rows(rows, c)) =~= row_amounts(category_rows(d, c)).push(
                    last.2,
                ));
            }
        }
        assert forall|c: AccountCategory|
            #![trigger category_rows(rows, c)]
            last.0 == c ==> row_amounts(category_rows(rows, c)).drop_last() =~= row_amounts(
                category_rows(d, c),
            ) by {}
        assert forall|c: AccountCategory|
            max_scale(row_amounts(#[trigger] category_rows(rows, c))) <= max_scale(
                all_amounts(rows),
            ) by {
            if last.0 == c {
                assert(row_amounts(category_rows(rows, c)).drop_last() =~= row_amounts(
                    category_rows(d, c),
                ));
            }
        }
        lemma_val_sum_bounded(all_amounts(d));
        assert forall|c: AccountCategory| abs_sum(row_amounts(#[trigger] category_rows(rows, c)))
            >= 0 by {
            lemma_val_sum_bounded(row_amounts(category_rows(rows, c)));
        }
    }
}

/// Whatever fits within the bound of a sum that fits (no larger in
/// magnitude, no finer in scale) fits too.
pub proof fn lemma_fits_within(xs: Seq<(i128, u32)>, v: int, s: nat)
    requires
        sum_fits(xs),
        -abs_sum(xs) <= v <= abs_sum(xs),
        s <= max_scale(xs),
    ensures
        fits_at(v, s),
{
    lemma_pow10_monotonic(room(max_scale(xs)), room(s));
    vstd::arithmetic::mul::lemma_mul_inequality(
        pow10(room(max_scale(xs))),
        pow10(room(s)),
        MAX_MANTISSA as int,
    );
    vstd::arithmetic::mul::lemma_mul_is_commutative(MAX_MANTISSA as int, pow10(room(max_scale(xs))));
    vstd::arithmetic::mul::lemma_mul_is_commutative(MAX_MANTISSA as int, pow10(room(s)));
}

/// A sequence no larger in magnitude and no finer in scale than one whose
/// sum fits has a sum that fits.
pub proof fn lemma_sum_fits_within(xs: Seq<(i128, u32)>, ys: Seq<(i128, u32)>)
    requires
        sum_fits(xs),
        abs_sum(ys) <= abs_sum(xs),
        max_scale(ys) <= max_scale(xs),
    ensures
        sum_fits(ys),
{
    lemma_val_sum_bounded(ys);
    lemma_fits_within(xs, abs_sum(ys), max_scale(ys));
}

/// The lines and amounts of the balances of one category, in order.
fn category_lines(b: &[AccountBalance], c: AccountCategory) -> (r: (
    Vec<BalanceSheetLine>,
    Vec<Amount>,
))
    ensures
        line_view(r.0@) == category_rows(rows_of(b@), c),
        parts_of(r.1@) == row_amounts(category_rows(rows_of(b@), c)),
{
    let ghost rows = rows_of(b@);
    let mut ls: Vec<BalanceSheetLine> = Vec::new();
    let mut amts: Vec<Amount> = Vec::new();
    let mut i: usize = 0;
    proof {
        assert(rows.take(0) =~= Seq::<(AccountCategory, Seq<char>, (i128, u32))>::empty());
        assert(line_view(ls@) =~= Seq::<(Seq<char>, (i128, u32))>::empty());
        assert(parts_of(amts@) =~= Seq::<(i128, u32)>::empty());
    }
    while i < b.len()
        invariant
            0 <= i <= b@.len(),
            rows == rows_of(b@),
            line_view(ls@) == category_rows(rows.take(i as int), c),
            parts_of(amts@) == row_amounts(category_rows(rows.take(i as int), c)),
        decreases b.len() - i,
    {
        proof {
            lemma_category_rows_step(rows, i as int, c);
        }
        if b[i].account.category == c {
            let line = BalanceSheetLine {
                account_name: b[i].account.name.clone(),
                amount: b[i].balance,
            };
            let ghost before_ls = ls@;
            let ghost before_amts = amts@;
            ls.push(line);
            amts.push(b[i].balance);
            proof {
                assert(line_view(ls@) =~= line_view(before_ls).push(
                    (b@[i as int].account.name@, b@[i as int].balance@),
                ));
                assert(parts_of(amts@) =~= parts_of(before_amts).push(b@[i as int].balance@));
                assert(row_amounts(category_rows(rows.take(i + 1), c)) =~= row_amounts(
                    category_rows(rows.take(i as int), c),
                ).push(b@[i as int].balance@));
            }
        }
        i = i + 1;
    }
    proof {
        assert(rows.take(b@.len() as int) =~= rows);
    }
    (ls, amts)
}

/// Whether a line is named "Net Income".
fn has_net_income_line(ls: &Vec<BalanceSheetLine>) -> (r: bool)
    ensures
        r == has_named(line_view(ls@), "Net Income"@),
{
    let target = String::from_str("Net Income");
    let mut i: usize = 0;
    while i < ls.len()
        invariant
            0 <= i <= ls@.len(),
            target@ == "Net Income"@,
            forall|j: int| 0 <= j < i ==> (#[trigger] line_view(ls@)[j]).0 != "Net Income"@,
        decreases ls.len() - i,
    {
        if ls[i].account_name == target {
            proof {
                assert(line_view(ls@)[i as int].0 == "Net Income"@);
            }
            return true;
        }
        i = i + 1;
    }
    false
}

/// The sheet from account balances: assets, liabilities and equity lines
/// in order; net income is total revenue minus total expenses, shown as an
/// equity line named "Net Income" unless an equity account already has
/// that name. `None` when a sum overflows.
fn sheet_from_balances(b: &[AccountBalance], as_of: Option<DateTime>) -> (r: Option<BalanceSheet>)
    ensures
        r is Some <==> sheet_figures(rows_of(b@)) is Some,
        r matches Some(bs) ==> sheet_shows(bs, rows_of(b@), as_of),
        r matches Some(bs) ==> (sum_fits(all_amounts(rows_of(b@))) ==> sheet_exact(bs, rows_of(b@))),
        sum_fits(all_amounts(rows_of(b@))) ==> r is Some,
{
    let ghost rows = rows_of(b@);
    let (assets, asset_amts) = category_lines(b, AccountCategory::Asset);
    let (liabilities, liability_amts) = category_lines(b, AccountCategory::Liability);
    let (mut equity, mut equity_amts) = category_lines(b, AccountCategory::Equity);
    let (_revenue, revenue_amts) = category_lines(b, AccountCategory::Revenue);
    let (_expenses, expense_amts) = category_lines(b, AccountCategory::Expense);
    let ghost all = all_amounts(rows);
    let ghost a_xs = row_amounts(category_rows(rows, AccountCategory::Asset));
    let ghost l_xs = row_amounts(category_rows(rows, AccountCategory::Liability));
    let ghost e_xs = row_amounts(category_rows(rows, AccountCategory::Equity));
    let ghost r_xs = row_amounts(category_rows(rows, AccountCategory::Revenue));
    let ghost x_xs = row_amounts(category_rows(rows, AccountCategory::Expense));
    proof {
        lemma_category_split(rows);
        assert(max_scale(a_xs) <= max_scale(all));
        assert(max_scale(l_xs) <= max_scale(all));
        assert(max_scale(e_xs) <= max_scale(all));
        assert(max_scale(r_xs) <= max_scale(all));
        assert(max_scale(x_xs) <= max_scale(all));
        assert(abs_sum(a_xs) >= 0 && abs_sum(l_xs) >= 0 && abs_sum(e_xs) >= 0);
        assert(abs_sum(r_xs) >= 0 && abs_sum(x_xs) >= 0);
        lemma_val_sum_bounded(a_xs);
        lemma_val_sum_bounded(l_xs);
        lemma_val_sum_bounded(e_xs);
        lemma_val_sum_bounded(r_xs);
        lemma_val_sum_bounded(x_xs);
        if sum_fits(all) {
            lemma_sum_fits_within(all, a_xs);
            lemma_sum_fits_within(all, l_xs);
            lemma_sum_fits_within(all, e_xs);
            lemma_sum_fits_within(all, r_xs);
            lemma_sum_fits_within(all, x_xs);
        }
    }
    let total_revenue = match sum_amounts(&revenue_amts) {
        Some(t) => t,
        None => {
            return None;
        },
    };
    let total_expense = match sum_amounts(&expense_amts) {
        Some(t) => t,
        None => {
            return None;
        },
    };
    proof {
        if sum_fits(all) {
            lemma_fits_within(
                all,
                val(total_revenue@) - val(total_expense@),
                max_nat(total_revenue@.1 as nat, total_expense@.1 as nat),
            );
        }
    }
    let net = match total_revenue.checked_sub(&total_expense) {
        Some(n) => n,
        None => {
            return None;
        },
    };
    let has_ni = has_net_income_line(&equity);
    let ghost eq_final = equity_with_net(rows, net@);
    if !has_ni {
        let ghost before_ls = equity@;
        let ghost before_amts = equity_amts@;
        equity.push(BalanceSheetLine { account_name: String::from_str("Net Income"), amount: net });
        equity_amts.push(net);
        proof {
            assert(line_view(equity@) =~= line_view(before_ls).push(("Net Income"@, net@)));
            assert(parts_of(equity_amts@) =~= parts_of(before_amts).push(net@));
        }
    }
    proof {
        assert(line_view(equity@) == eq_final);
        if !has_ni {
            assert(row_amounts(eq_final) =~= e_xs.push(net@));
            assert(row_amounts(eq_final).drop_last() =~= e_xs);
        }
        assert(parts_of(equity_amts@) == row_amounts(eq_final));
        if sum_fits(all) {
            lemma_val_sum_bounded(row_amounts(eq_final));
            assert(abs_sum(row_amounts(eq_final)) <= abs_sum(e_xs) + abs_sum(r_xs) + abs_sum(x_xs));
            assert(max_scale(row_amounts(eq_final)) <= max_scale(all));
            lemma_sum_fits_within(all, row_amounts(eq_final));
        }
    }
    let total_assets = match sum_amounts(&asset_amts) {
        Some(t) => t,
        None => {
            return None;
        },
    };
    let total_liabilities = match sum_amounts(&liability_amts) {
        Some(t) => t,
        None => {
            return None;
        },
    };
    let total_equity = match sum_amounts(&equity_amts) {
        Some(t) => t,
        None => {
            return None;
        },
    };
    proof {
        if sum_fits(all) {
            lemma_val_sum_bounded(row_amounts(eq_final));
            lemma_fits_within(
                all,
                val(total_liabilities@) + val(total_equity@),
                max_nat(total_liabilities@.1 as nat, total_equity@.1 as nat),
            );
        }
    }
    let total_liabilities_and_equity = match total_liabilities.checked_add(&total_equity) {
        Some(t) => t,
        None => {
            return None;
        },
    };
    Some(
        BalanceSheet {
            as_of,
            assets,
            total_assets,
            liabilities,
            total_liabilities,
            equity,
            total_equity,
            total_liabilities_and_equity,
            current_period_net_income: net,
        },
    )
}

/// The normal side of a category: assets and expenses grow on the debit
/// side, liabilities, equity and revenue on the credit side.
pub open spec fn standard_normal(c: AccountCategory) -> NormalBalance {
    match c {
        AccountCategory::Asset | AccountCategory::Expense => NormalBalance::Debit,
        _ => NormalBalance::Credit,
    }
}

/// The signed amount of every line, in order.
pub open spec fn line_signed(lines: Seq<line_entity::Model>) -> Seq<(i128, u32)> {
    lines.map_values(|l: line_entity::Model| signed_parts(l.entry_side, l.amount@))
}

/// Some account has the id.
pub open spec fn has_account(accounts: Seq<account_entity::Model>, id: i32) -> bool {
    exists|i: int| 0 <= i < accounts.len() && #[trigger] accounts[i].id == id
}

/// The ledger behind a balance sheet is sound: the accounts have distinct
/// ids and their categories' normal sides, every line is posted to one of
/// them, every account's total is exact, and the lines' debits equal their
/// credits.
pub open spec fn ledger_sound(
    accounts: Seq<account_entity::Model>,
    lines: Seq<line_entity::Model>,
) -> bool {
    &&& forall|i: int, j: int|
        0 <= i < j < accounts.len() ==> #[trigger] accounts[i].id != #[trigger] accounts[j].id
    &&& forall|i: int|
        0 <= i < accounts.len() ==> (#[trigger] accounts[i]).normal_balance == standard_normal(
            accounts[i].category,
        )
    &&& forall|k: int| 0 <= k < lines.len() ==> has_account(accounts, #[trigger] lines[k].account_id)
    &&& forall|i: int|
        0 <= i < accounts.len() ==> sum_fits(account_amounts(lines, (#[trigger] accounts[i]).id))
    &&& val_sum(line_signed(lines)) == 0
}

/// The sum over the accounts of the exact totals of their signed amounts.
pub open spec fn account_sum(accounts: Seq<account_entity::Model>, lines: Seq<line_entity::Model>) -> int
    decreases accounts.len(),
{
    if accounts.len() == 0 {
        0
    } else {
        account_sum(accounts.drop_last(), lines) + val_sum(
            account_amounts(lines, accounts.last().id),
        )
    }
}

/// The rows' balances, each counted from its category's normal side:
/// debit-normal balances added, credit-normal ones subtracted.
pub open spec fn signed_row_total(rows: Seq<(AccountCategory, Seq<char>, (i128, u32))>) -> int
    decreases rows.len(),
{
    if rows.len() == 0 {
        0
    } else {
        signed_row_total(rows.drop_last()) + if standard_normal(rows.last().0)
            == NormalBalance::Debit {
            val(rows.last().2)
        } else {
            -val(rows.last().2)
        }
    }
}

/// The signed row total is the debit-normal category totals less the
/// credit-normal ones.
proof fn lemma_signed_row_total(rows: Seq<(AccountCategory, Seq<char>, (i128, u32))>)
    ensures
        signed_row_total(rows) == category_total(rows, AccountCategory::Asset) + category_total(
            rows,
            AccountCategory::Expense,
        ) - category_total(rows, AccountCategory::Liability) - category_total(
            rows,
            AccountCategory::Equity,
        ) - category_total(rows, AccountCategory::Revenue),
    decreases rows.len(),
{
    if rows.len() > 0 {
        let d = rows.drop_last();
        let last = rows.last();
        lemma_signed_row_total(d);
        assert forall|c: AccountCategory|
            #![trigger category_rows(rows, c)]
            category_total(rows, c) == category_total(d, c) + if last.0 == c {
                val(last.2)
            } else {
                0
            } by {
            if last.0 == c {
                let xs = row_amounts(category_rows(rows, c));
                assert(xs =~= row_amounts(category_rows(d, c)).push(last.2));
                assert(xs.drop_last() =~= row_amounts(category_rows(d, c)));
            }
        }
        assert(category_total(rows, AccountCategory::Asset) == category_total(d, AccountCategory::Asset) + if last.0 == AccountCategory::Asset { val(last.2) } else { 0 });
        assert(category_total(rows, AccountCategory::Expense) == category_total(d, AccountCategory::Expense) + if last.0 == AccountCategory::Expense { val(last.2) } else { 0 });
        assert(category_total(rows, AccountCategory::Liability) == category_total(d, AccountCategory::Liability) + if last.0 == AccountCategory::Liability { val(last.2) } else { 0 });
        assert(category_total(rows, AccountCategory::Equity) == category_total(d, AccountCategory::Equity) + if last.0 == AccountCategory::Equity { val(last.2) } else { 0 });
        assert(category_total(rows, AccountCategory::Revenue) == category_total(d, AccountCategory::Revenue) + if last.0 == AccountCategory::Revenue { val(last.2) } else { 0 });
    }
}

/// With each balance the normal-side value of its account's total, the
/// signed row total is the sum of the accounts' totals.
proof fn lemma_rows_account_sum(
    accounts: Seq<account_entity::Model>,
    lines: Seq<line_entity::Model>,
    rows: Seq<(AccountCategory, Seq<char>, (i128, u32))>,
)
    requires
        rows.len() == accounts.len(),
        forall|i: int| 0 <= i < rows.len() ==> (#[trigger] rows[i]).0 == accounts[i].category,
        forall|i: int|
            0 <= i < accounts.len() ==> (#[trigger] accounts[i]).normal_balance == standard_normal(
                accounts[i].category,
            ),
        forall|i: int|
            0 <= i < rows.len() ==> val((#[trigger] rows[i]).2) == normal_value(
                accounts[i].normal_balance,
                val_sum(account_amounts(lines, accounts[i].id)),
            ),
    ensures
        signed_row_total(rows) == account_sum(accounts, lines),
    decreases rows.len(),
{
    if rows.len() > 0 {
        let n = rows.len() - 1;
        assert(rows.drop_last().len() == n);
        assert forall|i: int| 0 <= i < n implies (#[trigger] rows.drop_last()[i]).0 == accounts.drop_last()[i].category by {
            assert(rows.drop_last()[i] == rows[i]);
            assert(accounts.drop_last()[i] == accounts[i]);
        }
        assert forall|i: int| 0 <= i < n implies (#[trigger] accounts.drop_last()[i]).normal_balance == standard_normal(
            accounts.drop_last()[i].category,
        ) by {
            assert(accounts.drop_last()[i] == accounts[i]);
        }
        assert forall|i: int| 0 <= i < n implies val((#[trigger] rows.drop_last()[i]).2) == normal_value(
            accounts.drop_last()[i].normal_balance,
            val_sum(account_amounts(lines, accounts.drop_last()[i].id)),
        ) by {
            assert(rows.drop_last()[i] == rows[i]);
            assert(accounts.drop_last()[i] == accounts[i]);
        }
        lemma_rows_account_sum(accounts.drop_last(), lines, rows.drop_last());
        assert(rows.last() == rows[n]);
        assert(accounts.last() == accounts[n]);
        assert(rows[n].0 == accounts[n].category);
        assert(accounts[n].normal_balance == standard_normal(accounts[n].category));
    }
}

/// Adding a line to the ledger adds its signed amount to the sum over the
/// accounts exactly when one of them (there is at most one, the ids being
/// distinct) receives it.
proof fn lemma_account_sum_last_line(accounts: Seq<account_entity::Model>, lines: Seq<line_entity::Model>)
    requires
        lines.len() > 0,
        forall|i: int, j: int|
            0 <= i < j < accounts.len() ==> #[trigger] accounts[i].id != #[trigger] accounts[j].id,
    ensures
        account_sum(accounts, lines) == account_sum(accounts, lines.drop_last()) + if has_account(
            accounts,
            lines.last().account_id,
        ) {
            val(signed_parts(lines.last().entry_side, lines.last().amount@))
        } else {
            0
        },
    decreases accounts.len(),
{
    if accounts.len() > 0 {
        let d = accounts.drop_last();
        let a = accounts.last();
        let l = lines.last();
        let x = signed_parts(l.entry_side, l.amount@);
        assert forall|i: int, j: int| 0 <= i < j < d.len() implies #[trigger] d[i].id != #[trigger] d[j].id by {
            assert(d[i] == accounts[i] && d[j] == accounts[j]);
        }
        lemma_account_sum_last_line(d, lines);
        let pre = account_amounts(lines.drop_last(), a.id);
        if l.account_id == a.id {
            assert(account_amounts(lines, a.id) == pre.push(x));
            assert(pre.push(x).drop_last() =~= pre);
            assert(has_account(accounts, l.account_id)) by {
                assert(accounts[accounts.len() - 1].id == l.account_id);
            }
            assert(!has_account(d, l.account_id)) by {
                if has_account(d, l.account_id) {
                    let i = choose|i: int| 0 <= i < d.len() && #[trigger] d[i].id == l.account_id;
                    assert(accounts[i].id == accounts[accounts.len() - 1].id);
                }
            }
        } else {
            assert(account_amounts(lines, a.id) == pre);
            assert(has_account(accounts, l.account_id) == has_account(d, l.account_id)) by {
                if has_account(accounts, l.account_id) {
                    let i = choose|i: int| 0 <= i < accounts.len() && #[trigger] accounts[i].id == l.account_id;
                    assert(i < d.len());
                    assert(d[i] == accounts[i]);
                }
                if has_account(d, l.account_id) {
                    let i = choose|i: int| 0 <= i < d.len() && #[trigger] d[i].id == l.account_id;
                    assert(accounts[i] == d[i]);
                }
            }
        }
    }
}

/// When every line is posted to one of the accounts and their ids are
/// distinct, the sum over the accounts of their totals is the sum of all
/// the lines' signed amounts.
proof fn lemma_account_sum_all_lines(accounts: Seq<account_entity::Model>, lines: Seq<line_entity::Model>)
    requires
        forall|i: int, j: int|
            0 <= i < j < accounts.len() ==> #[trigger] accounts[i].id != #[trigger] accounts[j].id,
        forall|k: int| 0 <= k < lines.len() ==> has_account(accounts, #[trigger] lines[k].account_id),
    ensures
        account_sum(accounts, lines) == val_sum(line_signed(lines)),
    decreases lines.len(),
{
    if lines.len() == 0 {
        lemma_account_sum_empty(accounts, lines);
    } else {
        let d = lines.drop_last();
        assert forall|k: int| 0 <= k < d.len() implies has_account(accounts, #[trigger] d[k].account_id) by {
            assert(d[k] == lines[k]);
        }
        lemma_account_sum_all_lines(accounts, d);
        lemma_account_sum_last_line(accounts, lines);
        assert(lines.last() == lines[lines.len() - 1]);
        assert(has_account(accounts, lines.last().account_id));
        assert(line_signed(lines).drop_last() =~= line_signed(d));
        assert(line_signed(lines).last() == signed_parts(lines.last().entry_side, lines.last().amount@));
    }
}

/// With no lines every account's total is zero.
proof fn lemma_account_sum_empty(accounts: Seq<account_entity::Model>, lines: Seq<line_entity::Model>)
    requires
        lines.len() == 0,
    ensures
        account_sum(accounts, lines) == 0,
    decreases accounts.len(),
{
    if accounts.len() > 0 {
        lemma_account_sum_empty(accounts.drop_last(), lines);
    }
}

/// A sound ledger is in trial balance: the debit-normal balances sum to the
/// credit-normal ones.
pub proof fn lemma_sound_ledger_trial_balanced(
    accounts: Seq<account_entity::Model>,
    lines: Seq<line_entity::Model>,
    rows: Seq<(AccountCategory, Seq<char>, (i128, u32))>,
)
    requires
        ledger_sound(accounts, lines),
        rows.len() == accounts.len(),
        forall|i: int| 0 <= i < rows.len() ==> (#[trigger] rows[i]).0 == accounts[i].category,
        forall|i: int|
            0 <= i < rows.len() ==> val((#[trigger] rows[i]).2) == normal_value(
                accounts[i].normal_balance,
                val_sum(account_amounts(lines, accounts[i].id)),
            ),
    ensures
        trial_balanced(rows),
{
    lemma_rows_account_sum(accounts, lines, rows);
    lemma_account_sum_all_lines(accounts, lines);
    lemma_signed_row_total(rows);
}

/// The signed amounts of an entry's lines sum to its debits less its
/// credits.
proof fn lemma_entry_signed_sum(entry: Seq<JournalEntryLineInput>)
    requires
        forall|i: int| 0 <= i < entry.len() ==> parts_ok((#[trigger] entry[i]).amount@),
    ensures
        val_sum(entry.map_values(|l: JournalEntryLineInput| signed_parts(l.entry_side, l.amount@)))
            == val_sum(side_amounts(entry, EntrySide::Debit)) - val_sum(
            side_amounts(entry, EntrySide::Credit),
        ),
    decreases entry.len(),
{
    let s = entry.map_values(|l: JournalEntryLineInput| signed_parts(l.entry_side, l.amount@));
    if entry.len() > 0 {
        let d = entry.drop_last();
        let l = entry.last();
        assert forall|i: int| 0 <= i < d.len() implies parts_ok((#[trigger] d[i]).amount@) by {
            assert(d[i] == entry[i]);
        }
        assert(parts_ok(entry[entry.len() - 1].amount@));
        lemma_entry_signed_sum(d);
        assert(s.drop_last() =~= d.map_values(
            |l: JournalEntryLineInput| signed_parts(l.entry_side, l.amount@),
        ));
        assert(entry_pairs(entry).drop_last() =~= entry_pairs(d));
        assert(entry_pairs(entry).last() == (l.entry_side, l.amount));
        let dd = side_amounts(d, EntrySide::Debit);
        let cc = side_amounts(d, EntrySide::Credit);
        if l.entry_side == EntrySide::Debit {
            assert(side_amounts(entry, EntrySide::Debit) == dd.push(l.amount@));
            assert(dd.push(l.amount@).drop_last() =~= dd);
            assert(side_amounts(entry, EntrySide::Credit) == cc);
        } else {
            assert(side_amounts(entry, EntrySide::Credit) == cc.push(l.amount@));
            assert(cc.push(l.amount@).drop_last() =~= cc);
            assert(side_amounts(entry, EntrySide::Debit) == dd);
            vstd::arithmetic::mul::lemma_mul_unary_negation(
                l.amount@.0 as int,
                crate::amount::pow10(crate::amount::room(l.amount@.1 as nat)),
            );
        }
    }
}

/// Posting keeps the ledger balanced: a ledger whose debits equal its
/// credits still does after the lines of an entry whose debits equal its
/// credits are written to it.
pub proof fn lemma_posting_keeps_ledger_balanced(
    ledger: Seq<line_entity::Model>,
    entry: Seq<JournalEntryLineInput>,
    written: Seq<line_entity::Model>,
)
    requires
        val_sum(line_signed(ledger)) == 0,
        val_sum(side_amounts(entry, EntrySide::Debit)) == val_sum(side_amounts(entry, EntrySide::Credit)),
        forall|i: int| 0 <= i < entry.len() ==> parts_ok((#[trigger] entry[i]).amount@),
        written.len() == entry.len(),
        forall|i: int|
            0 <= i < written.len() ==> (#[trigger] written[i]).entry_side == entry[i].entry_side
                && written[i].amount == entry[i].amount,
    ensures
        val_sum(line_signed(ledger + written)) == 0,
{
    lemma_entry_signed_sum(entry);
    assert(line_signed(written) =~= entry.map_values(
        |l: JournalEntryLineInput| signed_parts(l.entry_side, l.amount@),
    ));
    assert(line_signed(ledger + written) =~= line_signed(ledger) + line_signed(written));
    lemma_concat_bounds(line_signed(ledger), line_signed(written));
}

/// Every account belongs to one of the five categories.
proof fn lemma_all_categories(accounts: Seq<account_entity::Model>, cats: Seq<AccountCategory>)
    requires
        forall|c: AccountCategory| cats.contains(c),
    ensures
        in_categories(accounts, cats) == accounts,
    decreases accounts.len(),
{
    if accounts.len() > 0 {
        lemma_all_categories(accounts.drop_last(), cats);
        assert(cats.contains(accounts.last().category));
        assert(accounts.drop_last().push(accounts.last()) =~= accounts);
    }
}

/// Balance sheet report.
pub struct BalanceSheetReport;

impl BalanceSheetReport {
    /// The balance sheet of the accounts from the journal lines posted up to
    /// its date (`as_of`; the caller selects the lines): every account's
    /// balance, then the sheet. `None` when a sum overflows.
    ///
    /// When the figures are exact (the sum of the balances' magnitudes fits
    /// a decimal at their finest scale), no equity account is named "Net
    /// Income", and the debit-normal balances sum to the credit-normal
    /// ones, the sheet balances: total assets equal total liabilities and
    /// equity.
    pub fn compute(
        accounts: &[account_entity::Model],
        lines: &[line_entity::Model],
        as_of: Option<DateTime>,
    ) -> (r: Option<BalanceSheet>)
        ensures
            accounts@.len() > 0 && some_total_overflows(lines@) ==> r is None,
            accounts@.len() == 0 || !some_total_overflows(lines@) ==> (r is Some <==> sheet_figures(
                balance_rows(accounts@, lines@),
            ) is Some),
            r matches Some(bs) ==> sheet_shows(bs, balance_rows(accounts@, lines@), as_of),
            r matches Some(bs) ==> (sum_fits(all_amounts(balance_rows(accounts@, lines@)))
                ==> sheet_exact(bs, balance_rows(accounts@, lines@))),
            (accounts@.len() == 0 || !some_total_overflows(lines@)) && sum_fits(
                all_amounts(balance_rows(accounts@, lines@)),
            ) ==> r is Some,
            r matches Some(bs) ==> (sum_fits(all_amounts(balance_rows(accounts@, lines@)))
                && !has_named(
                category_rows(balance_rows(accounts@, lines@), AccountCategory::Equity),
                "Net Income"@,
            ) && trial_balanced(balance_rows(accounts@, lines@)) ==> val(bs.total_assets@) == val(
                bs.total_liabilities_and_equity@,
            )),
            r is Some ==> forall|i: int|
                0 <= i < accounts@.len() && sum_fits(account_amounts(lines@, (#[trigger] accounts@[i]).id))
                    ==> val(balance_rows(accounts@, lines@)[i].2) == normal_value(
                    accounts@[i].normal_balance,
                    val_sum(account_amounts(lines@, accounts@[i].id)),
                ),
            r matches Some(bs) ==> (ledger_sound(accounts@, lines@) && sum_fits(
                all_amounts(balance_rows(accounts@, lines@)),
            ) && !has_named(
                category_rows(balance_rows(accounts@, lines@), AccountCategory::Equity),
                "Net Income"@,
            ) ==> val(bs.total_assets@) == val(bs.total_liabilities_and_equity@)),
    {
        let mut cats: Vec<AccountCategory> = Vec::new();
        cats.push(AccountCategory::Asset);
        cats.push(AccountCategory::Liability);
        cats.push(AccountCategory::Equity);
        cats.push(AccountCategory::Revenue);
        cats.push(AccountCategory::Expense);
        proof {
            assert forall|c: AccountCategory| cats@.contains(c) by {
                match c {
                    AccountCategory::Asset => assert(cats@[0] == c),
                    AccountCategory::Liability => assert(cats@[1] == c),
                    AccountCategory::Equity => assert(cats@[2] == c),
                    AccountCategory::Revenue => assert(cats@[3] == c),
                    AccountCategory::Expense => assert(cats@[4] == c),
                }
            }
            lemma_all_categories(accounts@, cats@);
        }
        let balances = match balances_by_category(accounts, cats.as_slice(), lines) {
            Some(v) => v,
            None => {
                return None;
            },
        };
        let ghost rows = balance_rows(accounts@, lines@);
        proof {
            assert(rows_of(balances@) =~= rows);
            assert forall|i: int|
                0 <= i < accounts@.len() && sum_fits(account_amounts(lines@, (#[trigger] accounts@[i]).id))
                    implies val(rows[i].2) == normal_value(
                    accounts@[i].normal_balance,
                    val_sum(account_amounts(lines@, accounts@[i].id)),
                ) by {
                assert(balances@[i].account == accounts@[i]);
                assert(rows[i].2 == balances@[i].balance@);
            }
            if ledger_sound(accounts@, lines@) {
                assert forall|i: int| 0 <= i < rows.len() implies val((#[trigger] rows[i]).2) == normal_value(
                    accounts@[i].normal_balance,
                    val_sum(account_amounts(lines@, accounts@[i].id)),
                ) by {
                    assert(sum_fits(account_amounts(lines@, accounts@[i].id)));
                    assert(balances@[i].account == accounts@[i]);
                    assert(rows[i].2 == balances@[i].balance@);
                }
                lemma_sound_ledger_trial_balanced(accounts@, lines@, rows);
            }
        }
        sheet_from_balances(balances.as_slice(), as_of)
    }
}

} // verus!

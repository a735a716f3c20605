//! Accounts: finding the accounts a posting needs by name, and the balance
//! of each account from the journal lines posted to it.

use vstd::prelude::*;

use std::collections::HashMap;

use crate::amount::{
    lemma_sum_parts_none_extends, lemma_sum_step_fits, max_nat, max_scale, sum_fits, sum_parts,
    val, val_sum, Amount,
};
use crate::entity::account as account_entity;
use crate::entity::account::{AccountCategory, NormalBalance};
use crate::entity::journal_entry_line as line_entity;
use crate::entity::journal_entry_line::EntrySide;
use crate::models::error::AppError;

verus! {

broadcast use vstd::std_specs::hash::group_hash_axioms;

/// An account as offered in a form's drop-down.
#[derive(Clone, Debug)]
pub struct AccountOption {
    pub id: i32,
    pub name: String,
}

/// The first of the accounts with exactly the given name.
pub open spec fn first_named(accounts: Seq<account_entity::Model>, name: Seq<char>) -> Option<
    account_entity::Model,
>
    decreases accounts.len(),
{
    if accounts.len() == 0 {
        None
    } else if accounts[0].name@ == name {
        Some(accounts[0])
    } else {
        first_named(accounts.drop_first(), name)
    }
}

/// A copy of an account record.
pub fn copy_account(a: &account_entity::Model) -> (r: account_entity::Model)
    ensures
        r == *a,
{
    account_entity::Model {
        id: a.id,
        name: a.name.clone(),
        category: a.category,
        normal_balance: a.normal_balance,
        created_at: a.created_at,
    }
}

/// The account with exactly the given name (the first, should several
/// carry it).
pub fn find_by_name(accounts: &[account_entity::Model], name: &str) -> (r: Option<
    account_entity::Model,
>)
    ensures
        r == first_named(accounts@, name@),
{
    let target = String::from_str(name);
    let mut i: usize = 0;
    proof {
        assert(accounts@.subrange(0, accounts@.len() as int) =~= accounts@);
    }
    while i < accounts.len()
        invariant
            0 <= i <= accounts@.len(),
            target@ == name@,
            first_named(accounts@, name@) == first_named(
                accounts@.subrange(i as int, accounts@.len() as int),
                name@,
            ),
        decreases accounts.len() - i,
    {
        let ghost rest = accounts@.subrange(i as int, accounts@.len() as int);
        proof {
            assert(rest[0] == accounts@[i as int]);
            assert(rest.drop_first() =~= accounts@.subrange(i + 1, accounts@.len() as int));
        }
        if accounts[i].name == target {
            return Some(copy_account(&accounts[i]));
        }
        i = i + 1;
    }
    None
}

/// The two accounts with the given names, or `NotFound` when either is
/// missing.
fn find_pair(accounts: &[account_entity::Model], first: &str, second: &str) -> (r: Result<
    (account_entity::Model, account_entity::Model),
    AppError,
>)
    ensures
        r is Ok <==> first_named(accounts@, first@) is Some && first_named(accounts@, second@) is Some,
        r matches Ok((a, b)) ==> Some(a) == first_named(accounts@, first@) && Some(b) == first_named(
            accounts@,
            second@,
        ),
        r is Err ==> r matches Err(AppError::NotFound),
{
    let a = find_by_name(accounts, first);
    let b = find_by_name(accounts, second);
    match (a, b) {
        (Some(a), Some(b)) => Ok((a, b)),
        _ => Err(AppError::NotFound),
    }
}

/// "Accounts Receivable" and "Sales Revenue", the accounts an invoice posts
/// to.
pub fn find_ar_and_sr(accounts: &[account_entity::Model]) -> (r: Result<
    (account_entity::Model, account_entity::Model),
    AppError,
>)
    ensures
        r is Ok <==> first_named(accounts@, "Accounts Receivable"@) is Some && first_named(
            accounts@,
            "Sales Revenue"@,
        ) is Some,
        r matches Ok((a, b)) ==> Some(a) == first_named(accounts@, "Accounts Receivable"@) && Some(b)
            == first_named(accounts@, "Sales Revenue"@),
        r is Err ==> r matches Err(AppError::NotFound),
{
    find_pair(accounts, "Accounts Receivable", "Sales Revenue")
}

/// "Operating Expenses" and "Accounts Payable", the accounts an approved
/// claim posts to.
pub fn find_oe_and_ap(accounts: &[account_entity::Model]) -> (r: Result<
    (account_entity::Model, account_entity::Model),
    AppError,
>)
    ensures
        r is Ok <==> first_named(accounts@, "Operating Expenses"@) is Some && first_named(
            accounts@,
            "Accounts Payable"@,
        ) is Some,
        r matches Ok((a, b)) ==> Some(a) == first_named(accounts@, "Operating Expenses"@) && Some(b)
            == first_named(accounts@, "Accounts Payable"@),
        r is Err ==> r matches Err(AppError::NotFound),
{
    find_pair(accounts, "Operating Expenses", "Accounts Payable")
}

/// "Cash" and "Accounts Receivable", the accounts an invoice payment posts
/// to.
pub fn find_cash_and_ar(accounts: &[account_entity::Model]) -> (r: Result<
    (account_entity::Model, account_entity::Model),
    AppError,
>)
    ensures
        r is Ok <==> first_named(accounts@, "Cash"@) is Some && first_named(
            accounts@,
            "Accounts Receivable"@,
        ) is Some,
        r matches Ok((a, b)) ==> Some(a) == first_named(accounts@, "Cash"@) && Some(b)
            == first_named(accounts@, "Accounts Receivable"@),
        r is Err ==> r matches Err(AppError::NotFound),
{
    find_pair(accounts, "Cash", "Accounts Receivable")
}

/// The drop-down options for the accounts, in the order given (the caller
/// lists the accounts by name).
pub fn list_accounts(accounts: &[account_entity::Model]) -> (r: Vec<AccountOption>)
    ensures
        r@.len() == accounts@.len(),
        forall|i: int|
            0 <= i < r@.len() ==> (#[trigger] r@[i]).id == accounts@[i].id && r@[i].name
                == accounts@[i].name,
{
    let mut out: Vec<AccountOption> = Vec::new();
    let mut i: usize = 0;
    while i < accounts.len()
        invariant
            0 <= i <= accounts@.len(),
            out@.len() == i,
            forall|j: int|
                0 <= j < i ==> (#[trigger] out@[j]).id == accounts@[j].id && out@[j].name
                    == accounts@[j].name,
        decreases accounts.len() - i,
    {
        out.push(AccountOption { id: accounts[i].id, name: accounts[i].name.clone() });
        i = i + 1;
    }
    out
}

/// A line's amount, counted positive on the debit side and negative on the
/// credit side.
pub open spec fn signed_parts(side: EntrySide, a: (i128, u32)) -> (i128, u32) {
    match side {
        EntrySide::Debit => a,
        EntrySide::Credit => ((-a.0) as i128, a.1),
    }
}

/// The signed amounts of the lines posted to account `id`, in line order.
pub open spec fn account_amounts(lines: Seq<line_entity::Model>, id: i32) -> Seq<(i128, u32)>
    decreases lines.len(),
{
    if lines.len() == 0 {
        Seq::empty()
    } else {
        let rest = account_amounts(lines.drop_last(), id);
        if lines.last().account_id == id {
            rest.push(signed_parts(lines.last().entry_side, lines.last().amount@))
        } else {
            rest
        }
    }
}

/// The accounts whose category is one of `categories`, in order.
pub open spec fn in_categories(
    accounts: Seq<account_entity::Model>,
    categories: Seq<AccountCategory>,
) -> Seq<account_entity::Model>
    decreases accounts.len(),
{
    if accounts.len() == 0 {
        Seq::empty()
    } else {
        let rest = in_categories(accounts.drop_last(), categories);
        if categories.contains(accounts.last().category) {
            rest.push(accounts.last())
        } else {
            rest
        }
    }
}

/// A value as seen from an account's normal side: unchanged for a
/// debit-normal account, negated for a credit-normal one.
pub open spec fn normal_value(nb: NormalBalance, v: int) -> int {
    match nb {
        NormalBalance::Debit => v,
        NormalBalance::Credit => -v,
    }
}

/// Parts of an account's balance: the sum of the signed amounts posted to
/// it, negated for a credit-normal account; `None` when the sum overflows.
pub open spec fn balance_parts(a: account_entity::Model, lines: Seq<line_entity::Model>) -> Option<
    (i128, u32),
> {
    match sum_parts(account_amounts(lines, a.id)) {
        None => None,
        Some(raw) => Some(
            match a.normal_balance {
                NormalBalance::Debit => raw,
                NormalBalance::Credit => ((-raw.0) as i128, raw.1),
            },
        ),
    }
}

/// The running total of some line's account overflows.
pub open spec fn some_total_overflows(lines: Seq<line_entity::Model>) -> bool {
    exists|k: int|
        #![trigger lines[k]]
        0 <= k < lines.len() && sum_parts(account_amounts(lines, lines[k].account_id)) is None
}

/// The amounts of account `id` among the first `i + 1` lines: those among
/// the first `i`, and line `i`'s if it is posted to `id`.
pub proof fn lemma_account_amounts_step(lines: Seq<line_entity::Model>, i: int, id: i32)
    requires
        0 <= i < lines.len(),
    ensures
        account_amounts(lines.take(i + 1), id) == if lines[i].account_id == id {
            account_amounts(lines.take(i), id).push(
                signed_parts(lines[i].entry_side, lines[i].amount@),
            )
        } else {
            account_amounts(lines.take(i), id)
        },
{
    assert(lines.take(i + 1).drop_last() =~= lines.take(i));
    assert(lines.take(i + 1).last() == lines[i]);
}

/// The amounts of an account among the first lines are a prefix of its
/// amounts among all lines.
pub proof fn lemma_account_amounts_prefix(lines: Seq<line_entity::Model>, i: int, id: i32)
    requires
        0 <= i <= lines.len(),
    ensures
        account_amounts(lines.take(i), id).len() <= account_amounts(lines, id).len(),
        account_amounts(lines.take(i), id) == account_amounts(lines, id).take(
            account_amounts(lines.take(i), id).len() as int,
        ),
    decreases lines.len() - i,
{
    if i == lines.len() {
        assert(lines.take(i) =~= lines);
        assert(account_amounts(lines, id).take(account_amounts(lines, id).len() as int)
            =~= account_amounts(lines, id));
    } else {
        lemma_account_amounts_prefix(lines, i + 1, id);
        lemma_account_amounts_step(lines, i, id);
        let pre = account_amounts(lines.take(i), id);
        let full = account_amounts(lines, id);
        if lines[i].account_id == id {
            assert(pre =~= full.take(pre.len() as int + 1).take(pre.len() as int));
            assert(full.take(pre.len() as int + 1).take(pre.len() as int) =~= full.take(pre.len() as int));
        }
    }
}

/// Whether `c` is one of `categories`.
fn category_in(c: AccountCategory, categories: &[AccountCategory]) -> (r: bool)
    ensures
        r == categories@.contains(c),
{
    let mut i: usize = 0;
    while i < categories.len()
        invariant
            0 <= i <= categories@.len(),
            forall|j: int| 0 <= j < i ==> categories@[j] != c,
        decreases categories.len() - i,
    {
        if categories[i] == c {
            proof {
                assert(categories@[i as int] == c);
            }
            return true;
        }
        i = i + 1;
    }
    false
}

/// An account with its balance.
#[derive(Clone, Debug)]
pub struct AccountBalance {
    pub account: account_entity::Model,
    pub balance: Amount,
}

/// The running totals of the signed amounts per account, over the lines in
/// order; `None` when a total overflows.
fn account_totals(lines: &[line_entity::Model]) -> (r: Option<HashMap<i32, Amount>>)
    ensures
        r is None <==> some_total_overflows(lines@),
        r matches Some(m) ==> forall|id: i32|
            #[trigger] m@.contains_key(id) ==> sum_parts(account_amounts(lines@, id)) == Some(
                m@[id]@,
            ),
        r matches Some(m) ==> forall|id: i32|
            !(#[trigger] m@.contains_key(id)) ==> account_amounts(lines@, id) == Seq::<
                (i128, u32),
            >::empty(),
        r matches Some(m) ==> forall|id: i32|
            #[trigger] m@.contains_key(id) && sum_fits(account_amounts(lines@, id)) ==> val(
                m@[id]@,
            ) == val_sum(account_amounts(lines@, id)),
{
    let mut totals: HashMap<i32, Amount> = HashMap::new();
    let mut i: usize = 0;
    proof {
        assert(lines@.take(0) =~= Seq::<line_entity::Model>::empty());
    }
    while i < lines.len()
        invariant
            0 <= i <= lines@.len(),
            forall|id: i32|
                #[trigger] totals@.contains_key(id) ==> sum_parts(
                    account_amounts(lines@.take(i as int), id),
                ) == Some(totals@[id]@),
            forall|id: i32|
                !(#[trigger] totals@.contains_key(id)) ==> account_amounts(
                    lines@.take(i as int),
                    id,
                ) == Seq::<(i128, u32)>::empty(),
            forall|id: i32|
                #[trigger] totals@.contains_key(id) && sum_fits(account_amounts(lines@, id)) ==> val(
                    totals@[id]@,
                ) == val_sum(account_amounts(lines@.take(i as int), id)) && totals@[id]@.1
                    <= max_scale(account_amounts(lines@.take(i as int), id)),
            forall|j: int| 0 <= j < i ==> totals@.contains_key(#[trigger] lines@[j].account_id),
        decreases lines.len() - i,
    {
        let line = &lines[i];
        let id = line.account_id;
        let x = match line.entry_side {
            EntrySide::Debit => line.amount,
            EntrySide::Credit => line.amount.neg(),
        };
        let acc = match totals.get(&id) {
            Some(t) => *t,
            None => Amount::zero(),
        };
        let ghost pre = account_amounts(lines@.take(i as int), id);
        let ghost full = account_amounts(lines@, id);
        proof {
            lemma_account_amounts_step(lines@, i as int, id);
            lemma_account_amounts_prefix(lines@, i as int, id);
            lemma_account_amounts_prefix(lines@, i + 1, id);
            assert(x@ == signed_parts(line.entry_side, line.amount@));
            assert(account_amounts(lines@.take(i + 1), id) == pre.push(x@));
            assert(pre.push(x@).drop_last() =~= pre);
            if totals@.contains_key(id) {
                assert(acc@ == totals@[id]@);
            } else {
                assert(pre =~= Seq::<(i128, u32)>::empty());
                vstd::arithmetic::mul::lemma_mul_basics(crate::amount::pow10(crate::amount::room(0)));
                assert(val(acc@) == 0);
            }
            assert(sum_parts(pre) == Some(acc@));
            if sum_fits(full) {
                assert(full.take(pre.len() as int) == pre);
                assert(full.take(pre.len() as int + 1) == pre.push(x@));
                assert(full[pre.len() as int] == full.take(pre.len() as int + 1)[pre.len() as int]);
                assert(full[pre.len() as int] == x@);
                assert(val(acc@) == val_sum(pre) && acc@.1 <= max_scale(pre));
                lemma_sum_step_fits(full, pre.len() as int, acc@);
            }
        }
        match acc.checked_add(&x) {
            Some(next) => {
                totals.insert(id, next);
                proof {
                    let post = pre.push(x@);
                    assert(post.drop_last() =~= pre);
                    assert(post.last() == x@);
                    if sum_fits(full) {
                        assert(max_nat(acc@.1 as nat, x@.1 as nat) <= max_scale(post));
                    }
                    assert forall|other: i32| other != id implies account_amounts(
                        lines@.take(i + 1),
                        other,
                    ) == account_amounts(lines@.take(i as int), other) by {
                        lemma_account_amounts_step(lines@, i as int, other);
                    }
                }
            },
            None => {
                proof {
                    let post = pre.push(x@);
                    assert(full.take(post.len() as int) == post);
                    lemma_sum_parts_none_extends(full, post.len() as int);
                    assert(lines@[i as int].account_id == id);
                }
                return None;
            },
        }
        i = i + 1;
    }
    proof {
        assert(lines@.take(lines@.len() as int) =~= lines@);
        assert forall|k: int|
            #![trigger lines@[k]]
            0 <= k < lines@.len() implies sum_parts(
            account_amounts(lines@, lines@[k].account_id),
        ) is Some by {
            assert(totals@.contains_key(lines@[k].account_id));
        }
    }
    Some(totals)
}

/// The balance of each account whose category is among `categories`, in
/// the order of `accounts`: the debits minus the credits of the lines
/// posted to it (each account's total summed in line order), negated for a
/// credit-normal account. `None` when a running total overflows (the
/// lines are expected to be those of the listed accounts).
pub fn balances_by_category(
    accounts: &[account_entity::Model],
    categories: &[AccountCategory],
    lines: &[line_entity::Model],
) -> (r: Option<Vec<AccountBalance>>)
    ensures
        in_categories(accounts@, categories@).len() == 0 ==> (r matches Some(v) && v@.len() == 0),
        in_categories(accounts@, categories@).len() > 0 ==> (r is None <==> some_total_overflows(
            lines@,
        )),
        r matches Some(v) ==> v@.len() == in_categories(accounts@, categories@).len(),
        r matches Some(v) ==> forall|i: int|
            0 <= i < v@.len() ==> (#[trigger] v@[i]).account == in_categories(
                accounts@,
                categories@,
            )[i] && Some(v@[i].balance@) == balance_parts(v@[i].account, lines@),
        r matches Some(v) ==> forall|i: int|
            0 <= i < v@.len() && sum_fits(account_amounts(lines@, (#[trigger] v@[i]).account.id))
                ==> val(v@[i].balance@) == normal_value(
                v@[i].account.normal_balance,
                val_sum(account_amounts(lines@, v@[i].account.id)),
            ),
{
    let mut selected: Vec<account_entity::Model> = Vec::new();
    let mut i: usize = 0;
    proof {
        assert(accounts@.take(0) =~= Seq::<account_entity::Model>::empty());
    }
    while i < accounts.len()
        invariant
            0 <= i <= accounts@.len(),
            selected@ == in_categories(accounts@.take(i as int), categories@),
        decreases accounts.len() - i,
    {
        proof {
            assert(accounts@.take(i + 1).drop_last() =~= accounts@.take(i as int));
            assert(accounts@.take(i + 1).last() == accounts@[i as int]);
        }
        if category_in(accounts[i].category, categories) {
            selected.push(copy_account(&accounts[i]));
        }
        i = i + 1;
    }
    proof {
        assert(accounts@.take(accounts@.len() as int) =~= accounts@);
    }
    if selected.len() == 0 {
        return Some(Vec::new());
    }
    let totals = match account_totals(lines) {
        Some(t) => t,
        None => {
            return None;
        },
    };
    let mut out: Vec<AccountBalance> = Vec::new();
    let mut k: usize = 0;
    while k < selected.len()
        invariant
            0 <= k <= selected@.len(),
            selected@ == in_categories(accounts@, categories@),
            out@.len() == k,
            forall|id: i32|
                #[trigger] totals@.contains_key(id) ==> sum_parts(account_amounts(lines@, id))
                    == Some(totals@[id]@),
            forall|id: i32|
                !(#[trigger] totals@.contains_key(id)) ==> account_amounts(lines@, id) == Seq::<
                    (i128, u32),
                >::empty(),
            forall|id: i32|
                #[trigger] totals@.contains_key(id) && sum_fits(account_amounts(lines@, id))
                    ==> val(totals@[id]@) == val_sum(account_amounts(lines@, id)),
            forall|j: int|
                0 <= j < k ==> (#[trigger] out@[j]).account == selected@[j] && Some(
                    out@[j].balance@,
                ) == balance_parts(out@[j].account, lines@),
            forall|j: int|
                0 <= j < k && sum_fits(account_amounts(lines@, (#[trigger] out@[j]).account.id))
                    ==> val(out@[j].balance@) == normal_value(
                    out@[j].account.normal_balance,
                    val_sum(account_amounts(lines@, out@[j].account.id)),
                ),
        decreases selected.len() - k,
    {
        let a = &selected[k];
        let raw = match totals.get(&a.id) {
            Some(t) => *t,
            None => Amount::zero(),
        };
        proof {
            assert(sum_parts(account_amounts(lines@, a.id)) == Some(raw@));
            if !totals@.contains_key(a.id) {
                assert(val_sum(account_amounts(lines@, a.id)) == 0);
                vstd::arithmetic::mul::lemma_mul_basics(crate::amount::pow10(crate::amount::room(0)));
                assert(val(raw@) == 0);
            }
        }
        let balance = match a.normal_balance {
            NormalBalance::Debit => raw,
            NormalBalance::Credit => raw.neg(),
        };
        out.push(AccountBalance { account: copy_account(a), balance });
        k = k + 1;
    }
    Some(out)
}

} // verus!

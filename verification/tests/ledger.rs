use csc1106::amount::Amount;
use csc1106::calendar::{Date, DateTime};
use csc1106::entity::account::{AccountCategory, Model as AccountModel, NormalBalance};
use csc1106::entity::journal_entry::{Model as EntryModel, SourceDocument};
use csc1106::entity::journal_entry_line::{EntrySide, Model as LineModel};
use csc1106::models::account::{balances_by_category, find_ar_and_sr, find_by_name, find_cash_and_ar, find_oe_and_ap, list_accounts};
use csc1106::models::error::{AppError, PostingError};
use csc1106::models::journal_entry::{format_source, source_link, totals, unique_ids, JournalEntry};
use csc1106::models::posting::{JournalEntryLineInput, PostingService};
use std::collections::HashMap;

fn amt(s: &str) -> Amount {
    Amount::parse(s).expect("a decimal")
}

fn noon(y: i32, m: u32, d: u32) -> DateTime {
    DateTime::and_hms_opt(Date::from_ymd_opt(y, m, d).unwrap(), 12, 0, 0).unwrap()
}

fn account(id: i32, name: &str, category: AccountCategory, nb: NormalBalance) -> AccountModel {
    AccountModel { id, name: name.to_string(), category, normal_balance: nb, created_at: noon(2024, 1, 1) }
}

fn chart() -> Vec<AccountModel> {
    vec![
        account(1, "Accounts Receivable", AccountCategory::Asset, NormalBalance::Debit),
        account(2, "Cash", AccountCategory::Asset, NormalBalance::Debit),
        account(3, "Accounts Payable", AccountCategory::Liability, NormalBalance::Credit),
        account(4, "Owner Equity", AccountCategory::Equity, NormalBalance::Credit),
        account(5, "Sales Revenue", AccountCategory::Revenue, NormalBalance::Credit),
        account(6, "Operating Expenses", AccountCategory::Expense, NormalBalance::Debit),
    ]
}

fn line(id: i32, entry_id: i32, account_id: i32, side: EntrySide, amount: &str) -> LineModel {
    LineModel { id, entry_id, account_id, entry_side: side, amount: amt(amount), description: None }
}

fn input(account_id: i32, side: EntrySide, amount: &str) -> JournalEntryLineInput {
    JournalEntryLineInput { account_id, entry_side: side, amount: amt(amount), description: None }
}

#[test]
fn posting_rules() {
    assert!(matches!(PostingService::validate_lines(&[]), Err(PostingError::NoLines)));
    let bad = vec![input(1, EntrySide::Debit, "5"), input(2, EntrySide::Credit, "0"), input(3, EntrySide::Credit, "-1")];
    match PostingService::validate_lines(&bad) {
        Err(PostingError::NonPositiveAmount { amount }) => assert!(amount.is_zero()),
        _ => panic!("expected a non-positive amount"),
    }
    let unbalanced = vec![input(1, EntrySide::Debit, "10"), input(2, EntrySide::Credit, "9.99")];
    match PostingService::validate_lines(&unbalanced) {
        Err(PostingError::UnbalancedEntry { total_debits, total_credits }) => {
            assert!(total_debits.num_eq(&amt("10")));
            assert!(total_credits.num_eq(&amt("9.99")));
        }
        _ => panic!("expected an unbalanced entry"),
    }
    let ok = vec![input(1, EntrySide::Debit, "10.00"), input(2, EntrySide::Credit, "4"), input(3, EntrySide::Credit, "6.0")];
    assert!(PostingService::validate_lines(&ok).is_ok());
}

#[test]
fn posting_error_messages() {
    let e = PostingError::UnbalancedEntry { total_debits: amt("10"), total_credits: amt("9.99") };
    assert_eq!(e.message(), "Unbalanced entry: total debits (10) != total credits (9.99)");
    assert_eq!(PostingError::NoLines.message(), "Journal entry must have at least one line");
    assert_eq!(PostingError::NonPositiveAmount { amount: amt("-1.5") }.message(), "Amount must be positive, got: -1.5");
    assert_eq!(AppError::NotFound.message(), "Not found");
    assert_eq!(AppError::InvalidArgument("x".to_string()).message(), "Invalid argument: x");
}

#[test]
fn posted_entry_is_traced_to_its_document() {
    let lines = vec![input(2, EntrySide::Debit, "25"), input(1, EntrySide::Credit, "25")];
    let e = PostingService::post_entry_in(lines, SourceDocument::Payment { payment_id: 11 }, 4).unwrap();
    assert_eq!((e.payment_id, e.claim_id, e.invoice_id), (Some(11), None, None));
    assert_eq!(e.created_by_user_id, 4);
    assert_eq!(e.lines.len(), 2);
    let c = JournalEntry::create(vec![input(6, EntrySide::Debit, "1"), input(3, EntrySide::Credit, "1")], SourceDocument::Claim { claim_id: 2 }, 4).unwrap();
    assert_eq!((c.payment_id, c.claim_id, c.invoice_id), (None, Some(2), None));
    assert_eq!(SourceDocument::Invoice { invoice_id: 3 }.to_fks(), (None, None, Some(3)));
}

#[test]
fn debit_and_credit_totals() {
    let (d, c) = totals(&[(EntrySide::Debit, amt("1.5")), (EntrySide::Credit, amt("1")), (EntrySide::Debit, amt("2"))]).unwrap();
    assert!(d.num_eq(&amt("3.5")));
    assert!(c.num_eq(&amt("1")));
}

#[test]
fn unique_ids_sorted_without_repeats() {
    assert_eq!(unique_ids(vec![5, 3, 5, 1, 3]), vec![1, 3, 5]);
    assert_eq!(unique_ids(vec![]), Vec::<i32>::new());
}

#[test]
fn accounts_by_name() {
    let accts = chart();
    assert_eq!(find_by_name(&accts, "Cash").unwrap().id, 2);
    assert!(find_by_name(&accts, "cash").is_none());
    let (ar, sales) = find_ar_and_sr(&accts).unwrap();
    assert_eq!((ar.id, sales.id), (1, 5));
    let (oe, ap) = find_oe_and_ap(&accts).unwrap();
    assert_eq!((oe.id, ap.id), (6, 3));
    let (cash, ar2) = find_cash_and_ar(&accts).unwrap();
    assert_eq!((cash.id, ar2.id), (2, 1));
    assert!(matches!(find_oe_and_ap(&accts[..2]), Err(AppError::NotFound)));
    let opts = list_accounts(&accts);
    assert_eq!(opts.len(), 6);
    assert_eq!(opts[1].name, "Cash");
}

#[test]
fn balances_follow_normal_sides() {
    let accts = chart();
    let lines = vec![
        line(1, 1, 1, EntrySide::Debit, "100"),
        line(2, 1, 5, EntrySide::Credit, "100"),
        line(3, 2, 2, EntrySide::Debit, "40"),
        line(4, 2, 1, EntrySide::Credit, "40"),
        line(5, 3, 6, EntrySide::Debit, "15.50"),
        line(6, 3, 3, EntrySide::Credit, "15.50"),
    ];
    let b = balances_by_category(&accts, &[AccountCategory::Asset, AccountCategory::Revenue], &lines).unwrap();
    assert_eq!(b.len(), 3);
    assert_eq!(b[0].account.id, 1);
    assert!(b[0].balance.num_eq(&amt("60")));
    assert_eq!(b[1].account.id, 2);
    assert!(b[1].balance.num_eq(&amt("40")));
    assert_eq!(b[2].account.id, 5);
    assert!(b[2].balance.num_eq(&amt("100")));
    let none = balances_by_category(&accts, &[], &lines).unwrap();
    assert!(none.is_empty());
    let untouched = balances_by_category(&accts, &[AccountCategory::Equity], &lines).unwrap();
    assert!(untouched[0].balance.is_zero());
}

#[test]
fn balance_overflow_is_reported() {
    let accts = chart();
    let max = Amount::new(79228162514264337593543950335, 0).unwrap();
    let lines = vec![
        LineModel { id: 1, entry_id: 1, account_id: 2, entry_side: EntrySide::Debit, amount: max, description: None },
        LineModel { id: 2, entry_id: 2, account_id: 2, entry_side: EntrySide::Debit, amount: max, description: None },
    ];
    assert!(balances_by_category(&accts, &[AccountCategory::Asset], &lines).is_none());
}

#[test]
fn audit_trail_names_and_links() {
    let mut invoices = HashMap::new();
    invoices.insert(3, "INV-202405-0001".to_string());
    let claims: HashMap<i32, String> = HashMap::new();
    let e = EntryModel { id: 1, payment_id: None, claim_id: None, invoice_id: Some(3), created_by_user_id: 1, created_at: noon(2024, 5, 1) };
    assert_eq!(format_source(&e, &invoices, &claims), "Invoice INV-202405-0001");
    assert_eq!(source_link(&e), Some("/invoices/3".to_string()));
    let c = EntryModel { id: 2, payment_id: None, claim_id: Some(9), invoice_id: None, created_by_user_id: 1, created_at: noon(2024, 5, 1) };
    assert_eq!(format_source(&c, &invoices, &claims), "Claim #9");
    let m = EntryModel { id: 3, payment_id: None, claim_id: None, invoice_id: None, created_by_user_id: 1, created_at: noon(2024, 5, 1) };
    assert_eq!(format_source(&m, &invoices, &claims), "Manual entry");
    assert_eq!(source_link(&m), None);
    let mut users = HashMap::new();
    users.insert(1, "Alice".to_string());
    let mut names = HashMap::new();
    names.insert(1, "Accounts Receivable".to_string());
    let lines = vec![line(1, 1, 1, EntrySide::Debit, "10"), line(2, 1, 5, EntrySide::Credit, "10"), line(3, 3, 2, EntrySide::Debit, "1")];
    let listed = JournalEntry::list(vec![e, m], lines, &users, &names, &invoices, &claims).unwrap();
    assert_eq!(listed.len(), 2);
    assert_eq!(listed[0].posted_by_name.as_deref(), Some("Alice"));
    assert_eq!(listed[0].lines.len(), 2);
    assert_eq!(listed[0].lines[0].account_name, "Accounts Receivable");
    assert_eq!(listed[0].lines[1].account_name, "Account #5");
    assert!(listed[0].total_debit.num_eq(&amt("10")));
    assert!(listed[0].total_credit.num_eq(&amt("10")));
    assert_eq!(listed[1].lines.len(), 1);
    assert_eq!(listed[1].source, "Manual entry");
}

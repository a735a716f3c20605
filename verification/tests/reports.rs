use csc1106::amount::Amount;
use csc1106::calendar::{Date, DateTime};
use csc1106::entity::account::{AccountCategory, Model as AccountModel, NormalBalance};
use csc1106::entity::invoice_line_item::GstRate;
use csc1106::entity::journal_entry_line::{EntrySide, Model as LineModel};
use csc1106::models::error::AppError;
use csc1106::models::invoice::types::{GstInvoiceLineGroup, InvoiceLineItem};
use csc1106::models::report::audit::AuditStatement;
use csc1106::models::report::balance_sheet::BalanceSheetReport;
use csc1106::models::report::gst::GstReport;
use csc1106::models::report::income_statement::IncomeStatementReport;

fn amt(s: &str) -> Amount {
    Amount::parse(s).expect("a decimal")
}

fn date(y: i32, m: u32, d: u32) -> Date {
    Date::from_ymd_opt(y, m, d).unwrap()
}

fn noon(y: i32, m: u32, d: u32) -> DateTime {
    DateTime::and_hms_opt(date(y, m, d), 12, 0, 0).unwrap()
}

fn account(id: i32, name: &str, category: AccountCategory, nb: NormalBalance) -> AccountModel {
    AccountModel { id, name: name.to_string(), category, normal_balance: nb, created_at: noon(2024, 1, 1) }
}

fn chart() -> Vec<AccountModel> {
    vec![
        account(1, "Accounts Receivable", AccountCategory::Asset, NormalBalance::Debit),
        account(2, "Cash", AccountCategory::Asset, NormalBalance::Debit),
        account(3, "Accounts Payable", AccountCategory::Liability, NormalBalance::Credit),
        account(4, "Owner Equity", AccountCategory::Equity, NormalBalance::Credit),
        account(5, "Sales Revenue", AccountCategory::Revenue, NormalBalance::Credit),
        account(6, "Operating Expenses", AccountCategory::Expense, NormalBalance::Debit),
    ]
}

fn line(id: i32, entry_id: i32, account_id: i32, side: EntrySide, amount: &str) -> LineModel {
    LineModel { id, entry_id, account_id, entry_side: side, amount: amt(amount), description: None }
}

fn ledger() -> Vec<LineModel> {
    vec![
        line(1, 1, 2, EntrySide::Debit, "500"),
        line(2, 1, 4, EntrySide::Credit, "500"),
        line(3, 2, 1, EntrySide::Debit, "120.50"),
        line(4, 2, 5, EntrySide::Credit, "120.50"),
        line(5, 3, 2, EntrySide::Debit, "20"),
        line(6, 3, 1, EntrySide::Credit, "20"),
        line(7, 4, 6, EntrySide::Debit, "35.25"),
        line(8, 4, 3, EntrySide::Credit, "35.25"),
    ]
}

#[test]
fn balance_sheet_balances_for_a_balanced_ledger() {
    let bs = BalanceSheetReport::compute(&chart(), &ledger(), None).unwrap();
    assert_eq!(bs.assets.len(), 2);
    assert_eq!(bs.assets[0].account_name, "Accounts Receivable");
    assert!(bs.assets[0].amount.num_eq(&amt("100.50")));
    assert!(bs.assets[1].amount.num_eq(&amt("520")));
    assert!(bs.total_assets.num_eq(&amt("620.50")));
    assert!(bs.total_liabilities.num_eq(&amt("35.25")));
    assert!(bs.current_period_net_income.num_eq(&amt("85.25")));
    assert_eq!(bs.equity.len(), 2);
    assert_eq!(bs.equity[1].account_name, "Net Income");
    assert!(bs.total_equity.num_eq(&amt("585.25")));
    assert!(bs.total_liabilities_and_equity.num_eq(&bs.total_assets));
    assert!(bs.as_of.is_none());
}

#[test]
fn existing_net_income_account_is_not_doubled() {
    let mut accts = chart();
    accts.push(account(7, "Net Income", AccountCategory::Equity, NormalBalance::Credit));
    let bs = BalanceSheetReport::compute(&accts, &ledger(), Some(noon(2024, 12, 31))).unwrap();
    assert_eq!(bs.equity.len(), 2);
    assert_eq!(bs.equity[1].account_name, "Net Income");
    assert!(bs.equity[1].amount.is_zero());
    assert!(bs.total_equity.num_eq(&amt("500")));
    assert!(bs.as_of.is_some());
}

#[test]
fn empty_ledger_gives_a_zero_sheet() {
    let bs = BalanceSheetReport::compute(&[], &[], None).unwrap();
    assert!(bs.assets.is_empty());
    assert!(bs.total_assets.is_zero());
    assert_eq!(bs.equity.len(), 1);
    assert!(bs.total_liabilities_and_equity.is_zero());
}

#[test]
fn income_statement_profit_and_loss() {
    let s = IncomeStatementReport::compute(&chart(), &ledger(), None, None).unwrap();
    assert_eq!(s.revenue.len(), 1);
    assert_eq!(s.revenue[0].account_name, "Sales Revenue");
    assert!(s.total_revenue.num_eq(&amt("120.50")));
    assert!(s.total_expenses.num_eq(&amt("35.25")));
    assert!(s.net_profit.num_eq(&amt("85.25")));
    assert!(!s.is_loss);
    let losing = vec![line(1, 1, 6, EntrySide::Debit, "10"), line(2, 1, 2, EntrySide::Credit, "10")];
    let l = IncomeStatementReport::compute(&chart(), &losing, None, None).unwrap();
    assert!(l.net_profit.num_eq(&amt("-10")));
    assert!(l.is_loss);
}

fn gst_item(invoice_id: i32, qty: i32, price: &str, rate: GstRate) -> InvoiceLineItem {
    InvoiceLineItem::new(invoice_id, "Item".to_string(), qty, amt(price), rate).unwrap()
}

#[test]
fn gst_summary_counts_standard_rated_lines() {
    let groups = vec![
        GstInvoiceLineGroup { invoice_id: 1, invoice_no: "INV-1".to_string(), issue_date: date(2024, 5, 1), items: vec![gst_item(1, 3, "12.50", GstRate::Standard), gst_item(1, 1, "100", GstRate::Zero)] },
        GstInvoiceLineGroup { invoice_id: 2, invoice_no: "INV-2".to_string(), issue_date: date(2024, 5, 2), items: vec![gst_item(2, 1, "50", GstRate::Zero)] },
        GstInvoiceLineGroup { invoice_id: 3, invoice_no: "INV-3".to_string(), issue_date: date(2024, 5, 3), items: vec![gst_item(3, 2, "10", GstRate::Standard)] },
    ];
    let s = GstReport::compute(groups, Some(date(2024, 5, 1)), None).unwrap();
    assert_eq!(s.invoices.len(), 2);
    assert_eq!(s.invoices[0].invoice_no, "INV-1");
    assert!(s.invoices[0].gst_amount.num_eq(&amt("3.375")));
    assert_eq!(s.invoices[1].invoice_id, 3);
    assert!(s.invoices[1].gst_amount.num_eq(&amt("1.8")));
    assert!(s.total_gst.num_eq(&amt("5.175")));
    assert!(s.from.is_some() && s.to.is_none());
}

#[test]
fn audit_period_spans_the_year() {
    let (from, to) = AuditStatement::period(2024).unwrap();
    assert_eq!((from.date.year(), from.date.month(), from.date.day()), (2024, 1, 1));
    assert_eq!((from.hour, from.minute, from.second), (0, 0, 0));
    assert_eq!((to.date.year(), to.date.month(), to.date.day()), (2024, 12, 31));
    assert_eq!((to.hour, to.minute, to.second), (23, 59, 59));
    let rep = AuditStatement::compute(2023, Vec::new()).unwrap();
    assert_eq!(rep.year, 2023);
    assert_eq!(rep.total_entries, 0);
}

#[test]
fn audit_rejects_years_out_of_range() {
    match AuditStatement::period(300000) {
        Err(AppError::InvalidArgument(m)) => assert_eq!(m, "Invalid year: 300000"),
        _ => panic!("expected an invalid argument"),
    }
    match AuditStatement::compute(-300000, Vec::new()) {
        Err(AppError::InvalidArgument(m)) => assert_eq!(m, "Invalid year: -300000"),
        _ => panic!("expected an invalid argument"),
    }
}

use csc1106::amount::Amount;
use csc1106::calendar::{Date, DateTime};
use csc1106::entity::account::{AccountCategory, Model as AccountModel, NormalBalance};
use csc1106::entity::invoice::{InvoiceStatus, Model as InvoiceModel};
use csc1106::entity::invoice_line_item::{GstRate, Model as LineRecord};
use csc1106::entity::journal_entry_line::EntrySide;
use csc1106::entity::party::{PartyStatus, PartyType};
use csc1106::entity::user::Role;
use csc1106::models::error::{InvoiceError, PostingError};
use csc1106::models::invoice::calc::{grand_total, gst_total, line_gst_amount, line_total, subtotal};
use csc1106::models::invoice::stats::InvoiceStats;
use csc1106::models::invoice::types::{items_from_models, Invoice, InvoiceLineItem, LineItemInput};
use csc1106::models::party::Party;
use std::collections::HashMap;

fn amt(s: &str) -> Amount {
    Amount::parse(s).expect("a decimal")
}

fn date(y: i32, m: u32, d: u32) -> Date {
    Date::from_ymd_opt(y, m, d).expect("a date")
}

fn noon(y: i32, m: u32, d: u32) -> DateTime {
    DateTime::and_hms_opt(date(y, m, d), 12, 0, 0).expect("a time")
}

fn invoice(id: i32, no: &str, status: InvoiceStatus) -> Invoice {
    Invoice {
        id,
        party_id: 7,
        created_by_user_id: 3,
        invoice_no: no.to_string(),
        issue_date: date(2024, 5, 1),
        due_date: date(2024, 5, 31),
        status,
        created_at: noon(2024, 5, 1),
        updated_at: noon(2024, 5, 1),
        party_name: None,
        created_by_name: None,
        grand_total: Amount::zero(),
    }
}

fn input(desc: &str, qty: i32, price: &str, rate: GstRate) -> LineItemInput {
    LineItemInput { description: desc.to_string(), quantity: qty, unit_price: amt(price), gst_rate: rate }
}

fn item(invoice_id: i32, qty: i32, price: &str, rate: GstRate) -> InvoiceLineItem {
    InvoiceLineItem::new(invoice_id, "Widget".to_string(), qty, amt(price), rate).expect("no overflow")
}

fn account(id: i32, name: &str, category: AccountCategory, nb: NormalBalance) -> AccountModel {
    AccountModel { id, name: name.to_string(), category, normal_balance: nb, created_at: noon(2024, 1, 1) }
}

fn party(status: PartyStatus, party_type: PartyType) -> Party {
    Party {
        id: 7,
        party_type,
        name: "Acme".to_string(),
        company: None,
        email: "a@acme.test".to_string(),
        phone: "".to_string(),
        address: "".to_string(),
        status,
        created_at: noon(2024, 1, 1),
        updated_at: noon(2024, 1, 1),
    }
}

#[test]
fn line_total_is_quantity_times_price() {
    let t = line_total(3, &amt("12.50")).unwrap();
    assert!(t.num_eq(&amt("37.50")));
    assert_eq!(t.to_text(), "37.50");
}

#[test]
fn standard_gst_is_nine_percent_rounded_to_four_places() {
    let g = line_gst_amount(3, &amt("12.50"), &GstRate::Standard).unwrap();
    assert_eq!(g.to_text(), "3.3750");
    let g2 = line_gst_amount(1, &amt("0.33333"), &GstRate::Standard).unwrap();
    assert_eq!(g2.to_text(), "0.0300");
    let z = line_gst_amount(5, &amt("10"), &GstRate::Zero).unwrap();
    assert!(z.is_zero());
}

#[test]
fn invoice_totals_add_up() {
    let items = vec![item(1, 3, "12.50", GstRate::Standard), item(1, 2, "5", GstRate::Zero)];
    assert!(subtotal(&items).unwrap().num_eq(&amt("47.50")));
    assert!(gst_total(&items).unwrap().num_eq(&amt("3.375")));
    assert!(grand_total(&items).unwrap().num_eq(&amt("50.875")));
    assert!(grand_total(&[]).unwrap().is_zero());
    let it = &items[0];
    assert!(it.line_total_with_gst.num_eq(&amt("40.875")));
}

#[test]
fn line_item_from_record_works_out_totals() {
    let rec = LineRecord { id: 1, invoice_id: 9, description: "Desk".to_string(), quantity: 2, unit_price: amt("100"), gst_rate: GstRate::Standard };
    let items = items_from_models(&[rec]).unwrap();
    assert_eq!(items.len(), 1);
    assert!(items[0].line_total.num_eq(&amt("200")));
    assert!(items[0].line_gst_amount.num_eq(&amt("18")));
    assert_eq!(items[0].invoice_id, 9);
}

#[test]
fn validation_reports_the_first_problem() {
    let ok = vec![input("Widget", 1, "1", GstRate::Standard)];
    assert!(Invoice::validate_inputs(&date(2024, 5, 1), &date(2024, 5, 1), &ok).is_ok());
    match Invoice::validate_inputs(&date(2024, 5, 2), &date(2024, 5, 1), &ok) {
        Err(InvoiceError::ValidationError(m)) => assert_eq!(m, "Due date cannot be before issue date"),
        _ => panic!("expected a validation error"),
    }
    assert!(matches!(Invoice::validate_inputs(&date(2024, 5, 1), &date(2024, 5, 9), &[]), Err(InvoiceError::NoLineItems)));
    let cases = [
        (input("   ", 1, "1", GstRate::Zero), "Line item description cannot be empty"),
        (input("Widget", 0, "1", GstRate::Zero), "Line item quantity must be positive"),
        (input("Widget", 1, "-0.01", GstRate::Zero), "Line item unit price cannot be negative"),
    ];
    for (bad, msg) in cases {
        let items = vec![input("Fine", 1, "2", GstRate::Zero), bad];
        match Invoice::validate_inputs(&date(2024, 5, 1), &date(2024, 5, 9), &items) {
            Err(InvoiceError::ValidationError(m)) => assert_eq!(m, msg),
            _ => panic!("expected a validation error"),
        }
    }
}

#[test]
fn line_items_are_trimmed_for_insert() {
    let rows = Invoice::line_items_to_active(4, vec![input("  Desk  ", 2, "9.99", GstRate::Standard)]);
    assert_eq!(rows.len(), 1);
    assert_eq!(rows[0].invoice_id, 4);
    assert_eq!(rows[0].description, "Desk");
    assert_eq!(rows[0].quantity, 2);
}

#[test]
fn only_active_customers_get_invoices() {
    assert!(matches!(Invoice::require_active_party(None), Err(InvoiceError::NotFound)));
    let inactive = party(PartyStatus::Inactive, PartyType::Customer);
    match Invoice::require_active_party(Some(&inactive)) {
        Err(InvoiceError::ValidationError(m)) => assert_eq!(m, "Selected party is not active"),
        _ => panic!("expected a validation error"),
    }
    let vendor = party(PartyStatus::Active, PartyType::Vendor);
    match Invoice::require_active_party(Some(&vendor)) {
        Err(InvoiceError::ValidationError(m)) => assert_eq!(m, "Invoices can only be created for customers"),
        _ => panic!("expected a validation error"),
    }
    assert!(Invoice::require_active_party(Some(&party(PartyStatus::Active, PartyType::Customer))).is_ok());
}

#[test]
fn invoice_numbers_count_within_the_month() {
    assert_eq!(Invoice::generate_invoice_no(&date(2024, 5, 17), 0), "INV-202405-0001");
    assert_eq!(Invoice::generate_invoice_no(&date(2024, 12, 1), 41), "INV-202412-0042");
    assert_eq!(Invoice::invoice_no_prefix(&date(2025, 1, 3)), "INV-202501");
    let d = date(2024, 7, 9);
    let first = Invoice::generate_invoice_no(&d, 9);
    let second = Invoice::generate_invoice_no(&d, 10);
    assert_ne!(first, second);
    assert!(first.starts_with(&Invoice::invoice_no_prefix(&d)));
    assert_eq!(Invoice::generate_invoice_no(&d, 12344), "INV-202407-12345");
    assert!(Invoice::should_retry_insert(true, 4));
    assert!(!Invoice::should_retry_insert(true, 5));
    assert!(!Invoice::should_retry_insert(false, 0));
}

#[test]
fn only_drafts_are_editable_and_sendable() {
    assert!(invoice(1, "INV-1", InvoiceStatus::Draft).ensure_editable().is_ok());
    assert!(matches!(invoice(1, "INV-1", InvoiceStatus::Sent).ensure_editable(), Err(InvoiceError::NotEditable)));
    let p = invoice(1, "INV-202405-0001", InvoiceStatus::Draft).send_posting().unwrap();
    assert_eq!(p.new_status, InvoiceStatus::Sent);
    assert!(p.debit_ar);
    assert_eq!(p.description, "Invoice INV-202405-0001");
    match invoice(1, "INV-1", InvoiceStatus::Paid).send_posting() {
        Err(InvoiceError::InvalidStatusTransition { from, to }) => {
            assert_eq!(from, "Paid");
            assert_eq!(to, "Sent");
        }
        _ => panic!("expected a refused transition"),
    }
}

#[test]
fn voiding_follows_the_status() {
    let sent = invoice(1, "INV-9", InvoiceStatus::Sent);
    let plan = sent.void_plan(&sent).unwrap().unwrap();
    assert_eq!(plan.new_status, InvoiceStatus::Voided);
    assert!(!plan.debit_ar);
    assert_eq!(plan.description, "Void invoice INV-9");
    let draft = invoice(1, "INV-9", InvoiceStatus::Draft);
    assert!(draft.void_plan(&draft).unwrap().is_none());
    assert!(matches!(invoice(1, "x", InvoiceStatus::Voided).void_plan(&sent), Err(InvoiceError::AlreadyVoided)));
    assert!(matches!(invoice(1, "x", InvoiceStatus::Paid).void_plan(&sent), Err(InvoiceError::VoidWithPayments)));
    assert!(matches!(invoice(1, "x", InvoiceStatus::PartiallyPaid).void_plan(&sent), Err(InvoiceError::VoidWithPayments)));
    match draft.void_plan(&sent) {
        Err(InvoiceError::InvalidStatusTransition { from, to }) => {
            assert_eq!(from, "Sent");
            assert_eq!(to, "Voided");
        }
        _ => panic!("expected a refused transition"),
    }
}

#[test]
fn sending_then_voiding_reverses_the_entry() {
    let accounts = vec![
        account(1, "Accounts Receivable", AccountCategory::Asset, NormalBalance::Debit),
        account(2, "Sales Revenue", AccountCategory::Revenue, NormalBalance::Credit),
    ];
    let inv = invoice(5, "INV-202405-0003", InvoiceStatus::Draft);
    let send = inv.send_posting().unwrap();
    let e1 = Invoice::post_invoice_entry(&inv, &accounts, amt("50.875"), &send, 3).unwrap();
    assert_eq!(e1.invoice_id, Some(5));
    assert_eq!(e1.payment_id, None);
    assert_eq!(e1.created_by_user_id, 3);
    assert_eq!(e1.lines.len(), 2);
    assert_eq!(e1.lines[0].account_id, 1);
    assert_eq!(e1.lines[0].entry_side, EntrySide::Debit);
    assert_eq!(e1.lines[1].account_id, 2);
    assert_eq!(e1.lines[1].entry_side, EntrySide::Credit);
    assert_eq!(e1.lines[0].description.as_deref(), Some("Invoice INV-202405-0003"));
    let sent = invoice(5, "INV-202405-0003", InvoiceStatus::Sent);
    let void = sent.void_plan(&sent).unwrap().unwrap();
    let e2 = Invoice::post_invoice_entry(&sent, &accounts, amt("50.875"), &void, 3).unwrap();
    assert_eq!(e2.lines[0].account_id, 1);
    assert_eq!(e2.lines[0].entry_side, EntrySide::Credit);
    assert_eq!(e2.lines[1].entry_side, EntrySide::Debit);
    assert!(e1.lines[0].amount.num_eq(&e2.lines[0].amount));
    assert_eq!(e2.lines[0].description.as_deref(), Some("Void invoice INV-202405-0003"));
}

#[test]
fn invoice_entries_need_accounts_and_a_positive_total() {
    let inv = invoice(5, "INV-1", InvoiceStatus::Draft);
    let send = inv.send_posting().unwrap();
    let only_ar = vec![account(1, "Accounts Receivable", AccountCategory::Asset, NormalBalance::Debit)];
    assert!(matches!(Invoice::post_invoice_entry(&inv, &only_ar, amt("10"), &send, 3), Err(InvoiceError::NotFound)));
    let accounts = vec![
        account(1, "Accounts Receivable", AccountCategory::Asset, NormalBalance::Debit),
        account(2, "Sales Revenue", AccountCategory::Revenue, NormalBalance::Credit),
    ];
    match Invoice::post_invoice_entry(&inv, &accounts, amt("0"), &send, 3) {
        Err(InvoiceError::Posting(PostingError::NonPositiveAmount { amount })) => assert!(amount.is_zero()),
        _ => panic!("expected a posting error"),
    }
}

#[test]
fn status_follows_payments() {
    let sent = invoice(1, "x", InvoiceStatus::Sent);
    let total = amt("100");
    assert_eq!(sent.apply_recomputed_status(&amt("100.00"), &total).unwrap(), Some(InvoiceStatus::Paid));
    assert_eq!(sent.apply_recomputed_status(&amt("120"), &total).unwrap(), Some(InvoiceStatus::Paid));
    assert_eq!(sent.apply_recomputed_status(&amt("0.01"), &total).unwrap(), Some(InvoiceStatus::PartiallyPaid));
    assert_eq!(sent.apply_recomputed_status(&amt("0"), &total).unwrap(), Some(InvoiceStatus::Sent));
    let partly = invoice(1, "x", InvoiceStatus::PartiallyPaid);
    assert_eq!(partly.apply_recomputed_status(&amt("0"), &total).unwrap(), Some(InvoiceStatus::Sent));
    assert_eq!(invoice(1, "x", InvoiceStatus::Paid).apply_recomputed_status(&amt("0"), &total).unwrap(), None);
    assert_eq!(invoice(1, "x", InvoiceStatus::Voided).apply_recomputed_status(&amt("0"), &total).unwrap(), None);
    match invoice(1, "x", InvoiceStatus::Draft).apply_recomputed_status(&amt("0"), &total) {
        Err(InvoiceError::InvalidStatusTransition { from, to }) => {
            assert_eq!(from, "Draft");
            assert_eq!(to, "recompute");
        }
        _ => panic!("expected a refused transition"),
    }
    let items = vec![item(1, 1, "40", GstRate::Zero)];
    assert_eq!(sent.recompute_status_for(&items, &amt("40")).unwrap().unwrap(), Some(InvoiceStatus::Paid));
}

#[test]
fn invoice_status_texts() {
    assert_eq!(InvoiceStatus::parse(" partially paid "), Some(InvoiceStatus::PartiallyPaid));
    assert_eq!(InvoiceStatus::parse("DRAFT"), Some(InvoiceStatus::Draft));
    assert_eq!(InvoiceStatus::parse("unknown"), None);
    assert_eq!(InvoiceStatus::PartiallyPaid.label(), "Partially Paid");
    assert_eq!(InvoiceStatus::labels(), vec!["Draft", "Sent", "Partially Paid", "Paid", "Voided"]);
    assert_eq!(GstRate::parse("standard"), Some(GstRate::Standard));
    assert!(GstRate::Standard.rate().num_eq(&amt("0.09")));
}

#[test]
fn invoice_stats_count_by_status() {
    let s = InvoiceStats::compute(&[
        InvoiceStatus::Draft,
        InvoiceStatus::Sent,
        InvoiceStatus::PartiallyPaid,
        InvoiceStatus::Paid,
        InvoiceStatus::Draft,
        InvoiceStatus::Voided,
    ]);
    assert_eq!(s.total, 6);
    assert_eq!(s.draft, 2);
    assert_eq!(s.unpaid, 2);
    let e = InvoiceStats::compute(&[]);
    assert_eq!((e.total, e.draft, e.unpaid), (0, 0, 0));
}

#[test]
fn listing_adds_party_names_and_totals() {
    let models = vec![
        InvoiceModel { id: 1, party_id: 7, created_by_user_id: 3, invoice_no: "INV-1".to_string(), issue_date: date(2024, 5, 1), due_date: date(2024, 5, 31), status: InvoiceStatus::Sent, created_at: noon(2024, 5, 1), updated_at: noon(2024, 5, 1) },
        InvoiceModel { id: 2, party_id: 8, created_by_user_id: 3, invoice_no: "INV-2".to_string(), issue_date: date(2024, 5, 2), due_date: date(2024, 5, 31), status: InvoiceStatus::Draft, created_at: noon(2024, 5, 2), updated_at: noon(2024, 5, 2) },
    ];
    let mut names = HashMap::new();
    names.insert(7, "Acme".to_string());
    let items = vec![item(1, 3, "12.50", GstRate::Standard), item(3, 1, "99", GstRate::Zero), item(1, 2, "5", GstRate::Zero)];
    let listed = Invoice::list(&models, &names, &items).unwrap();
    assert_eq!(listed.len(), 2);
    assert_eq!(listed[0].party_name.as_deref(), Some("Acme"));
    assert!(listed[0].grand_total.num_eq(&amt("50.875")));
    assert_eq!(listed[1].party_name, None);
    assert!(listed[1].grand_total.is_zero());
    assert_eq!(Invoice::creator_scope(3, Role::Staff), Some(3));
    assert_eq!(Invoice::creator_scope(3, Role::Accountant), None);
}

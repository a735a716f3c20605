use csc1106::amount::Amount;
use csc1106::calendar::{Date, DateTime};
use csc1106::entity::account::{AccountCategory, Model as AccountModel, NormalBalance};
use csc1106::entity::claim::{ClaimStatus, Model as ClaimModel};
use csc1106::entity::claim_category::Model as CategoryModel;
use csc1106::entity::journal_entry_line::EntrySide;
use csc1106::entity::payment::{Model as PaymentModel, PaymentDirection};
use csc1106::models::claim::{Claim, ClaimFilter, ClaimForm};
use csc1106::models::claim_category::{category_exists, list_options};
use csc1106::models::error::{ClaimError, PaymentCreateError, PostingError};
use csc1106::models::payment::Payment;
use std::collections::HashMap;

fn amt(s: &str) -> Amount {
    Amount::parse(s).expect("a decimal")
}

fn date(y: i32, m: u32, d: u32) -> Date {
    Date::from_ymd_opt(y, m, d).unwrap()
}

fn noon(y: i32, m: u32, d: u32) -> DateTime {
    DateTime::and_hms_opt(date(y, m, d), 12, 0, 0).unwrap()
}

fn claim(status: ClaimStatus, amount: &str) -> ClaimModel {
    ClaimModel {
        id: 12,
        submitted_by_user_id: 5,
        reviewed_by_user_id: None,
        category_id: 2,
        title: "Taxi".to_string(),
        description: "Client visit".to_string(),
        amount: amt(amount),
        purchase_date: date(2024, 6, 3),
        status,
        rejection_reason: None,
        created_at: noon(2024, 6, 3),
        updated_at: noon(2024, 6, 3),
    }
}

fn chart() -> Vec<AccountModel> {
    vec![
        AccountModel { id: 3, name: "Accounts Payable".to_string(), category: AccountCategory::Liability, normal_balance: NormalBalance::Credit, created_at: noon(2024, 1, 1) },
        AccountModel { id: 6, name: "Operating Expenses".to_string(), category: AccountCategory::Expense, normal_balance: NormalBalance::Debit, created_at: noon(2024, 1, 1) },
    ]
}

fn filter() -> ClaimFilter {
    ClaimFilter { q: None, status: None, category_id: None, submitted_by_user_id: None, from: None, to: None, page: None }
}

#[test]
fn claim_form_parsing() {
    let form = ClaimForm { title: "Taxi".to_string(), category_id: 2, description: "d".to_string(), amount: "23.40".to_string(), purchase_date: "2024-06-03".to_string() };
    let c = Claim::create(form, 5).unwrap();
    assert_eq!(c.status, ClaimStatus::Pending);
    assert_eq!(c.submitted_by_user_id, 5);
    assert!(c.reviewed_by_user_id.is_none());
    assert!(c.amount.num_eq(&amt("23.4")));
    assert_eq!((c.purchase_date.year(), c.purchase_date.month(), c.purchase_date.day()), (2024, 6, 3));
    let bad_amount = ClaimForm { title: "t".to_string(), category_id: 2, description: "d".to_string(), amount: "twelve".to_string(), purchase_date: "2024-06-03".to_string() };
    match Claim::create(bad_amount, 5) {
        Err(e @ ClaimError::Database(_)) => assert_eq!(e.message(), "Database error: Custom Error: Invalid amount: twelve"),
        _ => panic!("expected a database error"),
    }
    let bad_date = ClaimForm { title: "t".to_string(), category_id: 2, description: "d".to_string(), amount: "1".to_string(), purchase_date: "03/06/2024".to_string() };
    match Claim::create(bad_date, 5) {
        Err(e @ ClaimError::Database(_)) => assert_eq!(e.message(), "Database error: Custom Error: Invalid purchase date: 03/06/2024"),
        _ => panic!("expected a database error"),
    }
}

#[test]
fn approving_posts_expense_against_payables() {
    let (entry, updated) = Claim::approve(Some(claim(ClaimStatus::Pending, "23.40")), &chart(), 9).unwrap();
    assert_eq!(entry.claim_id, Some(12));
    assert_eq!(entry.created_by_user_id, 9);
    assert_eq!(entry.lines.len(), 2);
    assert_eq!((entry.lines[0].account_id, entry.lines[0].entry_side), (6, EntrySide::Debit));
    assert_eq!((entry.lines[1].account_id, entry.lines[1].entry_side), (3, EntrySide::Credit));
    assert_eq!(entry.lines[0].description.as_deref(), Some("Claim: Taxi"));
    assert_eq!(updated.status, ClaimStatus::Approved);
    assert_eq!(updated.reviewed_by_user_id, Some(9));
    assert_eq!(updated.title, "Taxi");
}

#[test]
fn approval_refusals() {
    assert!(matches!(Claim::approve(None, &chart(), 9), Err(ClaimError::NotFound)));
    assert!(matches!(Claim::approve(Some(claim(ClaimStatus::Rejected, "1")), &chart(), 9), Err(ClaimError::InvalidStatus)));
    assert!(matches!(Claim::approve(Some(claim(ClaimStatus::Pending, "1")), &chart()[..1], 9), Err(ClaimError::NotFound)));
    match Claim::approve(Some(claim(ClaimStatus::Pending, "-5")), &chart(), 9) {
        Err(ClaimError::Posting(PostingError::NonPositiveAmount { amount })) => assert!(amount.num_eq(&amt("-5"))),
        _ => panic!("expected a posting error"),
    }
    assert_eq!(ClaimError::InvalidStatus.message(), "Claim is not in a valid status for this action");
}

#[test]
fn rejecting_and_withdrawing() {
    let r = Claim::reject(Some(claim(ClaimStatus::Pending, "1")), 9, "No receipt".to_string()).unwrap();
    assert_eq!(r.status, ClaimStatus::Rejected);
    assert_eq!(r.rejection_reason.as_deref(), Some("No receipt"));
    assert!(matches!(Claim::reject(Some(claim(ClaimStatus::Approved, "1")), 9, "x".to_string()), Err(ClaimError::InvalidStatus)));
    assert!(Claim::withdraw(Some(claim(ClaimStatus::Pending, "1")), 5).is_ok());
    assert!(matches!(Claim::withdraw(Some(claim(ClaimStatus::Pending, "1")), 6), Err(ClaimError::NotOwner)));
    assert!(matches!(Claim::withdraw(Some(claim(ClaimStatus::Approved, "1")), 5), Err(ClaimError::InvalidStatus)));
    assert!(matches!(Claim::withdraw(None, 5), Err(ClaimError::NotFound)));
}

#[test]
fn claim_list_filters() {
    let mut f = filter();
    assert_eq!(f.status_filter(), None);
    assert_eq!(f.page_number(), 1);
    f.status = Some("approved".to_string());
    assert_eq!(f.status_filter(), Some(ClaimStatus::Approved));
    f.status = Some("bogus".to_string());
    assert_eq!(f.status_filter(), None);
    f.page = Some(0);
    assert_eq!(f.page_number(), 1);
    f.page = Some(4);
    assert_eq!(f.page_number(), 4);
    f.submitted_by_user_id = Some(8);
    assert_eq!(f.submitter(Some(5)), Some(5));
    assert_eq!(f.submitter(None), Some(8));
    f.from = Some("2024-01-31".to_string());
    f.to = Some("not a date".to_string());
    assert_eq!(f.from_date().map(|d| d.day()), Some(31));
    assert!(f.to_date().is_none());
}

#[test]
fn claim_rows_and_detail() {
    let mut users = HashMap::new();
    users.insert(5, "Bob".to_string());
    let cats: HashMap<i32, String> = HashMap::new();
    let rows = Claim::rows(&[claim(ClaimStatus::Pending, "2")], &users, &cats);
    assert_eq!(rows[0].submitter_name, "Bob");
    assert_eq!(rows[0].category_name, "");
    assert_eq!(rows[0].status, "Pending");
    let d = Claim::find_with_linked(Some(claim(ClaimStatus::Pending, "2")), Some("Bob".to_string()), Some("Eve".to_string()), None).unwrap();
    assert_eq!(d.submitter_name, "Bob");
    assert_eq!(d.reviewer_name, None);
    assert_eq!(d.category_name, "");
    assert!(matches!(Claim::find_with_linked(None, None, None, None), Err(ClaimError::NotFound)));
    let opts = list_options(&[CategoryModel { id: 2, name: "Travel".to_string() }]);
    assert_eq!((opts[0].id, opts[0].name.as_str()), (2, "Travel"));
    assert!(category_exists(&Some(CategoryModel { id: 2, name: "Travel".to_string() })));
    assert!(!category_exists(&None));
}

fn payment(amount: &str) -> Payment {
    Payment {
        id: 31,
        invoice_id: Some(4),
        party_id: Some(7),
        created_by_user_id: 2,
        payment_direction: PaymentDirection::In,
        amount: amt(amount),
        payment_date: date(2024, 6, 10),
        remarks: None,
        created_at: noon(2024, 6, 10),
    }
}

#[test]
fn payment_moves_money_between_accounts() {
    let e = Payment::create(&payment("40"), 1, 2).unwrap();
    assert_eq!(e.payment_id, Some(31));
    assert_eq!(e.created_by_user_id, 2);
    assert_eq!((e.lines[0].account_id, e.lines[0].entry_side), (2, EntrySide::Debit));
    assert_eq!((e.lines[1].account_id, e.lines[1].entry_side), (1, EntrySide::Credit));
    assert!(e.lines[0].description.is_none());
    assert!(matches!(Payment::create(&payment("40"), 2, 2), Err(PaymentCreateError::SameAccount)));
    assert!(matches!(Payment::check_accounts(3, 3), Err(PaymentCreateError::SameAccount)));
    assert!(Payment::check_accounts(3, 4).is_ok());
    match Payment::create(&payment("0"), 1, 2) {
        Err(PaymentCreateError::Posting(PostingError::NonPositiveAmount { .. })) => {}
        _ => panic!("expected a posting error"),
    }
    assert_eq!(PaymentCreateError::SameAccount.message(), "From and to accounts must differ");
}

#[test]
fn payment_directions_and_totals() {
    assert_eq!(PaymentDirection::parse(" IN "), Some(PaymentDirection::In));
    assert_eq!(PaymentDirection::parse("out"), Some(PaymentDirection::Out));
    assert_eq!(PaymentDirection::parse("sideways"), None);
    let total = Payment::total_for_party(&[payment("10.5"), payment("4.5")]).unwrap();
    assert!(total.num_eq(&amt("15")));
    assert!(Payment::total_for_party(&[]).unwrap().is_zero());
    let m = PaymentModel { id: 31, invoice_id: None, party_id: None, created_by_user_id: 2, payment_direction: PaymentDirection::Out, amount: amt("3"), payment_date: date(2024, 6, 1), remarks: None, created_at: noon(2024, 6, 1) };
    let d = Payment::find_with_linked(Some(m), Some("Acme".to_string()), Some("Al".to_string())).unwrap();
    assert_eq!(d.party_name, None);
    assert_eq!(d.created_by_name.as_deref(), Some("Al"));
    assert!(Payment::find_with_linked(None, None, None).is_none());
}

#[test]
fn unparsable_claim_amount_is_reported_with_its_text() {
    let form = ClaimForm { title: "Taxi".to_string(), category_id: 1, description: "ride".to_string(), amount: "abc".to_string(), purchase_date: "2024-01-15".to_string() };
    match Claim::create(form, 1) {
        Err(e @ ClaimError::Database(_)) => assert_eq!(e.message(), "Database error: Custom Error: Invalid amount: abc"),
        _ => panic!("expected a database error"),
    }
}

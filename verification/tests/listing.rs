use csc1106::amount::Amount;
use csc1106::calendar::{Date, DateTime};
use csc1106::entity::claim::{ClaimStatus, Model as ClaimModel};
use csc1106::entity::invoice::{InvoiceStatus, Model as InvoiceModel};
use csc1106::entity::journal_entry_line::EntrySide;
use csc1106::entity::party::{Model as PartyModel, PartyStatus, PartyType};
use csc1106::entity::user::Role;
use csc1106::models::claim::{Claim, ClaimFilter};
use csc1106::models::error::InvoiceError;
use csc1106::models::invoice::listing::InvoiceFilter;
use csc1106::models::invoice::types::Invoice;
use csc1106::models::paging::{clamp_pagination, contains_ignore_ascii_case, page_of_matches, search_term};
use csc1106::models::party::Party;
use csc1106::models::posting::{JournalEntryLineInput, PostingService};

fn amt(s: &str) -> Amount {
    Amount::parse(s).expect("a decimal")
}

fn date(y: i32, m: u32, d: u32) -> Date {
    Date::from_ymd_opt(y, m, d).unwrap()
}

fn noon(y: i32, m: u32, d: u32) -> DateTime {
    DateTime::and_hms_opt(date(y, m, d), 12, 0, 0).unwrap()
}

fn claim(id: i32, submitter: i32, title: &str, description: &str, status: ClaimStatus, day: u32) -> ClaimModel {
    ClaimModel {
        id,
        submitted_by_user_id: submitter,
        reviewed_by_user_id: None,
        category_id: 2,
        title: title.to_string(),
        description: description.to_string(),
        amount: amt("10"),
        purchase_date: date(2024, 6, day),
        status,
        rejection_reason: None,
        created_at: noon(2024, 6, day),
        updated_at: noon(2024, 6, day),
    }
}

fn no_filter() -> ClaimFilter {
    ClaimFilter { q: None, status: None, category_id: None, submitted_by_user_id: None, from: None, to: None, page: None }
}

fn invoice_model(id: i32, no: &str, creator: i32, status: InvoiceStatus, issue_day: u32) -> InvoiceModel {
    InvoiceModel {
        id,
        party_id: 7,
        created_by_user_id: creator,
        invoice_no: no.to_string(),
        issue_date: date(2024, 5, issue_day),
        due_date: date(2024, 6, issue_day),
        status,
        created_at: noon(2024, 5, issue_day),
        updated_at: noon(2024, 5, issue_day),
    }
}

fn no_invoice_filter() -> InvoiceFilter {
    InvoiceFilter { q: None, status: None, party_id: None, from_issue: None, to_issue: None, from_due: None, to_due: None }
}

fn party(id: i32, name: &str, company: Option<&str>, party_type: PartyType) -> PartyModel {
    PartyModel {
        id,
        party_type,
        name: name.to_string(),
        company: company.map(|c| c.to_string()),
        email: "a@b.c".to_string(),
        phone: "1".to_string(),
        address: "x".to_string(),
        status: PartyStatus::Active,
        created_at: noon(2024, 1, 1),
        updated_at: noon(2024, 1, 1),
    }
}

#[test]
fn search_is_case_insensitive_containment() {
    assert!(contains_ignore_ascii_case("Taxi to the airport", "AIRport"));
    assert!(contains_ignore_ascii_case("abc", ""));
    assert!(!contains_ignore_ascii_case("abc", "abcd"));
    assert!(!contains_ignore_ascii_case("Hotel", "motel"));
    assert_eq!(search_term("  taxi "), Some("taxi".to_string()));
    assert_eq!(search_term("   "), None);
}

#[test]
fn pages_are_clamped() {
    assert_eq!(clamp_pagination(0, 0), (1, 1));
    assert_eq!(clamp_pagination(5, 3), (3, 3));
    assert_eq!(clamp_pagination(2, 3), (3, 2));
    assert_eq!(clamp_pagination(1, 5_000_000_000), (u32::MAX, 1));
    let keep = vec![true, false, true, true, false, true, true];
    assert_eq!(page_of_matches(&keep, 1, 2), (vec![0, 2], 3, 1));
    assert_eq!(page_of_matches(&keep, 3, 2), (vec![6], 3, 3));
    assert_eq!(page_of_matches(&keep, 9, 2), (vec![6], 3, 3));
    assert_eq!(page_of_matches(&vec![false, false], 2, 10), (vec![], 1, 1));
}

#[test]
fn claim_list_applies_search_filters_and_paging() {
    let models = vec![
        claim(1, 5, "Taxi", "to the airport", ClaimStatus::Pending, 9),
        claim(2, 5, "Lunch", "client TAXI voucher", ClaimStatus::Approved, 8),
        claim(3, 6, "Hotel", "two nights", ClaimStatus::Pending, 7),
        claim(4, 5, "taxi home", "late", ClaimStatus::Rejected, 6),
    ];
    let mut f = no_filter();
    f.q = Some(" taxi ".to_string());
    assert_eq!(Claim::list_page(&models, &f, None, 2), (vec![0, 1], 2, 1));
    f.page = Some(2);
    assert_eq!(Claim::list_page(&models, &f, None, 2), (vec![3], 2, 2));
    f.page = Some(0);
    assert_eq!(Claim::list_page(&models, &f, None, 2), (vec![0, 1], 2, 1));
    f.status = Some("pending".to_string());
    assert_eq!(Claim::list_page(&models, &f, None, 2), (vec![0], 1, 1));
    let mut g = no_filter();
    assert_eq!(Claim::list_page(&models, &g, Some(6), 10), (vec![2], 1, 1));
    g.from = Some("2024-06-07".to_string());
    g.to = Some("2024-06-08".to_string());
    assert_eq!(Claim::list_page(&models, &g, None, 10), (vec![1, 2], 1, 1));
    assert!(g.matches(&models[1], None));
    assert!(!g.matches(&models[0], None));
    assert!(f.matches_search("A TAXI ride", ""));
    assert!(!f.matches_search("bus", "train"));
}

#[test]
fn invoice_list_applies_filters_scope_and_paging() {
    let models = vec![
        invoice_model(3, "INV-202405-0003", 3, InvoiceStatus::Sent, 20),
        invoice_model(2, "INV-202405-0002", 4, InvoiceStatus::Draft, 10),
        invoice_model(1, "INV-202404-0001", 3, InvoiceStatus::Paid, 1),
    ];
    let all = no_invoice_filter();
    assert_eq!(Invoice::list_page(&models, &all, 9, Role::Admin, 1, 10), (vec![0, 1, 2], 1, 1));
    assert_eq!(Invoice::list_page(&models, &all, 3, Role::Staff, 1, 10), (vec![0, 2], 1, 1));
    let mut f = no_invoice_filter();
    f.q = Some("202405".to_string());
    assert_eq!(Invoice::list_page(&models, &f, 9, Role::Admin, 2, 1), (vec![1], 2, 2));
    f.status = Some(InvoiceStatus::Draft);
    assert_eq!(Invoice::list_page(&models, &f, 9, Role::Admin, 1, 10), (vec![1], 1, 1));
    let mut d = no_invoice_filter();
    d.from_issue = Some(date(2024, 5, 5));
    d.to_due = Some(date(2024, 6, 15));
    assert_eq!(Invoice::list_page(&models, &d, 9, Role::Admin, 1, 10), (vec![1], 1, 1));
    assert!(!d.matches(&models[0], 9, Role::Admin));
}

#[test]
fn party_search_looks_at_name_and_company() {
    let models = vec![
        party(1, "Alice Tan", None, PartyType::Customer),
        party(2, "Bob", Some("Tanaka Trading"), PartyType::Vendor),
        party(3, "Carol", None, PartyType::Customer),
    ];
    assert_eq!(Party::search_page(&models, Some("tan"), None, None, 1, 10), (vec![0, 1], 1, 1));
    assert_eq!(Party::search_page(&models, Some("tan"), Some(PartyType::Vendor), None, 1, 10), (vec![1], 1, 1));
    assert_eq!(Party::search_page(&models, Some(" "), None, Some(PartyStatus::Active), 2, 2), (vec![2], 2, 2));
    assert!(!Party::found_by(&models[2], Some("tan"), None, None));
}

#[test]
fn both_validations_answer_alike() {
    let cases = vec![
        vec![],
        vec![JournalEntryLineInput { account_id: 1, entry_side: EntrySide::Debit, amount: amt("0"), description: None }],
        vec![
            JournalEntryLineInput { account_id: 1, entry_side: EntrySide::Debit, amount: amt("10"), description: None },
            JournalEntryLineInput { account_id: 2, entry_side: EntrySide::Credit, amount: amt("9.5"), description: None },
        ],
        vec![
            JournalEntryLineInput { account_id: 1, entry_side: EntrySide::Debit, amount: amt("10"), description: None },
            JournalEntryLineInput { account_id: 2, entry_side: EntrySide::Credit, amount: amt("10.00"), description: None },
        ],
    ];
    for lines in &cases {
        let a = format!("{:?}", JournalEntryLineInput::validate_all(lines));
        let b = format!("{:?}", PostingService::validate_lines(lines));
        assert_eq!(a, b);
    }
}

#[test]
fn a_draft_cannot_have_its_status_recomputed() {
    let inv = Invoice {
        id: 1,
        party_id: 7,
        created_by_user_id: 3,
        invoice_no: "INV-1".to_string(),
        issue_date: date(2024, 5, 1),
        due_date: date(2024, 5, 31),
        status: InvoiceStatus::Draft,
        created_at: noon(2024, 5, 1),
        updated_at: noon(2024, 5, 1),
        party_name: None,
        created_by_name: None,
        grand_total: Amount::zero(),
    };
    match inv.recompute_status_for(&[], &amt("5")) {
        Some(Err(InvoiceError::InvalidStatusTransition { from, to })) => {
            assert_eq!(from, "Draft");
            assert_eq!(to, "recompute");
        }
        _ => panic!("expected an invalid transition"),
    }
}

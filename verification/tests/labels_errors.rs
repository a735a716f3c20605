use csc1106::amount::Amount;
use csc1106::entity::account::{AccountCategory, NormalBalance};
use csc1106::entity::claim::ClaimStatus;
use csc1106::entity::invoice::InvoiceStatus;
use csc1106::entity::invoice_line_item::GstRate;
use csc1106::entity::journal_entry_line::EntrySide;
use csc1106::entity::party::{PartyStatus, PartyType};
use csc1106::entity::payment::PaymentDirection;
use csc1106::entity::user::Role;
use csc1106::models::error::{AppError, AuthError, ClaimError, InvoiceError, PaymentCreateError, PostingError};

#[test]
fn every_label_parses_back() {
    for s in [InvoiceStatus::Draft, InvoiceStatus::Sent, InvoiceStatus::PartiallyPaid, InvoiceStatus::Paid, InvoiceStatus::Voided] {
        assert_eq!(InvoiceStatus::parse(&s.label()), Some(s));
    }
    for r in [Role::Staff, Role::Accountant, Role::Admin] {
        assert_eq!(Role::parse(&r.label()), Some(r));
    }
    for g in [GstRate::Zero, GstRate::Standard] {
        assert_eq!(GstRate::parse(&g.label()), Some(g));
    }
    for t in [PartyType::Customer, PartyType::Vendor] {
        assert_eq!(PartyType::parse(&t.label()), Some(t));
    }
    for s in [PartyStatus::Active, PartyStatus::Inactive] {
        assert_eq!(PartyStatus::parse(&s.label()), Some(s));
    }
    for d in [PaymentDirection::In, PaymentDirection::Out] {
        assert_eq!(PaymentDirection::parse(&d.label()), Some(d));
    }
}

#[test]
fn display_labels() {
    assert_eq!(GstRate::Zero.label(), "None");
    assert_eq!(GstRate::labels(), vec!["None", "Standard"]);
    assert_eq!(ClaimStatus::Approved.label(), "Approved");
    assert_eq!(EntrySide::Credit.label(), "Credit");
    assert_eq!(AccountCategory::Liability.label(), "Liability");
    assert_eq!(NormalBalance::Debit.label(), "Debit");
    assert_eq!(PaymentDirection::Out.label(), "Out");
    assert_eq!(PartyType::labels(), vec!["Customer", "Vendor"]);
    assert_eq!(PartyStatus::labels(), vec!["Active", "Inactive"]);
}

#[test]
fn error_messages() {
    assert_eq!(AppError::Duplicate.message(), "Duplicate record");
    assert_eq!(AuthError::NotFound.message(), "User not found");
    assert_eq!(AuthError::Duplicate.message(), "User already exists");
    assert_eq!(InvoiceError::NotEditable.message(), "Invoice is not editable in its current status");
    assert_eq!(InvoiceError::NoLineItems.message(), "Invoice must have at least one line item");
    assert_eq!(InvoiceError::VoidWithPayments.message(), "Cannot void invoice with existing payments");
    assert_eq!(InvoiceError::AlreadyVoided.message(), "Invoice is already voided");
    assert_eq!(InvoiceError::NotFound.message(), "Invoice not found");
    assert_eq!(InvoiceError::Duplicate.message(), "Duplicate invoice");
    assert_eq!(InvoiceError::ValidationError("Bad".to_string()).message(), "Bad");
    assert_eq!(
        InvoiceError::InvalidStatusTransition { from: "Paid".to_string(), to: "Sent".to_string() }.message(),
        "Cannot transition from Paid to Sent"
    );
    let posting = PostingError::NonPositiveAmount { amount: Amount::new(0, 2).unwrap() };
    assert_eq!(InvoiceError::Posting(posting).message(), "Posting failed: Amount must be positive, got: 0.00");
    assert_eq!(ClaimError::NotFound.message(), "Claim not found");
    assert_eq!(ClaimError::InvalidInput("x".to_string()).message(), "Invalid input: x");
    assert_eq!(ClaimError::Duplicate.message(), "Duplicate claim");
    assert_eq!(ClaimError::NotOwner.message(), "User is not the owner of this claim");
    assert_eq!(ClaimError::Posting(PostingError::NoLines).message(), "Posting failed: Journal entry must have at least one line");
    assert_eq!(PaymentCreateError::Duplicate.message(), "Duplicate record");
    assert_eq!(PaymentCreateError::Invoice(InvoiceError::NotFound).message(), "Invoice error: Invoice not found");
    assert_eq!(PaymentCreateError::Posting(PostingError::NoLines).message(), "Posting failed: Journal entry must have at least one line");
}

#[test]
fn error_conversions() {
    assert!(matches!(InvoiceError::from(AppError::NotFound), InvoiceError::NotFound));
    assert!(matches!(InvoiceError::from(AppError::InvalidArgument("m".to_string())), InvoiceError::ValidationError(m) if m == "m"));
    assert!(matches!(ClaimError::from(AppError::Duplicate), ClaimError::Duplicate));
    assert!(matches!(PaymentCreateError::from(InvoiceError::NotFound), PaymentCreateError::Invoice(InvoiceError::NotFound)));
    assert!(matches!(PaymentCreateError::from(InvoiceError::Posting(PostingError::NoLines)), PaymentCreateError::Posting(PostingError::NoLines)));
    match AppError::from(ClaimError::NotOwner) {
        AppError::InvalidArgument(m) => assert_eq!(m, "User is not the owner of this claim"),
        _ => panic!("expected an invalid argument"),
    }
    assert!(matches!(AppError::from(ClaimError::InvalidInput("z".to_string())), AppError::InvalidArgument(m) if m == "z"));
}

//! Error types of the application and the conversions between them.

use vstd::prelude::*;

use crate::amount::{decimal_text, Amount};
use crate::text::{concat, starts_with};

verus! {

#[verifier::external_type_specification]
#[verifier::external_body]
pub struct ExDbErr(sea_orm::DbErr);

#[verifier::external_type_specification]
#[verifier::external_body]
pub struct ExHashError(argon2::password_hash::Error);

/// Whether sea_orm classifies a database error as a unique-constraint
/// violation (`DbErr::sql_err()` giving `SqlErr::UniqueConstraintViolation`).
/// The answer comes from the driver's error, which is opaque here, so nothing
/// is stated about it.
#[verifier::external_body]
pub fn is_unique_violation(e: &sea_orm::DbErr) -> bool {
    match e.sql_err() {
        Some(sea_orm::SqlErr::UniqueConstraintViolation(_)) => true,
        _ => false,
    }
}

/// The database error `sea_orm::DbErr::Custom(msg)` for a message.
pub uninterp spec fn custom_error_value(msg: Seq<char>) -> sea_orm::DbErr;

/// `sea_orm::DbErr::Custom(msg)`: a database error carrying a message of
/// the application's own, named `custom_error_value`.
#[verifier::external_body]
pub(crate) fn custom_db_error(msg: String) -> (r: sea_orm::DbErr)
    ensures
        r == custom_error_value(msg@),
{
    sea_orm::DbErr::Custom(msg)
}

/// `Display` of a sea_orm `DbErr`. For a custom error the crate writes
/// `Custom Error: ` and the message; for the others the text comes from
/// the driver and nothing is stated about it.
#[verifier::external_body]
pub(crate) fn db_error_text(e: &sea_orm::DbErr) -> (r: String)
    ensures
        forall|m: Seq<char>| *e == #[trigger] custom_error_value(m) ==> r@ == "Custom Error: "@ + m,
{
    e.to_string()
}

/// `Display` of a password-hash error; nothing is stated about the text.
#[verifier::external_body]
pub(crate) fn hash_error_text(e: &argon2::password_hash::Error) -> String {
    e.to_string()
}

/// Application-level error types.
#[derive(Debug)]
pub enum AppError {
    Database(sea_orm::DbErr),
    NotFound,
    Duplicate,
    InvalidArgument(String),
}

impl AppError {
    /// The message, where it does not include a database error's text.
    pub open spec fn spec_message(&self) -> Option<Seq<char>> {
        match self {
            AppError::Database(_) => None,
            AppError::NotFound => Some("Not found"@),
            AppError::Duplicate => Some("Duplicate record"@),
            AppError::InvalidArgument(msg) => Some("Invalid argument: "@ + msg@),
        }
    }

    /// The message (`Display`).
    pub fn message(&self) -> (r: String)
        ensures
            self.spec_message() matches Some(t) ==> r@ == t,
            self is Database ==> starts_with(r@, "Database error: "@),
    {
        match self {
            AppError::Database(e) => concat("Database error: ", db_error_text(e).as_str()),
            AppError::NotFound => String::from_str("Not found"),
            AppError::Duplicate => String::from_str("Duplicate record"),
            AppError::InvalidArgument(msg) => concat("Invalid argument: ", msg.as_str()),
        }
    }
}

/// Authentication error types.
#[derive(Debug)]
pub enum AuthError {
    InvalidCredentials,
    NotFound,
    HashError(argon2::password_hash::Error),
    Duplicate,
    Database(sea_orm::DbErr),
}

impl AuthError {
    /// The message, where it does not include an outside error's text.
    pub open spec fn spec_message(&self) -> Option<Seq<char>> {
        match self {
            AuthError::InvalidCredentials => Some("Invalid credentials"@),
            AuthError::NotFound => Some("User not found"@),
            AuthError::HashError(_) => None,
            AuthError::Duplicate => Some("User already exists"@),
            AuthError::Database(_) => None,
        }
    }

    /// The message (`Display`).
    pub fn message(&self) -> (r: String)
        ensures
            self.spec_message() matches Some(t) ==> r@ == t,
            self is HashError ==> starts_with(r@, "Password hash error: "@),
            self is Database ==> starts_with(r@, "Database error: "@),
    {
        match self {
            AuthError::InvalidCredentials => String::from_str("Invalid credentials"),
            AuthError::NotFound => String::from_str("User not found"),
            AuthError::HashError(e) => concat("Password hash error: ", hash_error_text(e).as_str()),
            AuthError::Duplicate => String::from_str("User already exists"),
            AuthError::Database(e) => concat("Database error: ", db_error_text(e).as_str()),
        }
    }
}

/// Errors of journal posting.
#[derive(Debug)]
pub enum PostingError {
    UnbalancedEntry { total_debits: Amount, total_credits: Amount },
    NoLines,
    NonPositiveAmount { amount: Amount },
    Database(sea_orm::DbErr),
}

impl PostingError {
    /// The message, where it does not include a database error's text.
    pub open spec fn spec_message(&self) -> Option<Seq<char>> {
        match self {
            PostingError::UnbalancedEntry { total_debits, total_credits } => Some(
                "Unbalanced entry: total debits ("@ + decimal_text(total_debits@)
                    + ") != total credits ("@ + decimal_text(total_credits@) + ")"@,
            ),
            PostingError::NoLines => Some("Journal entry must have at least one line"@),
            PostingError::NonPositiveAmount { amount } => Some(
                "Amount must be positive, got: "@ + decimal_text(amount@),
            ),
            PostingError::Database(_) => None,
        }
    }

    /// The message (`Display`).
    pub fn message(&self) -> (r: String)
        ensures
            self.spec_message() matches Some(t) ==> r@ == t,
            self is Database ==> starts_with(r@, "Database error: "@),
    {
        match self {
            PostingError::UnbalancedEntry { total_debits, total_credits } => {
                let a = concat("Unbalanced entry: total debits (", total_debits.to_text().as_str());
                let b = concat(a.as_str(), ") != total credits (");
                let c = concat(b.as_str(), total_credits.to_text().as_str());
                concat(c.as_str(), ")")
            },
            PostingError::NoLines => String::from_str("Journal entry must have at least one line"),
            PostingError::NonPositiveAmount { amount } => concat(
                "Amount must be positive, got: ",
                amount.to_text().as_str(),
            ),
            PostingError::Database(e) => concat("Database error: ", db_error_text(e).as_str()),
        }
    }
}

/// Errors of payment creation.
#[derive(Debug)]
pub enum PaymentCreateError {
    SameAccount,
    Duplicate,
    Database(sea_orm::DbErr),
    Posting(PostingError),
    Invoice(InvoiceError),
}

impl PaymentCreateError {
    /// The message, where it does not include a database error's text.
    pub open spec fn spec_message(&self) -> Option<Seq<char>> {
        match self {
            PaymentCreateError::SameAccount => Some("From and to accounts must differ"@),
            PaymentCreateError::Duplicate => Some("Duplicate record"@),
            PaymentCreateError::Database(_) => None,
            PaymentCreateError::Posting(e) => match e.spec_message() {
                Some(t) => Some("Posting failed: "@ + t),
                None => None,
            },
            PaymentCreateError::Invoice(e) => match e.spec_message() {
                Some(t) => Some("Invoice error: "@ + t),
                None => None,
            },
        }
    }

    /// The message (`Display`).
    pub fn message(&self) -> (r: String)
        ensures
            self.spec_message() matches Some(t) ==> r@ == t,
            self is Database ==> starts_with(r@, "Database error: "@),
            self is Posting ==> starts_with(r@, "Posting failed: "@),
            self is Invoice ==> starts_with(r@, "Invoice error: "@),
    {
        match self {
            PaymentCreateError::SameAccount => String::from_str("From and to accounts must differ"),
            PaymentCreateError::Duplicate => String::from_str("Duplicate record"),
            PaymentCreateError::Database(e) => concat("Database error: ", db_error_text(e).as_str()),
            PaymentCreateError::Posting(e) => concat("Posting failed: ", e.message().as_str()),
            PaymentCreateError::Invoice(e) => concat("Invoice error: ", e.message().as_str()),
        }
    }
}

/// Errors of the invoice workflow.
#[derive(Debug)]
pub enum InvoiceError {
    NotEditable,
    InvalidStatusTransition { from: String, to: String },
    NoLineItems,
    VoidWithPayments,
    AlreadyVoided,
    NotFound,
    Duplicate,
    ValidationError(String),
    Posting(PostingError),
    Database(sea_orm::DbErr),
}

impl InvoiceError {
    /// The message, where it does not include a database error's text.
    pub open spec fn spec_message(&self) -> Option<Seq<char>> {
        match self {
            InvoiceError::NotEditable => Some("Invoice is not editable in its current status"@),
            InvoiceError::InvalidStatusTransition { from, to } => Some(
                "Cannot transition from "@ + from@ + " to "@ + to@,
            ),
            InvoiceError::NoLineItems => Some("Invoice must have at least one line item"@),
            InvoiceError::VoidWithPayments => Some("Cannot void invoice with existing payments"@),
            InvoiceError::AlreadyVoided => Some("Invoice is already voided"@),
            InvoiceError::NotFound => Some("Invoice not found"@),
            InvoiceError::Duplicate => Some("Duplicate invoice"@),
            InvoiceError::ValidationError(msg) => Some(msg@),
            InvoiceError::Posting(e) => match e.spec_message() {
                Some(t) => Some("Posting failed: "@ + t),
                None => None,
            },
            InvoiceError::Database(_) => None,
        }
    }

    /// The message (`Display`).
    pub fn message(&self) -> (r: String)
        ensures
            self.spec_message() matches Some(t) ==> r@ == t,
            self is Database ==> starts_with(r@, "Database error: "@),
            self is Posting ==> starts_with(r@, "Posting failed: "@),
    {
        match self {
            InvoiceError::NotEditable => String::from_str("Invoice is not editable in its current status"),
            InvoiceError::InvalidStatusTransition { from, to } => {
                let a = concat("Cannot transition from ", from.as_str());
                let b = concat(a.as_str(), " to ");
                concat(b.as_str(), to.as_str())
            },
            InvoiceError::NoLineItems => String::from_str("Invoice must have at least one line item"),
            InvoiceError::VoidWithPayments => String::from_str("Cannot void invoice with existing payments"),
            InvoiceError::AlreadyVoided => String::from_str("Invoice is already voided"),
            InvoiceError::NotFound => String::from_str("Invoice not found"),
            InvoiceError::Duplicate => String::from_str("Duplicate invoice"),
            InvoiceError::ValidationError(msg) => String::from_str(msg.as_str()),
            InvoiceError::Posting(e) => concat("Posting failed: ", e.message().as_str()),
            InvoiceError::Database(e) => concat("Database error: ", db_error_text(e).as_str()),
        }
    }
}

/// Errors of the claim workflow.
#[derive(Debug)]
pub enum ClaimError {
    NotFound,
    InvalidInput(String),
    Duplicate,
    Database(sea_orm::DbErr),
    Posting(PostingError),
    InvalidStatus,
    NotOwner,
}

impl ClaimError {
    /// The message, where it does not include a database error's text.
    pub open spec fn spec_message(&self) -> Option<Seq<char>> {
        match self {
            ClaimError::NotFound => Some("Claim not found"@),
            ClaimError::InvalidInput(msg) => Some("Invalid input: "@ + msg@),
            ClaimError::Duplicate => Some("Duplicate claim"@),
            ClaimError::Database(_) => None,
            ClaimError::Posting(e) => match e.spec_message() {
                Some(t) => Some("Posting failed: "@ + t),
                None => None,
            },
            ClaimError::InvalidStatus => Some("Claim is not in a valid status for this action"@),
            ClaimError::NotOwner => Some("User is not the owner of this claim"@),
        }
    }

    /// The message (`Display`).
    pub fn message(&self) -> (r: String)
        ensures
            self.spec_message() matches Some(t) ==> r@ == t,
            self is Database ==> starts_with(r@, "Database error: "@),
            forall|m: Seq<char>|
                *self == ClaimError::Database(#[trigger] custom_error_value(m)) ==> r@ == "Database error: "@ + (
                "Custom Error: "@ + m),
            self is Posting ==> starts_with(r@, "Posting failed: "@),
    {
        match self {
            ClaimError::NotFound => String::from_str("Claim not found"),
            ClaimError::InvalidInput(msg) => concat("Invalid input: ", msg.as_str()),
            ClaimError::Duplicate => String::from_str("Duplicate claim"),
            ClaimError::Database(e) => {
                let t = db_error_text(e);
                let r = concat("Database error: ", t.as_str());
                assert forall|m: Seq<char>|
                    *self == ClaimError::Database(#[trigger] custom_error_value(m)) implies r@ == "Database error: "@ + (
                    "Custom Error: "@ + m) by {
                    assert(*e == custom_error_value(m));
                }
                r
            },
            ClaimError::Posting(e) => concat("Posting failed: ", e.message().as_str()),
            ClaimError::InvalidStatus => String::from_str("Claim is not in a valid status for this action"),
            ClaimError::NotOwner => String::from_str("User is not the owner of this claim"),
        }
    }
}

} // verus!

verus! {

// Conversions from a database error: a unique-constraint violation becomes
// `Duplicate` where the target type has that variant. Which of the two
// comes out depends on the driver's error, which is opaque here, so these
// impls do not claim `obeys_from_spec`; their own `ensures` say what holds.
impl From<sea_orm::DbErr> for AppError {
    fn from(e: sea_orm::DbErr) -> (r: AppError)
        ensures
            r is Duplicate || r == AppError::Database(e),
    {
        if is_unique_violation(&e) {
            AppError::Duplicate
        } else {
            AppError::Database(e)
        }
    }
}

impl vstd::std_specs::convert::FromSpecImpl<sea_orm::DbErr> for AppError {
    open spec fn obeys_from_spec() -> bool {
        false
    }

    open spec fn from_spec(e: sea_orm::DbErr) -> AppError {
        AppError::Database(e)
    }
}

impl From<sea_orm::DbErr> for AuthError {
    fn from(e: sea_orm::DbErr) -> (r: AuthError)
        ensures
            r is Duplicate || r == AuthError::Database(e),
    {
        if is_unique_violation(&e) {
            AuthError::Duplicate
        } else {
            AuthError::Database(e)
        }
    }
}

impl vstd::std_specs::convert::FromSpecImpl<sea_orm::DbErr> for AuthError {
    open spec fn obeys_from_spec() -> bool {
        false
    }

    open spec fn from_spec(e: sea_orm::DbErr) -> AuthError {
        AuthError::Database(e)
    }
}

impl From<sea_orm::DbErr> for PaymentCreateError {
    fn from(e: sea_orm::DbErr) -> (r: PaymentCreateError)
        ensures
            r is Duplicate || r == PaymentCreateError::Database(e),
    {
        if is_unique_violation(&e) {
            PaymentCreateError::Duplicate
        } else {
            PaymentCreateError::Database(e)
        }
    }
}

impl vstd::std_specs::convert::FromSpecImpl<sea_orm::DbErr> for PaymentCreateError {
    open spec fn obeys_from_spec() -> bool {
        false
    }

    open spec fn from_spec(e: sea_orm::DbErr) -> PaymentCreateError {
        PaymentCreateError::Database(e)
    }
}

impl From<sea_orm::DbErr> for InvoiceError {
    fn from(e: sea_orm::DbErr) -> (r: InvoiceError)
        ensures
            r is Duplicate || r == InvoiceError::Database(e),
    {
        if is_unique_violation(&e) {
            InvoiceError::Duplicate
        } else {
            InvoiceError::Database(e)
        }
    }
}

impl vstd::std_specs::convert::FromSpecImpl<sea_orm::DbErr> for InvoiceError {
    open spec fn obeys_from_spec() -> bool {
        false
    }

    open spec fn from_spec(e: sea_orm::DbErr) -> InvoiceError {
        InvoiceError::Database(e)
    }
}

impl From<sea_orm::DbErr> for PostingError {
    fn from(e: sea_orm::DbErr) -> (r: PostingError) {
        PostingError::Database(e)
    }
}

impl vstd::std_specs::convert::FromSpecImpl<sea_orm::DbErr> for PostingError {
    open spec fn obeys_from_spec() -> bool {
        true
    }

    open spec fn from_spec(e: sea_orm::DbErr) -> PostingError {
        PostingError::Database(e)
    }
}

impl From<sea_orm::DbErr> for ClaimError {
    fn from(e: sea_orm::DbErr) -> (r: ClaimError) {
        ClaimError::Database(e)
    }
}

impl vstd::std_specs::convert::FromSpecImpl<sea_orm::DbErr> for ClaimError {
    open spec fn obeys_from_spec() -> bool {
        true
    }

    open spec fn from_spec(e: sea_orm::DbErr) -> ClaimError {
        ClaimError::Database(e)
    }
}

impl From<argon2::password_hash::Error> for AuthError {
    fn from(e: argon2::password_hash::Error) -> (r: AuthError) {
        AuthError::HashError(e)
    }
}

impl vstd::std_specs::convert::FromSpecImpl<argon2::password_hash::Error> for AuthError {
    open spec fn obeys_from_spec() -> bool {
        true
    }

    open spec fn from_spec(e: argon2::password_hash::Error) -> AuthError {
        AuthError::HashError(e)
    }
}

impl From<PostingError> for PaymentCreateError {
    fn from(e: PostingError) -> (r: PaymentCreateError) {
        PaymentCreateError::Posting(e)
    }
}

impl vstd::std_specs::convert::FromSpecImpl<PostingError> for PaymentCreateError {
    open spec fn obeys_from_spec() -> bool {
        true
    }

    open spec fn from_spec(e: PostingError) -> PaymentCreateError {
        PaymentCreateError::Posting(e)
    }
}

impl From<PostingError> for InvoiceError {
    fn from(e: PostingError) -> (r: InvoiceError) {
        InvoiceError::Posting(e)
    }
}

impl vstd::std_specs::convert::FromSpecImpl<PostingError> for InvoiceError {
    open spec fn obeys_from_spec() -> bool {
        true
    }

    open spec fn from_spec(e: PostingError) -> InvoiceError {
        InvoiceError::Posting(e)
    }
}

impl From<PostingError> for ClaimError {
    fn from(e: PostingError) -> (r: ClaimError) {
        ClaimError::Posting(e)
    }
}

impl vstd::std_specs::convert::FromSpecImpl<PostingError> for ClaimError {
    open spec fn obeys_from_spec() -> bool {
        true
    }

    open spec fn from_spec(e: PostingError) -> ClaimError {
        ClaimError::Posting(e)
    }
}

/// Invoice errors seen from payment creation: posting, database and
/// duplicate errors keep their kind, the others are wrapped.
pub open spec fn payment_error_from_invoice(e: InvoiceError) -> PaymentCreateError {
    match e {
        InvoiceError::Posting(p) => PaymentCreateError::Posting(p),
        InvoiceError::Database(d) => PaymentCreateError::Database(d),
        InvoiceError::Duplicate => PaymentCreateError::Duplicate,
        other => PaymentCreateError::Invoice(other),
    }
}

impl From<InvoiceError> for PaymentCreateError {
    fn from(e: InvoiceError) -> (r: PaymentCreateError) {
        match e {
            InvoiceError::Posting(p) => PaymentCreateError::Posting(p),
            InvoiceError::Database(d) => PaymentCreateError::Database(d),
            InvoiceError::Duplicate => PaymentCreateError::Duplicate,
            other => PaymentCreateError::Invoice(other),
        }
    }
}

impl vstd::std_specs::convert::FromSpecImpl<InvoiceError> for PaymentCreateError {
    open spec fn obeys_from_spec() -> bool {
        true
    }

    open spec fn from_spec(e: InvoiceError) -> PaymentCreateError {
        payment_error_from_invoice(e)
    }
}

/// Application errors seen from the invoice workflow.
pub open spec fn invoice_error_from_app(e: AppError) -> InvoiceError {
    match e {
        AppError::Database(d) => InvoiceError::Database(d),
        AppError::NotFound => InvoiceError::NotFound,
        AppError::Duplicate => InvoiceError::Duplicate,
        AppError::InvalidArgument(msg) => InvoiceError::ValidationError(msg),
    }
}

impl From<AppError> for InvoiceError {
    fn from(e: AppError) -> (r: InvoiceError) {
        match e {
            AppError::Database(d) => InvoiceError::Database(d),
            AppError::NotFound => InvoiceError::NotFound,
            AppError::Duplicate => InvoiceError::Duplicate,
            AppError::InvalidArgument(msg) => InvoiceError::ValidationError(msg),
        }
    }
}

impl vstd::std_specs::convert::FromSpecImpl<AppError> for InvoiceError {
    open spec fn obeys_from_spec() -> bool {
        true
    }

    open spec fn from_spec(e: AppError) -> InvoiceError {
        invoice_error_from_app(e)
    }
}

/// Application errors seen from the claim workflow.
pub open spec fn claim_error_from_app(e: AppError) -> ClaimError {
    match e {
        AppError::Database(d) => ClaimError::Database(d),
        AppError::NotFound => ClaimError::NotFound,
        AppError::Duplicate => ClaimError::Duplicate,
        AppError::InvalidArgument(msg) => ClaimError::InvalidInput(msg),
    }
}

impl From<AppError> for ClaimError {
    fn from(e: AppError) -> (r: ClaimError) {
        match e {
            AppError::Database(d) => ClaimError::Database(d),
            AppError::NotFound => ClaimError::NotFound,
            AppError::Duplicate => ClaimError::Duplicate,
            AppError::InvalidArgument(msg) => ClaimError::InvalidInput(msg),
        }
    }
}

impl vstd::std_specs::convert::FromSpecImpl<AppError> for ClaimError {
    open spec fn obeys_from_spec() -> bool {
        true
    }

    open spec fn from_spec(e: AppError) -> ClaimError {
        claim_error_from_app(e)
    }
}

// Claim errors without an application counterpart become
// `InvalidArgument` carrying their message; a posting error's message may
// include a database error's text, so this impl does not claim
// `obeys_from_spec` and its own `ensures` say what holds.
impl From<ClaimError> for AppError {
    fn from(e: ClaimError) -> (r: AppError)
        ensures
            match e {
                ClaimError::Database(d) => r == AppError::Database(d),
                ClaimError::NotFound => r is NotFound,
                ClaimError::Duplicate => r is Duplicate,
                ClaimError::InvalidInput(msg) => r == AppError::InvalidArgument(msg),
                other => r is InvalidArgument && (other.spec_message() matches Some(t) ==> r->InvalidArgument_0@ == t),
            },
    {
        match e {
            ClaimError::Database(db_err) => AppError::Database(db_err),
            ClaimError::NotFound => AppError::NotFound,
            ClaimError::Duplicate => AppError::Duplicate,
            ClaimError::InvalidInput(msg) => AppError::InvalidArgument(msg),
            other => AppError::InvalidArgument(other.message()),
        }
    }
}

impl vstd::std_specs::convert::FromSpecImpl<ClaimError> for AppError {
    open spec fn obeys_from_spec() -> bool {
        false
    }

    open spec fn from_spec(e: ClaimError) -> AppError {
        AppError::NotFound
    }
}

} // verus!

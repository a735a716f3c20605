//! Expense claims: submission, listing filters, and the approval workflow
//! (`Pending` → `Approved` / `Rejected`, or withdrawn by its owner while
//! pending). Approval posts the claim to the ledger.

use vstd::prelude::*;

use std::collections::HashMap;

use crate::amount::{decimal_parse, val, Amount};
use crate::calendar::{date_before, opt_date_parts, parsed_ymd, Date, DateTime};
use crate::entity::account as account_entity;
use crate::entity::claim as claim_entity;
use crate::entity::claim::ClaimStatus;
use crate::entity::journal_entry::SourceDocument;
use crate::entity::journal_entry_line::EntrySide;
use crate::models::account::{find_oe_and_ap, first_named};
use crate::models::error::{custom_error_value, custom_db_error, ClaimError, PostingError};
use crate::models::journal_entry::map_name;
use crate::models::paging::{
    as_ints, clamp_spec, contains_ignore_ascii_case, lemma_page_positions, matching, page_of_matches,
    page_slice, pages_for, search_hits, search_term,
};
use crate::models::posting::{lemma_two_line_entry, line_shape, JournalEntryLineInput, NewJournalEntry, PostingService};
use crate::text::{concat, to_uppercase, uppercase_text};

verus! {

broadcast use vstd::std_specs::hash::group_hash_axioms;

/// A claim as shown, its status by its label.
#[derive(Clone, Debug)]
pub struct Claim {
    pub id: i32,
    pub submitted_by_user_id: i32,
    pub reviewed_by_user_id: Option<i32>,
    pub category_id: i32,
    pub title: String,
    pub description: String,
    pub amount: Amount,
    pub purchase_date: Date,
    pub status: String,
    pub rejection_reason: Option<String>,
    pub created_at: DateTime,
    pub updated_at: DateTime,
}

/// A claim with the names of its submitter, approver and category.
#[derive(Clone, Debug)]
pub struct ClaimDetail {
    pub id: i32,
    pub submitted_by_user_id: i32,
    pub reviewed_by_user_id: Option<i32>,
    pub category_id: i32,
    pub title: String,
    pub description: String,
    pub amount: Amount,
    pub purchase_date: Date,
    pub status: String,
    pub rejection_reason: Option<String>,
    pub created_at: DateTime,
    pub updated_at: DateTime,
    pub submitter_name: String,
    pub reviewer_name: Option<String>,
    pub category_name: String,
}

/// The fields of the claim submission form, as typed.
#[derive(Clone, Debug)]
pub struct ClaimForm {
    pub title: String,
    pub category_id: i32,
    pub description: String,
    pub amount: String,
    pub purchase_date: String,
}

/// The filters of the claim list, as given in the query string.
#[derive(Clone, Debug)]
pub struct ClaimFilter {
    pub q: Option<String>,
    pub status: Option<String>,
    pub category_id: Option<i32>,
    pub submitted_by_user_id: Option<i32>,
    pub from: Option<String>,
    pub to: Option<String>,
    pub page: Option<u32>,
}

/// One row of the claim list.
#[derive(Clone, Debug)]
pub struct ClaimRow {
    pub id: i32,
    pub title: String,
    pub submitter_name: String,
    pub category_name: String,
    pub amount: Amount,
    pub purchase_date: Date,
    pub status: String,
}

/// A claim to insert: pending, not yet decided.
#[derive(Clone, Debug)]
pub struct NewClaim {
    pub submitted_by_user_id: i32,
    pub reviewed_by_user_id: Option<i32>,
    pub category_id: i32,
    pub title: String,
    pub description: String,
    pub amount: Amount,
    pub purchase_date: Date,
    pub status: ClaimStatus,
    pub rejection_reason: Option<String>,
}

/// The status an upper-cased keyword names.
pub open spec fn claim_status_keyword(u: Seq<char>) -> Option<ClaimStatus> {
    if u == "PENDING"@ {
        Some(ClaimStatus::Pending)
    } else if u == "APPROVED"@ {
        Some(ClaimStatus::Approved)
    } else if u == "REJECTED"@ {
        Some(ClaimStatus::Rejected)
    } else {
        None
    }
}

/// The name a map gives a key, or the empty text.
pub open spec fn name_or_empty(m: Map<i32, String>, k: i32) -> Seq<char> {
    match map_name(m, k) {
        Some(n) => n,
        None => Seq::empty(),
    }
}

/// The text of an optional name, or the empty text.
pub open spec fn text_or_empty(s: Option<String>) -> Seq<char> {
    match s {
        Some(t) => t@,
        None => Seq::empty(),
    }
}

/// `b` is `a` after a decision: every field but the status, the approver and
/// the rejection reason is unchanged.
pub open spec fn same_but_decision(a: claim_entity::Model, b: claim_entity::Model) -> bool {
    &&& b.id == a.id
    &&& b.submitted_by_user_id == a.submitted_by_user_id
    &&& b.category_id == a.category_id
    &&& b.title == a.title
    &&& b.description == a.description
    &&& b.amount == a.amount
    &&& b.purchase_date == a.purchase_date
    &&& b.created_at == a.created_at
    &&& b.updated_at == a.updated_at
}

/// The two lines an approved claim posts: Operating Expenses debited and
/// Accounts Payable credited for the claim amount, both described
/// `Claim: <title>`.
pub open spec fn claim_entry_spec(oe_id: i32, ap_id: i32, amount: Amount, title: Seq<char>) -> Seq<
    (i32, EntrySide, Amount, Seq<char>),
> {
    seq![
        (oe_id, EntrySide::Debit, amount, "Claim: "@ + title),
        (ap_id, EntrySide::Credit, amount, "Claim: "@ + title),
    ]
}

/// The name a map gives a key, or the empty text (`unwrap_or_default`).
fn lookup_or_empty(m: &HashMap<i32, String>, k: i32) -> (r: String)
    ensures
        r@ == name_or_empty(m@, k),
{
    match m.get(&k) {
        Some(n) => n.clone(),
        None => String::new(),
    }
}

impl Claim {
    /// The claim of a record, its status by label.
    pub fn from_model(m: claim_entity::Model) -> (r: Claim)
        ensures
            r.id == m.id && r.submitted_by_user_id == m.submitted_by_user_id
                && r.reviewed_by_user_id == m.reviewed_by_user_id && r.category_id == m.category_id
                && r.title == m.title && r.description == m.description && r.amount == m.amount
                && r.purchase_date == m.purchase_date && r.status@ == m.status.spec_label()
                && r.rejection_reason == m.rejection_reason && r.created_at == m.created_at
                && r.updated_at == m.updated_at,
    {
        let status = m.status.label();
        Claim {
            id: m.id,
            submitted_by_user_id: m.submitted_by_user_id,
            reviewed_by_user_id: m.reviewed_by_user_id,
            category_id: m.category_id,
            title: m.title,
            description: m.description,
            amount: m.amount,
            purchase_date: m.purchase_date,
            status,
            rejection_reason: m.rejection_reason,
            created_at: m.created_at,
            updated_at: m.updated_at,
        }
    }

    /// The detail view of a claim (`NotFound` without one) with the names
    /// looked up for it: the submitter's and the category's (empty when
    /// unknown), and the approver's only when the claim has been decided.
    pub fn find_with_linked(
        model: Option<claim_entity::Model>,
        submitter_name: Option<String>,
        reviewer_name: Option<String>,
        category_name: Option<String>,
    ) -> (r: Result<ClaimDetail, ClaimError>)
        ensures
            model is None ==> r matches Err(ClaimError::NotFound),
            model matches Some(m) ==> (r matches Ok(d) && d.id == m.id && d.submitted_by_user_id
                == m.submitted_by_user_id && d.reviewed_by_user_id == m.reviewed_by_user_id
                && d.category_id == m.category_id && d.title == m.title && d.description
                == m.description && d.amount == m.amount && d.purchase_date == m.purchase_date
                && d.status@ == m.status.spec_label() && d.rejection_reason == m.rejection_reason
                && d.created_at == m.created_at && d.updated_at == m.updated_at
                && d.submitter_name@ == text_or_empty(submitter_name) && d.category_name@
                == text_or_empty(category_name) && d.reviewer_name == (if m.reviewed_by_user_id is Some {
                reviewer_name
            } else {
                None
            })),
    {
        let m = match model {
            Some(m) => m,
            None => {
                return Err(ClaimError::NotFound);
            },
        };
        let reviewer = match m.reviewed_by_user_id {
            Some(_) => reviewer_name,
            None => None,
        };
        let claim = Claim::from_model(m);
        let submitter = match submitter_name {
            Some(n) => n,
            None => String::new(),
        };
        let category = match category_name {
            Some(n) => n,
            None => String::new(),
        };
        Ok(
            ClaimDetail {
                id: claim.id,
                submitted_by_user_id: claim.submitted_by_user_id,
                reviewed_by_user_id: claim.reviewed_by_user_id,
                category_id: claim.category_id,
                title: claim.title,
                description: claim.description,
                amount: claim.amount,
                purchase_date: claim.purchase_date,
                status: claim.status,
                rejection_reason: claim.rejection_reason,
                created_at: claim.created_at,
                updated_at: claim.updated_at,
                submitter_name: submitter,
                reviewer_name: reviewer,
                category_name: category,
            },
        )
    }

    /// The rows of the claim list for the claims of a page, in order, with
    /// the submitter's and the category's names (empty when unknown).
    pub fn rows(
        models: &[claim_entity::Model],
        user_names: &HashMap<i32, String>,
        category_names: &HashMap<i32, String>,
    ) -> (r: Vec<ClaimRow>)
        ensures
            r@.len() == models@.len(),
            forall|i: int|
                0 <= i < r@.len() ==> {
                    let m = models@[i];
                    &&& (#[trigger] r@[i]).id == m.id
                    &&& r@[i].title == m.title
                    &&& r@[i].submitter_name@ == name_or_empty(user_names@, m.submitted_by_user_id)
                    &&& r@[i].category_name@ == name_or_empty(category_names@, m.category_id)
                    &&& r@[i].amount == m.amount
                    &&& r@[i].purchase_date == m.purchase_date
                    &&& r@[i].status@ == m.status.spec_label()
                },
    {
        let mut out: Vec<ClaimRow> = Vec::new();
        let mut i: usize = 0;
        while i < models.len()
            invariant
                0 <= i <= models@.len(),
                out@.len() == i,
                forall|j: int|
                    0 <= j < i ==> {
                        let m = models@[j];
                        &&& (#[trigger] out@[j]).id == m.id
                        &&& out@[j].title == m.title
                        &&& out@[j].submitter_name@ == name_or_empty(
                            user_names@,
                            m.submitted_by_user_id,
                        )
                        &&& out@[j].category_name@ == name_or_empty(category_names@, m.category_id)
                        &&& out@[j].amount == m.amount
                        &&& out@[j].purchase_date == m.purchase_date
                        &&& out@[j].status@ == m.status.spec_label()
                    },
            decreases models.len() - i,
        {
            let m = &models[i];
            out.push(
                ClaimRow {
                    id: m.id,
                    title: m.title.clone(),
                    submitter_name: lookup_or_empty(user_names, m.submitted_by_user_id),
                    category_name: lookup_or_empty(category_names, m.category_id),
                    amount: m.amount,
                    purchase_date: m.purchase_date,
                    status: m.status.label(),
                },
            );
            i = i + 1;
        }
        out
    }

    /// A new pending claim from the form: the amount must parse as a
    /// decimal and the purchase date as `YYYY-MM-DD`; either failure is
    /// reported as a database error carrying `Invalid amount: <text>` or
    /// `Invalid purchase date: <text>`.
    pub fn create(form: ClaimForm, submitted_by_user_id: i32) -> (r: Result<NewClaim, ClaimError>)
        ensures
            r is Ok <==> decimal_parse(form.amount@) is Some && parsed_ymd(form.purchase_date@) is Some,
            decimal_parse(form.amount@) is None ==> r == Err::<NewClaim, ClaimError>(
                ClaimError::Database(custom_error_value("Invalid amount: "@ + form.amount@)),
            ),
            decimal_parse(form.amount@) is Some && parsed_ymd(form.purchase_date@) is None ==> r
                == Err::<NewClaim, ClaimError>(
                ClaimError::Database(custom_error_value("Invalid purchase date: "@ + form.purchase_date@)),
            ),
            r matches Ok(c) ==> {
                &&& c.submitted_by_user_id == submitted_by_user_id
                &&& c.reviewed_by_user_id is None
                &&& c.category_id == form.category_id
                &&& c.title == form.title
                &&& c.description == form.description
                &&& Some(c.amount@) == decimal_parse(form.amount@)
                &&& Some(c.purchase_date@) == parsed_ymd(form.purchase_date@)
                &&& c.status == ClaimStatus::Pending
                &&& c.rejection_reason is None
            },
    {
        let amount = match Amount::parse(form.amount.as_str()) {
            Some(a) => a,
            None => {
                return Err(ClaimError::Database(custom_db_error(concat("Invalid amount: ", form.amount.as_str()))));
            },
        };
        let purchase_date = match Date::parse_ymd(form.purchase_date.as_str()) {
            Some(d) => d,
            None => {
                return Err(ClaimError::Database(custom_db_error(concat("Invalid purchase date: ", form.purchase_date.as_str()))));
            },
        };
        Ok(
            NewClaim {
                submitted_by_user_id,
                reviewed_by_user_id: None,
                category_id: form.category_id,
                title: form.title,
                description: form.description,
                amount,
                purchase_date,
                status: ClaimStatus::Pending,
                rejection_reason: None,
            },
        )
    }

    /// The two journal lines of an approved claim.
    fn entry_lines(oe_id: i32, ap_id: i32, amount: Amount, title: &str) -> (r: Vec<JournalEntryLineInput>)
        ensures
            line_shape(r@) == claim_entry_spec(oe_id, ap_id, amount, title@),
            r@.len() == 2,
            r@[0].entry_side != r@[1].entry_side,
            r@[0].amount == amount && r@[1].amount == amount,
    {
        let mut lines: Vec<JournalEntryLineInput> = Vec::new();
        lines.push(
            JournalEntryLineInput {
                account_id: oe_id,
                entry_side: EntrySide::Debit,
                amount,
                description: Some(concat("Claim: ", title)),
            },
        );
        lines.push(
            JournalEntryLineInput {
                account_id: ap_id,
                entry_side: EntrySide::Credit,
                amount,
                description: Some(concat("Claim: ", title)),
            },
        );
        proof {
            assert(line_shape(lines@) =~= claim_entry_spec(oe_id, ap_id, amount, title@));
        }
        lines
    }

    /// Approves a pending claim: it posts Operating Expenses debited and
    /// Accounts Payable credited for the claim amount, traced to the claim
    /// and posted by the approver, and the claim becomes `Approved` with the
    /// approver recorded. A missing claim or account is `NotFound`, a claim
    /// that is not pending `InvalidStatus`, an amount that is not positive a
    /// posting error.
    pub fn approve(
        model: Option<claim_entity::Model>,
        accounts: &[account_entity::Model],
        decided_by: i32,
    ) -> (r: Result<(NewJournalEntry, claim_entity::Model), ClaimError>)
        ensures
            model is None ==> r matches Err(ClaimError::NotFound),
            model matches Some(m) ==> {
                let oe = first_named(accounts@, "Operating Expenses"@);
                let ap = first_named(accounts@, "Accounts Payable"@);
                &&& m.status != ClaimStatus::Pending ==> (r matches Err(ClaimError::InvalidStatus))
                &&& m.status == ClaimStatus::Pending && (oe is None || ap is None) ==> (r matches Err(
                    ClaimError::NotFound,
                ))
                &&& m.status == ClaimStatus::Pending && oe is Some && ap is Some ==> {
                    &&& (r is Ok <==> val(m.amount@) > 0)
                    &&& val(m.amount@) <= 0 ==> (r matches Err(
                        ClaimError::Posting(PostingError::NonPositiveAmount { amount }),
                    ) && amount == m.amount)
                    &&& (r matches Ok((e, updated)) ==> {
                        &&& e.claim_id == Some(m.id) && e.payment_id is None && e.invoice_id is None
                        &&& e.created_by_user_id == decided_by
                        &&& line_shape(e.lines@) == claim_entry_spec(
                            oe.unwrap().id,
                            ap.unwrap().id,
                            m.amount,
                            m.title@,
                        )
                        &&& same_but_decision(m, updated)
                        &&& updated.status == ClaimStatus::Approved
                        &&& updated.reviewed_by_user_id == Some(decided_by)
                        &&& updated.rejection_reason == m.rejection_reason
                    })
                }
            },
    {
        let m = match model {
            Some(m) => m,
            None => {
                return Err(ClaimError::NotFound);
            },
        };
        if m.status != ClaimStatus::Pending {
            return Err(ClaimError::InvalidStatus);
        }
        let (oe, ap) = match find_oe_and_ap(accounts) {
            Ok(p) => p,
            Err(e) => {
                return Err(ClaimError::from(e));
            },
        };
        let lines = Claim::entry_lines(oe.id, ap.id, m.amount, m.title.as_str());
        m.amount.parts_are_ok();
        proof {
            lemma_two_line_entry(lines@);
            if val(m.amount@) <= 0 {
                assert(!crate::models::posting::all_positive(lines@));
                assert(lines@[0].amount == m.amount);
            } else {
                assert(crate::models::posting::all_positive(lines@));
            }
        }
        let ghost lv = lines@;
        let entry = match PostingService::post_entry_in(
            lines,
            SourceDocument::Claim { claim_id: m.id },
            decided_by,
        ) {
            Ok(e) => e,
            Err(e) => {
                proof {
                    assert(forall|i: int| 0 <= i < lv.len() ==> lv[i].amount == m.amount);
                }
                return Err(ClaimError::from(e));
            },
        };
        let updated = claim_entity::Model {
            status: ClaimStatus::Approved,
            reviewed_by_user_id: Some(decided_by),
            ..m
        };
        Ok((entry, updated))
    }

    /// Rejects a pending claim with a reason, recording the approver; no
    /// entry is posted. A missing claim is `NotFound`, one that is not
    /// pending `InvalidStatus`.
    pub fn reject(model: Option<claim_entity::Model>, decided_by: i32, reason: String) -> (r: Result<
        claim_entity::Model,
        ClaimError,
    >)
        ensures
            model is None ==> r matches Err(ClaimError::NotFound),
            model matches Some(m) ==> (m.status != ClaimStatus::Pending ==> r matches Err(
                ClaimError::InvalidStatus,
            )),
            model matches Some(m) ==> (m.status == ClaimStatus::Pending ==> (r matches Ok(u)
                && same_but_decision(m, u) && u.status == ClaimStatus::Rejected
                && u.reviewed_by_user_id == Some(decided_by) && u.rejection_reason == Some(reason))),
    {
        let m = match model {
            Some(m) => m,
            None => {
                return Err(ClaimError::NotFound);
            },
        };
        if m.status != ClaimStatus::Pending {
            return Err(ClaimError::InvalidStatus);
        }
        Ok(
            claim_entity::Model {
                status: ClaimStatus::Rejected,
                reviewed_by_user_id: Some(decided_by),
                rejection_reason: Some(reason),
                ..m
            },
        )
    }

    /// Whether a claim may be withdrawn (deleted) by `owner_id`: it must
    /// exist (`NotFound`), belong to them (`NotOwner`) and still be pending
    /// (`InvalidStatus`), checked in that order.
    pub fn withdraw(model: Option<claim_entity::Model>, owner_id: i32) -> (r: Result<(), ClaimError>)
        ensures
            model is None ==> r matches Err(ClaimError::NotFound),
            model matches Some(m) ==> (m.submitted_by_user_id != owner_id ==> r matches Err(
                ClaimError::NotOwner,
            )),
            model matches Some(m) ==> (m.submitted_by_user_id == owner_id && m.status
                != ClaimStatus::Pending ==> r matches Err(ClaimError::InvalidStatus)),
            model matches Some(m) ==> (m.submitted_by_user_id == owner_id && m.status
                == ClaimStatus::Pending ==> r is Ok),
    {
        let m = match model {
            Some(m) => m,
            None => {
                return Err(ClaimError::NotFound);
            },
        };
        if m.submitted_by_user_id != owner_id {
            return Err(ClaimError::NotOwner);
        }
        if m.status != ClaimStatus::Pending {
            return Err(ClaimError::InvalidStatus);
        }
        Ok(())
    }
}

impl ClaimFilter {
    /// The status filter: the status named by the parameter once
    /// upper-cased (`PENDING`, `APPROVED`, `REJECTED`); no filter for any
    /// other text or none.
    pub fn status_filter(&self) -> (r: Option<ClaimStatus>)
        ensures
            r == match self.status {
                Some(s) => claim_status_keyword(uppercase_text(s@)),
                None => None,
            },
    {
        match &self.status {
            None => None,
            Some(s) => {
                let u = to_uppercase(s.as_str());
                if u == String::from_str("PENDING") {
                    Some(ClaimStatus::Pending)
                } else if u == String::from_str("APPROVED") {
                    Some(ClaimStatus::Approved)
                } else if u == String::from_str("REJECTED") {
                    Some(ClaimStatus::Rejected)
                } else {
                    None
                }
            },
        }
    }

    /// The requested page: 1 when absent, and at least 1.
    pub fn page_number(&self) -> (r: u32)
        ensures
            r == match self.page {
                Some(p) => if p < 1 {
                    1
                } else {
                    p
                },
                None => 1,
            },
            r >= 1,
    {
        match self.page {
            Some(p) => if p < 1 {
                1
            } else {
                p
            },
            None => 1,
        }
    }

    /// Whose claims are listed: only the scoped user's when the caller may
    /// see only their own, else the submitter asked for, if any.
    pub fn submitter(&self, scope_user_id: Option<i32>) -> (r: Option<i32>)
        ensures
            r == match scope_user_id {
                Some(s) => Some(s),
                None => self.submitted_by_user_id,
            },
    {
        match scope_user_id {
            Some(s) => Some(s),
            None => self.submitted_by_user_id,
        }
    }

    /// The earliest purchase date listed, when the parameter parses as
    /// `YYYY-MM-DD` (otherwise no bound).
    pub fn from_date(&self) -> (r: Option<Date>)
        ensures
            match self.from {
                Some(s) => opt_date_parts(r) == parsed_ymd(s@),
                None => r is None,
            },
    {
        match &self.from {
            Some(s) => Date::parse_ymd(s.as_str()),
            None => None,
        }
    }

    /// The latest purchase date listed, when the parameter parses as
    /// `YYYY-MM-DD` (otherwise no bound).
    pub fn to_date(&self) -> (r: Option<Date>)
        ensures
            match self.to {
                Some(s) => opt_date_parts(r) == parsed_ymd(s@),
                None => r is None,
            },
    {
        match &self.to {
            Some(s) => Date::parse_ymd(s.as_str()),
            None => None,
        }
    }
}

/// A claim's title or description matches the search text, if any: there
/// is none, it is blank, or its trimmed term occurs in one of them (ASCII
/// letters compared without case).
pub open spec fn claim_search_hits(q: Option<String>, title: Seq<char>, description: Seq<char>) -> bool {
    match q {
        None => true,
        Some(s) => search_hits(Some(s@), title) || search_hits(Some(s@), description),
    }
}

/// A claim is listed under the filter and the caller's scope: it matches
/// the search; its status is the one named (when a known status is named);
/// its category is the one asked for; its submitter is the scoped user, or
/// else the submitter asked for; and its purchase date is within the dates
/// given (a date that does not parse sets no bound).
pub open spec fn claim_listed(f: ClaimFilter, scope_user_id: Option<i32>, m: claim_entity::Model) -> bool {
    &&& claim_search_hits(f.q, m.title@, m.description@)
    &&& match f.status {
        Some(s) => match claim_status_keyword(uppercase_text(s@)) {
            Some(st) => m.status == st,
            None => true,
        },
        None => true,
    }
    &&& match f.category_id {
        Some(c) => m.category_id == c,
        None => true,
    }
    &&& match (match scope_user_id {
        Some(u) => Some(u),
        None => f.submitted_by_user_id,
    }) {
        Some(u) => m.submitted_by_user_id == u,
        None => true,
    }
    &&& match f.from {
        Some(s) => match parsed_ymd(s@) {
            Some(d) => !date_before(m.purchase_date@, d),
            None => true,
        },
        None => true,
    }
    &&& match f.to {
        Some(s) => match parsed_ymd(s@) {
            Some(d) => !date_before(d, m.purchase_date@),
            None => true,
        },
        None => true,
    }
}

/// A claim meets every filter given: its title or description holds the
/// search term; a known status named is its status; it is in the category
/// asked for; it was submitted by the scoped user (or, without a scope, by
/// the submitter asked for); and its purchase date lies within the dates
/// that parse.
pub open spec fn meets_claim_filters(f: ClaimFilter, scope_user_id: Option<i32>, m: claim_entity::Model) -> bool {
    &&& (f.q matches Some(q) ==> search_hits(Some(q@), m.title@) || search_hits(Some(q@), m.description@))
    &&& (f.status matches Some(s) ==> (claim_status_keyword(uppercase_text(s@)) matches Some(st) ==> m.status
        == st))
    &&& (f.category_id matches Some(c) ==> m.category_id == c)
    &&& (scope_user_id matches Some(u) ==> m.submitted_by_user_id == u)
    &&& (scope_user_id is None ==> (f.submitted_by_user_id matches Some(u) ==> m.submitted_by_user_id == u))
    &&& (f.from matches Some(s) ==> (parsed_ymd(s@) matches Some(d) ==> !date_before(m.purchase_date@, d)))
    &&& (f.to matches Some(s) ==> (parsed_ymd(s@) matches Some(d) ==> !date_before(d, m.purchase_date@)))
}

/// A claim is listed exactly when it meets every filter given: one outside
/// the scope, of another category or status, outside the dates or not
/// matching the search is never listed, and every other one is.
pub proof fn lemma_claim_listed_exactly_when_filters_met(
    f: ClaimFilter,
    scope_user_id: Option<i32>,
    m: claim_entity::Model,
)
    ensures
        claim_listed(f, scope_user_id, m) <==> meets_claim_filters(f, scope_user_id, m),
{
}

/// Which of the claims are listed under the filter and scope.
pub open spec fn claims_listed(f: ClaimFilter, scope_user_id: Option<i32>, models: Seq<claim_entity::Model>) -> Seq<bool> {
    models.map_values(|m: claim_entity::Model| claim_listed(f, scope_user_id, m))
}

/// The page asked for: the parameter, or the first page.
pub open spec fn requested_page(page: Option<u32>) -> u32 {
    match page {
        Some(p) => p,
        None => 1,
    }
}

impl ClaimFilter {
    /// Whether a claim's title or description matches the search text.
    pub fn matches_search(&self, title: &str, description: &str) -> (r: bool)
        ensures
            r == claim_search_hits(self.q, title@, description@),
    {
        match &self.q {
            None => true,
            Some(q) => match search_term(q.as_str()) {
                None => true,
                Some(t) => contains_ignore_ascii_case(title, t.as_str()) || contains_ignore_ascii_case(
                    description,
                    t.as_str(),
                ),
            },
        }
    }

    /// Whether a claim is listed under this filter and the caller's scope.
    pub fn matches(&self, m: &claim_entity::Model, scope_user_id: Option<i32>) -> (r: bool)
        ensures
            r == claim_listed(*self, scope_user_id, *m),
            r == meets_claim_filters(*self, scope_user_id, *m),
    {
        if !self.matches_search(m.title.as_str(), m.description.as_str()) {
            return false;
        }
        match self.status_filter() {
            Some(st) => {
                if m.status != st {
                    return false;
                }
            },
            None => {},
        }
        match self.category_id {
            Some(c) => {
                if m.category_id != c {
                    return false;
                }
            },
            None => {},
        }
        match self.submitter(scope_user_id) {
            Some(u) => {
                if m.submitted_by_user_id != u {
                    return false;
                }
            },
            None => {},
        }
        match self.from_date() {
            Some(d) => {
                if m.purchase_date.is_before(&d) {
                    return false;
                }
            },
            None => {},
        }
        match self.to_date() {
            Some(d) => {
                if d.is_before(&m.purchase_date) {
                    return false;
                }
            },
            None => {},
        }
        true
    }
}

impl Claim {
    /// One page of the claim list. `models` are the claims newest first;
    /// those listed under the filter and scope are cut into pages of
    /// `per_page`, and the page asked for (brought within the pages there
    /// are) is picked. Gives the positions in `models` of the claims on the
    /// page shown, in order, the number of pages and the page shown.
    pub fn list_page(
        models: &[claim_entity::Model],
        filter: &ClaimFilter,
        scope_user_id: Option<i32>,
        per_page: u64,
    ) -> (r: (Vec<usize>, u32, u32))
        requires
            per_page > 0,
        ensures
            ({
                let keep = claims_listed(*filter, scope_user_id, models@);
                &&& (r.1, r.2) == clamp_spec(
                    requested_page(filter.page),
                    pages_for(matching(keep).len(), per_page as nat) as u64,
                )
                &&& as_ints(r.0@) == page_slice(matching(keep), r.2, per_page as nat)
            }),
            1 <= r.2 <= r.1,
            r.0@.len() <= per_page,
            forall|k: int|
                0 <= k < r.0@.len() ==> (#[trigger] r.0@[k] as int) < models@.len() && claim_listed(
                    *filter,
                    scope_user_id,
                    models@[r.0@[k] as int],
                ) && meets_claim_filters(*filter, scope_user_id, models@[r.0@[k] as int]),
            forall|a: int, b: int| 0 <= a < b < r.0@.len() ==> #[trigger] r.0@[a] < #[trigger] r.0@[b],
    {
        let mut keep: Vec<bool> = Vec::new();
        let mut i: usize = 0;
        while i < models.len()
            invariant
                0 <= i <= models@.len(),
                keep@.len() == i,
                forall|j: int|
                    0 <= j < i ==> #[trigger] keep@[j] == claim_listed(*filter, scope_user_id, models@[j]),
            decreases models.len() - i,
        {
            let b = filter.matches(&models[i], scope_user_id);
            keep.push(b);
            i = i + 1;
        }
        proof {
            assert(keep@ =~= claims_listed(*filter, scope_user_id, models@));
        }
        let page = match filter.page {
            Some(p) => p,
            None => 1,
        };
        let r = page_of_matches(&keep, page, per_page);
        proof {
            lemma_page_positions(keep@, r.2, per_page as nat, r.0@);
        }
        r
    }
}

} // verus!

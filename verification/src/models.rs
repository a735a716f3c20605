//! The application's business rules: validation, workflows, posting and
//! reporting over the ledger records.

pub mod account;
pub mod claim;
pub mod claim_category;
pub mod error;
pub mod invoice;
pub mod journal_entry;
pub mod party;
pub mod paging;
pub mod payment;
pub mod posting;
pub mod report;
pub mod user;

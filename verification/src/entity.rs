//! The records of the ledger database and the enumerations stored in them.

pub mod account;
pub mod claim;
pub mod claim_category;
pub mod invoice;
pub mod invoice_line_item;
pub mod journal_entry;
pub mod journal_entry_line;
pub mod party;
pub mod payment;
pub mod user;

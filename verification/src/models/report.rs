//! Financial reports built from the ledger: the balance sheet, the income
//! statement, the GST summary and the yearly audit trail.

pub mod audit;
pub mod balance_sheet;
pub mod gst;
pub mod income_statement;

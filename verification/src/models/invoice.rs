//! Invoices: totals and GST, the draft-to-paid workflow and statistics.

pub mod calc;
pub mod listing;
pub mod stats;
pub mod types;
pub mod workflow;

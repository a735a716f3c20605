//! Double-entry bookkeeping logic for an invoicing and expense-claim
//! application: decimal money arithmetic, invoice totals and GST, the
//! invoice and claim workflows, journal posting rules, account balances and
//! the financial reports built from them.

pub mod amount;
pub mod calendar;
pub mod entity;
pub mod middleware;
pub mod models;
pub mod text;

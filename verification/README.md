# csc1106

Double-entry bookkeeping for a small business: invoices with GST, expense
claims, payments, a journal of balanced entries, and the reports built
from it (balance sheet, income statement, GST summary, yearly audit trail).

The rules live in `src/`, written in Verus and verified: every public
function states what it returns, and the laws of the ledger are proved
there, among them

- every posted entry has lines, positive amounts, and equal debits and
  credits (`models/posting.rs`);
- posting a balanced entry keeps a balanced ledger balanced, and the
  balance sheet of a balanced ledger balances: total assets equal
  liabilities plus equity (`models/report/balance_sheet.rs`);
- voiding a sent invoice reverses, account by account, the entry its
  sending posted, so every account's balance is what it was before
  (`models/invoice/workflow.rs`);
- a payment moves its amount from one account to the other and touches no
  other (`models/payment.rs`).

Layout:

- `src/amount.rs`, `src/calendar.rs`, `src/text.rs`: decimals, dates and
  text, each tied to the crate that computes it (`rust_decimal`, `chrono`,
  `std`) by a stated contract;
- `src/entity/`: the records the database holds;
- `src/models/`: accounts, claims, invoices, journal entries, parties,
  payments, users and the reports, and the searching and paging of the
  claim, invoice and party lists (`models/paging.rs`);
- `src/middleware/`: sign-in freshness, role sets, template filters;
- `app/`: the web server (Actix, SeaORM, Tera), which reads and writes
  the database and hands the library plain values;
- `tests/`: tests of the library on concrete values.

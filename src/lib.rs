//! Card payment authorization and refund accounting.
//!
//! A payment places a hold with the funds authority, is recorded in the
//! ledger, and the hold is then either withdrawn or released. Refunds
//! accumulate per payment and never exceed the amount that was paid.

mod external;
pub mod flow;
pub mod bank;
pub mod rules;
pub mod model;

//! Admission scoring for a fixed-capacity batch builder.
//!
//! Candidate work items carry their own cost metrics together with a running
//! aggregate over their not-yet-admitted ancestors.  An item's admission
//! score is the worse of its own resource-adjusted rate and the blended rate
//! of its whole pending ancestor package, so an unprofitable chain cannot be
//! rescued by one profitable member.  Rates are kept as exact integer ratios,
//! so every score is a genuine finite number and the comparator below is a
//! strict total order.

pub mod audit_transaction;
pub mod fee_rate;
pub mod thread_transaction;

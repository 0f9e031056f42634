//! Verified core of the product ledger's Action persistence adapter.
//!
//! The SQLite adapter splits into I/O (reading and writing rows, which stays
//! outside this crate) and the decisions it takes on the values it reads:
//! error classification, the persisted vocabulary of states and causes,
//! idempotent replay, version and state guards, operation ordinals and the
//! ordinal-ordered fold of recorded activity.  Those decisions live here,
//! each with a contract.

pub mod action_events;
pub mod activity;
pub mod approval_laws;
pub mod approvals;
pub mod audit_id;
pub mod causes;
pub mod composition;
pub mod decision_activity;
pub mod denials;
pub mod errors;
pub mod evidence;
pub mod executions;
pub mod ids;
pub mod laws;
pub mod ledger;
pub mod load_error;
pub mod lowerings;
pub mod model;
pub mod namespace;
pub mod namespace_counts;
pub mod prepared_rows;
pub mod rejections;
pub mod replay_laws;
pub mod request_activity;
pub mod requests;
pub mod sqlite_errors;
pub mod states;
pub mod support;
pub mod terminal_errors;
pub mod terminal_executions;
pub mod text;
pub mod versions;

use vstd::prelude::*;

verus! {

} // verus!

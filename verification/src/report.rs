use vstd::prelude::*;
use crate::account::Account;

verus! {

/// One moderation report from the monitored instance.
///
/// `created_at` is the creation time in seconds since the Unix epoch,
/// UTC. `category` and `comment` are consumed only for notification
/// payloads.
#[derive(Debug, PartialEq, Eq)]
pub struct Report {
    pub action_taken: bool,
    pub category: String,
    pub comment: String,
    pub account: Account,
    pub target_account: Account,
    pub created_at: i64,
}

/// The evaluator's decision: whether an emergency shutdown is required,
/// and, when it is, the report that triggered it.
#[derive(Debug, PartialEq, Eq)]
pub struct Verdict {
    pub shutdown_required: bool,
    pub triggering_report: Option<Report>,
}

} // verus!

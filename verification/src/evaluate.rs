use vstd::prelude::*;
use crate::report::{Report, Verdict};

verus! {

/// A report becomes overdue once its age strictly exceeds 23 whole hours.
pub const AGE_THRESHOLD_SECONDS: i64 = 23 * 3600;

/// An unresolved report whose age at `now` strictly exceeds the threshold.
/// An age of exactly the threshold does not qualify, and neither does a
/// zero or negative age (a timestamp in the future, from clock skew).
pub open spec fn report_overdue(r: Report, now: int) -> bool {
    &&& !r.action_taken
    &&& now - r.created_at > AGE_THRESHOLD_SECONDS
}

/// The triggering report of a list: the first report in input order that
/// is overdue at `now`, if any.
pub open spec fn spec_triggering(reports: Seq<Report>, now: int) -> Option<Report>
    decreases reports.len(),
{
    if reports.len() == 0 {
        None
    } else if report_overdue(reports[0], now) {
        Some(reports[0])
    } else {
        spec_triggering(reports.drop_first(), now)
    }
}

/// When no report in the list is overdue, there is no triggering report.
pub proof fn lemma_no_overdue_none(s: Seq<Report>, now: int)
    requires
        forall|i: int| 0 <= i < s.len() ==> !report_overdue(s[i], now),
    ensures
        spec_triggering(s, now) is None,
    decreases s.len(),
{
    if s.len() > 0 {
        assert forall|i: int| 0 <= i < s.drop_first().len() implies !report_overdue(
            s.drop_first()[i],
            now,
        ) by {
            assert(s.drop_first()[i] == s[i + 1]);
        }
        lemma_no_overdue_none(s.drop_first(), now);
    }
}

/// The triggering report is exactly the first overdue one: if `s[k]` is
/// overdue and no earlier report is, then `s[k]` triggers.
pub proof fn lemma_triggering_at_first(s: Seq<Report>, now: int, k: int)
    requires
        0 <= k < s.len(),
        report_overdue(s[k], now),
        forall|i: int| 0 <= i < k ==> !report_overdue(s[i], now),
    ensures
        spec_triggering(s, now) == Some(s[k]),
    decreases k,
{
    if k > 0 {
        assert forall|i: int| 0 <= i < k - 1 implies !report_overdue(
            s.drop_first()[i],
            now,
        ) by {
            assert(s.drop_first()[i] == s[i + 1]);
        }
        assert(s.drop_first()[k - 1] == s[k]);
        lemma_triggering_at_first(s.drop_first(), now, k - 1);
    }
}

/// Produce the verdict for a fetched report list at evaluation time
/// `now` (seconds since the Unix epoch). A shutdown is required exactly
/// when some report is overdue, and the triggering report is the first
/// overdue one in input order.
#[verifier::loop_isolation(false)]
pub fn evaluate(reports: Vec<Report>, now: i64) -> (v: Verdict)
    ensures
        v.triggering_report == spec_triggering(reports@, now as int),
        v.shutdown_required == (spec_triggering(reports@, now as int) is Some),
        v.shutdown_required <==> exists|i: int|
            0 <= i < reports@.len() && report_overdue(reports@[i], now as int),
{
    let ghost s = reports@;
    let mut reports = reports;
    let n = reports.len();
    let mut j: usize = 0;
    while j < n
        invariant
            reports@ == s,
            n == s.len(),
            j <= n,
            forall|i: int| 0 <= i < j ==> !report_overdue(s[i], now as int),
        decreases n - j,
    {
        let r = &reports[j];
        let age: i128 = (now as i128) - (r.created_at as i128);
        if !r.action_taken && age > (AGE_THRESHOLD_SECONDS as i128) {
            proof {
                assert(report_overdue(s[j as int], now as int));
                lemma_triggering_at_first(s, now as int, j as int);
            }
            let triggering = reports.remove(j);
            return Verdict { shutdown_required: true, triggering_report: Some(triggering) };
        }
        j += 1;
    }
    proof {
        lemma_no_overdue_none(s, now as int);
    }
    Verdict { shutdown_required: false, triggering_report: None }
}

/// Relies on time::OffsetDateTime::now_utc and unix_timestamp: the
/// current time of the system clock, as seconds since the Unix epoch.
/// Nothing is promised of the value; whatever the clock reads, the
/// verdict below holds for that reading.
#[verifier::external_body]
fn now_unix_seconds() -> i64 {
    time::OffsetDateTime::now_utc().unix_timestamp()
}

/// Produce the verdict for a fetched report list at the current time.
/// The clock reading the call observed is returned with the verdict, and
/// the verdict is exactly [`evaluate`]'s for that reading.
pub fn evaluate_at_current_time(reports: Vec<Report>) -> (res: (Verdict, i64))
    ensures
        res.0.triggering_report == spec_triggering(reports@, res.1 as int),
        res.0.shutdown_required == (spec_triggering(reports@, res.1 as int) is Some),
{
    let now = now_unix_seconds();
    let verdict = evaluate(reports, now);
    (verdict, now)
}

/// The part of a list a moderator has not resolved yet, in order.
pub open spec fn unresolved(s: Seq<Report>) -> Seq<Report>
    decreases s.len(),
{
    if s.len() == 0 {
        Seq::empty()
    } else if s[0].action_taken {
        unresolved(s.drop_first())
    } else {
        seq![s[0]] + unresolved(s.drop_first())
    }
}

/// Resolved reports play no part in the outcome: a list and its
/// unresolved part have the same triggering report.
pub proof fn lemma_resolved_reports_ignored(s: Seq<Report>, now: int)
    ensures
        spec_triggering(unresolved(s), now) == spec_triggering(s, now),
    decreases s.len(),
{
    if s.len() == 0 {
    } else if s[0].action_taken {
        lemma_resolved_reports_ignored(s.drop_first(), now);
    } else {
        lemma_resolved_reports_ignored(s.drop_first(), now);
        let u = seq![s[0]] + unresolved(s.drop_first());
        assert(u[0] == s[0]);
        if !report_overdue(s[0], now) {
            assert(u.drop_first() =~= unresolved(s.drop_first()));
        }
    }
}

/// An empty report list never requires a shutdown.
pub proof fn lemma_empty_list_not_required(now: int)
    ensures
        spec_triggering(Seq::<Report>::empty(), now) is None,
{
}

/// An age of exactly the threshold does not trigger: the comparison is
/// strict, so a list in which every report has that exact age never
/// requires a shutdown.
pub proof fn lemma_exact_threshold_not_required(s: Seq<Report>, now: int)
    requires
        forall|i: int| 0 <= i < s.len() ==> now - s[i].created_at == AGE_THRESHOLD_SECONDS,
    ensures
        spec_triggering(s, now) is None,
{
    lemma_no_overdue_none(s, now);
}

/// One second past the threshold triggers: in a non-empty list of
/// unresolved reports all aged one second past the threshold, a shutdown
/// is required and the first report in input order triggers it.
pub proof fn lemma_threshold_plus_one_required(s: Seq<Report>, now: int)
    requires
        s.len() > 0,
        forall|i: int| 0 <= i < s.len() ==> !s[i].action_taken,
        forall|i: int| 0 <= i < s.len() ==> now - s[i].created_at == AGE_THRESHOLD_SECONDS + 1,
    ensures
        spec_triggering(s, now) == Some(s[0]),
{
    assert(report_overdue(s[0], now));
}

} // verus!

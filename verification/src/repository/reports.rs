//! The exportable security report, assembled from figures read from storage.

use vstd::prelude::*;
use crate::repository::models::{SecurityEvent, SecurityReport, SecurityScore, SeverityCounts};
use crate::text::str_eq;

verus! {

/// How many risk events a report lists at most.
pub const RECENT_RISK_EVENT_LIMIT: usize = 10;

/// Severities that count as a risk: medium, high and critical.
pub open spec fn is_risk_label(label: Seq<char>) -> bool {
    label == "medium"@ || label == "high"@ || label == "critical"@
}

/// The first `RECENT_RISK_EVENT_LIMIT` events of `events`, in order, whose severity is a
/// risk.
pub open spec fn risk_events(events: Seq<SecurityEvent>) -> Seq<SecurityEvent>
    decreases events.len(),
{
    if events.len() == 0 {
        Seq::empty()
    } else {
        let before = risk_events(events.drop_last());
        if is_risk_label(events.last().severity@) && before.len() < RECENT_RISK_EVENT_LIMIT {
            before.push(events.last())
        } else {
            before
        }
    }
}

/// Assembles a report from the figures read for it; the risk list is taken from the
/// recent detections as `risk_events` says.
pub fn security_report(
    generated_at: String,
    security_score: SecurityScore,
    total_incidents: i64,
    severity_counts: SeverityCounts,
    monitored_folder_count: i64,
    file_event_count: i64,
    recent_detections: Vec<SecurityEvent>,
) -> (r: SecurityReport)
    ensures
        r.generated_at == generated_at,
        r.security_score == security_score,
        r.total_incidents == total_incidents,
        r.severity_counts == severity_counts,
        r.monitored_folder_count == monitored_folder_count,
        r.file_event_count == file_event_count,
        r.recent_detections@ == recent_detections@,
        r.recent_risk_events@ == risk_events(recent_detections@),
{
    let mut risk: Vec<SecurityEvent> = Vec::new();
    let mut i: usize = 0;
    while i < recent_detections.len()
        invariant
            i <= recent_detections.len(),
            risk@ == risk_events(recent_detections@.take(i as int)),
        decreases recent_detections.len() - i,
    {
        proof {
            assert(recent_detections@.take(i + 1).drop_last() =~= recent_detections@.take(i as int));
        }
        let event = &recent_detections[i];
        let label = event.severity.as_str();
        if (str_eq(label, "medium") || str_eq(label, "high") || str_eq(label, "critical"))
            && risk.len() < RECENT_RISK_EVENT_LIMIT {
            risk.push(event.duplicate());
        }
        i = i + 1;
    }
    assert(recent_detections@.take(recent_detections.len() as int) =~= recent_detections@);
    SecurityReport {
        generated_at,
        security_score,
        total_incidents,
        severity_counts,
        monitored_folder_count,
        file_event_count,
        recent_detections,
        recent_risk_events: risk,
    }
}

/// A report lists at most ten risk events, each a medium, high or critical detection
/// taken from the recent detections.
pub proof fn lemma_risk_events_are_recent_risks(events: Seq<SecurityEvent>)
    ensures
        risk_events(events).len() <= RECENT_RISK_EVENT_LIMIT,
        forall|i: int|
            0 <= i < risk_events(events).len() ==> is_risk_label(
                #[trigger] risk_events(events)[i].severity@,
            ) && events.contains(risk_events(events)[i]),
    decreases events.len(),
{
    if events.len() > 0 {
        lemma_risk_events_are_recent_risks(events.drop_last());
        let before = risk_events(events.drop_last());
        assert forall|i: int| 0 <= i < risk_events(events).len() implies is_risk_label(
            #[trigger] risk_events(events)[i].severity@,
        ) && events.contains(risk_events(events)[i]) by {
            if i < before.len() {
                assert(risk_events(events)[i] == before[i]);
                assert(is_risk_label(before[i].severity@));
                let k = choose|k: int| 0 <= k < events.drop_last().len() && events.drop_last()[k] == before[i];
                assert(events[k] == before[i]);
            } else {
                assert(risk_events(events)[i] == events.last());
                assert(events[events.len() - 1] == events.last());
            }
        }
    }
}

/// The risk list is the detections of severity medium, high or critical, in their order,
/// cut off after the first ten: every such detection is listed unless ten come before it,
/// and with fewer than ten of them the list holds all of them.
pub proof fn lemma_risk_events_are_first_ten_risks(events: Seq<SecurityEvent>)
    ensures
        ({
            let risks = events.filter(
                |e: SecurityEvent| e.severity@ == "medium"@ || e.severity@ == "high"@ || e.severity@
                    == "critical"@,
            );
            risk_events(events) == if risks.len() <= 10 {
                risks
            } else {
                risks.take(10)
            }
        }),
    decreases events.len(),
{
    reveal(Seq::filter);
    let pred = |e: SecurityEvent| e.severity@ == "medium"@ || e.severity@ == "high"@ || e.severity@
        == "critical"@;
    if events.len() > 0 {
        lemma_risk_events_are_first_ten_risks(events.drop_last());
        let before = events.drop_last().filter(pred);
        let risks = events.filter(pred);
        if pred(events.last()) {
            assert(risks == before.push(events.last()));
            if before.len() >= 10 {
                assert(risks.take(10) =~= before.take(10));
            } else {
                assert(before.take(before.len() as int) =~= before);
            }
        } else {
            assert(risks == before);
        }
    }
}

} // verus!

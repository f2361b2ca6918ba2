//! Detector output: how an assessment folds into an incident, what incident status
//! changes are allowed, and the score derived from the still-open incidents.

use vstd::prelude::*;
use crate::domain::threat_detection::{Severity, ThreatAssessment};
use crate::repository::models::SecurityScore;
use crate::text::str_eq;

verus! {

/// The score penalty of a stored severity name; unknown names count as info.
pub open spec fn label_penalty(label: Seq<char>) -> int {
    if label == "low"@ {
        Severity::Low.penalty() as int
    } else if label == "medium"@ {
        Severity::Medium.penalty() as int
    } else if label == "high"@ {
        Severity::High.penalty() as int
    } else if label == "critical"@ {
        Severity::Critical.penalty() as int
    } else {
        Severity::Info.penalty() as int
    }
}

/// The penalties of all open incidents, added up.
pub open spec fn total_penalty(labels: Seq<Seq<char>>) -> int
    decreases labels.len(),
{
    if labels.len() == 0 {
        0
    } else {
        total_penalty(labels.drop_last()) + label_penalty(labels.last())
    }
}

/// How many of the open incidents are critical.
pub open spec fn critical_count(labels: Seq<Seq<char>>) -> int
    decreases labels.len(),
{
    if labels.len() == 0 {
        0
    } else {
        critical_count(labels.drop_last()) + if labels.last() == "critical"@ {
            1int
        } else {
            0int
        }
    }
}

/// 100 minus the penalties, never below 0.
pub open spec fn score_of(labels: Seq<Seq<char>>) -> int {
    if 100 - total_penalty(labels) < 0 {
        0
    } else {
        100 - total_penalty(labels)
    }
}

pub open spec fn labels_of(severities: Seq<String>) -> Seq<Seq<char>> {
    severities.map_values(|s: String| s@)
}

fn severity_penalty(label: &str) -> (p: i64)
    ensures
        p == label_penalty(label@),
        0 <= p <= 45,
{
    if str_eq(label, "low") {
        Severity::Low.score_penalty()
    } else if str_eq(label, "medium") {
        Severity::Medium.score_penalty()
    } else if str_eq(label, "high") {
        Severity::High.score_penalty()
    } else if str_eq(label, "critical") {
        Severity::Critical.score_penalty()
    } else {
        Severity::Info.score_penalty()
    }
}

proof fn lemma_total_penalty_bounds(labels: Seq<Seq<char>>)
    ensures
        0 <= total_penalty(labels) <= 45 * labels.len(),
        0 <= critical_count(labels) <= labels.len(),
    decreases labels.len(),
{
    if labels.len() > 0 {
        lemma_total_penalty_bounds(labels.drop_last());
    }
}

/// The security score over the severities of the incidents that are still open.
pub fn security_score(severities: &Vec<String>) -> (s: SecurityScore)
    requires
        severities.len() <= i64::MAX,
    ensures
        s.score == score_of(labels_of(severities@)),
        s.open_incident_count == severities.len(),
        s.critical_incident_count == critical_count(labels_of(severities@)),
{
    let mut penalty: i64 = 0;
    let mut critical: i64 = 0;
    let mut i: usize = 0;
    while i < severities.len()
        invariant
            i <= severities.len() <= i64::MAX,
            penalty == if total_penalty(labels_of(severities@).take(i as int)) < i64::MAX {
                total_penalty(labels_of(severities@).take(i as int))
            } else {
                i64::MAX as int
            },
            critical == critical_count(labels_of(severities@).take(i as int)),
        decreases severities.len() - i,
    {
        let ghost before = labels_of(severities@).take(i as int);
        proof {
            assert(labels_of(severities@).take(i + 1).drop_last() =~= before);
            assert(labels_of(severities@).take(i + 1).last() == severities@[i as int]@);
            lemma_total_penalty_bounds(before);
        }
        let label = severities[i].as_str();
        let p = severity_penalty(label);
        penalty = if penalty > i64::MAX - p {
            i64::MAX
        } else {
            penalty + p
        };
        if str_eq(label, "critical") {
            critical = critical + 1;
        }
        i = i + 1;
    }
    proof {
        assert(labels_of(severities@).take(severities.len() as int) =~= labels_of(severities@));
        lemma_total_penalty_bounds(labels_of(severities@));
    }
    let score = if 100 - penalty < 0 {
        0
    } else {
        100 - penalty
    };
    SecurityScore {
        score,
        open_incident_count: severities.len() as i64,
        critical_incident_count: critical,
    }
}

/// The score always lies between 0 and 100.
pub proof fn lemma_score_in_range(labels: Seq<Seq<char>>)
    ensures
        0 <= score_of(labels) <= 100,
{
    lemma_total_penalty_bounds(labels);
}

/// With no open incident the score is 100.
pub proof fn lemma_score_without_incidents()
    ensures
        score_of(Seq::<Seq<char>>::empty()) == 100,
{
}

/// One more open incident never raises the score.
pub proof fn lemma_score_never_rises_with_incidents(labels: Seq<Seq<char>>, extra: Seq<char>)
    ensures
        score_of(labels.push(extra)) <= score_of(labels),
{
    assert(labels.push(extra).drop_last() =~= labels);
}

/// The critical count is the number of open incidents whose severity label is exactly
/// "critical"; with no such label it is 0.
pub proof fn lemma_critical_count_counts_critical_labels(labels: Seq<Seq<char>>)
    ensures
        critical_count(labels) == labels.filter(|l: Seq<char>| l == "critical"@).len(),
        (forall|i: int| 0 <= i < labels.len() ==> #[trigger] labels[i] != "critical"@)
            ==> critical_count(labels) == 0,
    decreases labels.len(),
{
    reveal(Seq::filter);
    if labels.len() > 0 {
        lemma_critical_count_counts_critical_labels(labels.drop_last());
        if forall|i: int| 0 <= i < labels.len() ==> #[trigger] labels[i] != "critical"@ {
            assert forall|i: int| 0 <= i < labels.drop_last().len() implies #[trigger] labels.drop_last()[i]
                != "critical"@ by {
                assert(labels.drop_last()[i] == labels[i]);
            }
            assert(labels[labels.len() - 1] != "critical"@);
        }
    }
}

/// One open incident of severity `s` alone leaves a score of 100 minus that severity's
/// penalty (info 0, low 3, medium 10, high 25, critical 45), and counts as critical only
/// when `s` is critical.
pub proof fn lemma_single_incident_score(s: Severity)
    ensures
        score_of(seq![s.label()]) == 100 - s.penalty(),
        critical_count(seq![s.label()]) == if s == Severity::Critical { 1int } else { 0int },
        score_of(seq![s.label()]) == match s {
            Severity::Info => 100int,
            Severity::Low => 97int,
            Severity::Medium => 90int,
            Severity::High => 75int,
            Severity::Critical => 55int,
        },
{
    reveal_strlit("info");
    reveal_strlit("low");
    reveal_strlit("medium");
    reveal_strlit("high");
    reveal_strlit("critical");
    let labels = seq![s.label()];
    assert(labels.drop_last() =~= Seq::<Seq<char>>::empty());
    assert(labels.last() == s.label());
    assert("info"@[0] == 'i');
    assert("low"@[0] == 'l');
    assert("medium"@[0] == 'm');
    assert("high"@[0] == 'h');
    assert("critical"@[0] == 'c');
    assert(total_penalty(labels.drop_last()) == 0);
    assert(critical_count(labels.drop_last()) == 0);
    assert(total_penalty(labels) == label_penalty(s.label()));
    match s {
        Severity::Info => {},
        Severity::Low => {},
        Severity::Medium => {},
        Severity::High => {},
        Severity::Critical => {},
    }
}

/// The penalties of two groups of open incidents add up, and so do their critical counts:
/// neither depends on how the incidents are split or ordered into groups.
pub proof fn lemma_penalties_add_up(a: Seq<Seq<char>>, b: Seq<Seq<char>>)
    ensures
        total_penalty(a + b) == total_penalty(a) + total_penalty(b),
        critical_count(a + b) == critical_count(a) + critical_count(b),
    decreases b.len(),
{
    if b.len() == 0 {
        assert(a + b =~= a);
    } else {
        lemma_penalties_add_up(a, b.drop_last());
        assert((a + b).drop_last() =~= a + b.drop_last());
        assert((a + b).last() == b.last());
    }
}

/// The incident severity after an assessment of `incoming` joins an incident of
/// `current`: low-grade incidents (info, low, medium) are raised to a high or critical
/// finding; otherwise the incident keeps its severity.
pub open spec fn escalated_label(current: Seq<char>, incoming: Severity) -> Seq<char> {
    if (current == "info"@ || current == "low"@ || current == "medium"@) && (incoming
        == Severity::High || incoming == Severity::Critical) {
        incoming.label()
    } else {
        current
    }
}

/// The still-open incident that an assessment correlates with, when there is one.
pub struct CorrelatedIncident {
    pub id: i64,
    pub severity: String,
}

/// How an assessment lands in the incident table.
pub enum IncidentWrite {
    /// Add the event to this incident, which now has this severity.
    Extend { incident_id: i64, severity: String },
    /// Open a new incident with the assessment's key, severity, title and description.
    Open,
}

/// What storing one assessment writes besides the security event itself.
pub struct AssessmentPlan {
    pub incident: IncidentWrite,
    /// Whether a notification is raised; informational findings raise none.
    pub notify: bool,
}

/// Decides how an assessment is folded into the incidents: a correlated open incident is
/// extended, with its severity escalated as `escalated_label` says; otherwise a new
/// incident is opened. Every finding above info also raises a notification.
pub fn persist_threat_assessment(
    correlated: Option<CorrelatedIncident>,
    assessment: &ThreatAssessment,
) -> (plan: AssessmentPlan)
    ensures
        plan.notify <==> assessment.severity != Severity::Info,
        correlated is None ==> plan.incident is Open,
        correlated matches Some(c) ==> (plan.incident matches IncidentWrite::Extend {
            incident_id,
            severity,
        } && incident_id == c.id && severity@ == escalated_label(c.severity@, assessment.severity)),
{
    let incident = match correlated {
        None => IncidentWrite::Open,
        Some(c) => {
            let current = c.severity.as_str();
            let low_grade = str_eq(current, "info") || str_eq(current, "low") || str_eq(
                current,
                "medium",
            );
            let serious = assessment.severity == Severity::High || assessment.severity
                == Severity::Critical;
            let severity = if low_grade && serious {
                assessment.severity.as_str().to_owned()
            } else {
                c.severity
            };
            IncidentWrite::Extend { incident_id: c.id, severity }
        },
    };
    AssessmentPlan { incident, notify: assessment.severity != Severity::Info }
}

/// Folding an assessment into an incident never lowers the incident's severity.
pub proof fn lemma_escalation_never_lowers(current: Severity, incoming: Severity)
    ensures
        escalated_label(current.label(), incoming) == current.label() || (
        escalated_label(current.label(), incoming) == incoming.label() && current.rank()
            < incoming.rank()),
{
    reveal_strlit("info");
    reveal_strlit("low");
    reveal_strlit("medium");
    reveal_strlit("high");
    reveal_strlit("critical");
    assert("info"@[0] == 'i');
    assert("low"@[0] == 'l');
    assert("medium"@[0] == 'm');
    assert("high"@[0] == 'h');
    assert("critical"@[0] == 'c');
}

/// The incident statuses a user may set.
pub open spec fn is_incident_status(status: Seq<char>) -> bool {
    status == "open"@ || status == "investigating"@ || status == "resolved"@
}

/// Checks a requested incident status. On success returns whether the incident becomes
/// resolved, which is when its resolution time is recorded.
pub fn update_incident_status(status: &str) -> (r: Result<bool, String>)
    ensures
        r is Ok <==> is_incident_status(status@),
        r matches Ok(resolved) ==> resolved == (status@ == "resolved"@),
        r matches Err(m) ==> m@ == "지원하지 않는 Incident 상태입니다."@,
{
    if !(str_eq(status, "open") || str_eq(status, "investigating") || str_eq(status, "resolved")) {
        return Err("지원하지 않는 Incident 상태입니다.".to_owned());
    }
    Ok(str_eq(status, "resolved"))
}

} // verus!

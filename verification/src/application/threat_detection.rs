//! Whether and how one recorded file event is analysed.

use vstd::prelude::*;
use crate::domain::file_monitoring::FileEventKind;
use crate::domain::threat_detection::{
    assessment_of, detect_rule, FileEventContext, ThreatAssessment, ThreatDetectionService,
};
use crate::repository::models::FileEventAnalysisContext;

verus! {

/// Analyses one file event with what was read about it. Nothing is assessed when threat
/// detection is switched off or the path is on the allowlist; otherwise the event is
/// graded under the stored policy.
pub fn analyze_file_event(
    context: &FileEventAnalysisContext,
    path: &str,
    kind: FileEventKind,
) -> (r: Option<ThreatAssessment>)
    ensures
        r is None <==> (!context.threat_detection_enabled || context.allowlisted),
        r matches Some(a) ==> assessment_of(
            a,
            detect_rule(
                kind,
                path@,
                context.differs_from_baseline,
                context.recent_changes,
                context.policy,
            ),
            path@,
        ),
{
    if !context.threat_detection_enabled || context.allowlisted {
        return None;
    }
    Some(
        ThreatDetectionService::assess_file_event(
            FileEventContext {
                kind,
                path,
                differs_from_baseline: context.differs_from_baseline,
                recent_changes: context.recent_changes,
                policy: &context.policy,
            },
        ),
    )
}

} // verus!

//! The deterministic threat policy: how a file event is graded, how its incident is
//! keyed, and what each severity costs the security score.

use vstd::prelude::*;
use crate::domain::file_monitoring::FileEventKind;
use crate::domain::policy::{SecurityPolicy, Sensitivity};
use crate::text::{
    after_last, ascii_lowercase, ascii_lowercase_chars, chars_eq_str, chars_of, find_last,
    last_index_of, lemma_last_index_of, slice_chars, string_from_chars,
};

verus! {

/// Signals with the same correlation key inside this many seconds join one incident.
pub const CORRELATION_WINDOW_SECONDS: i64 = 300;

#[derive(Clone, Copy, Debug, PartialEq, Eq, Structural)]
pub enum Severity {
    Info,
    Low,
    Medium,
    High,
    Critical,
}

impl Severity {
    /// The stored name of the severity.
    pub open spec fn label(self) -> Seq<char> {
        match self {
            Severity::Info => "info"@,
            Severity::Low => "low"@,
            Severity::Medium => "medium"@,
            Severity::High => "high"@,
            Severity::Critical => "critical"@,
        }
    }

    /// How many points one open incident of this severity takes off the score.
    pub open spec fn penalty(self) -> i64 {
        match self {
            Severity::Info => 0,
            Severity::Low => 3,
            Severity::Medium => 10,
            Severity::High => 25,
            Severity::Critical => 45,
        }
    }

    /// Position in the order info < low < medium < high < critical.
    pub open spec fn rank(self) -> int {
        match self {
            Severity::Info => 0,
            Severity::Low => 1,
            Severity::Medium => 2,
            Severity::High => 3,
            Severity::Critical => 4,
        }
    }

    pub fn as_str(self) -> (s: &'static str)
        ensures
            s@ == self.label(),
    {
        match self {
            Severity::Info => "info",
            Severity::Low => "low",
            Severity::Medium => "medium",
            Severity::High => "high",
            Severity::Critical => "critical",
        }
    }

    pub fn score_penalty(self) -> (p: i64)
        ensures
            p == self.penalty(),
    {
        match self {
            Severity::Info => 0,
            Severity::Low => 3,
            Severity::Medium => 10,
            Severity::High => 25,
            Severity::Critical => 45,
        }
    }
}

/// A more severe finding never costs the score less.
pub proof fn lemma_penalty_monotone(a: Severity, b: Severity)
    requires
        a.rank() <= b.rank(),
    ensures
        a.penalty() <= b.penalty(),
{
}

/// Distinct severities are stored under distinct names.
pub proof fn lemma_label_injective(a: Severity, b: Severity)
    requires
        a.label() == b.label(),
    ensures
        a == b,
{
    reveal_strlit("info");
    reveal_strlit("low");
    reveal_strlit("medium");
    reveal_strlit("high");
    reveal_strlit("critical");
    assert("info"@[0] == 'i');
    assert("low"@[0] == 'l');
    assert("medium"@[0] == 'm');
    assert("high"@[0] == 'h');
    assert("critical"@[0] == 'c');
    if a != b {
        assert(a.label()[0] != b.label()[0]);
    }
}

/// What the detector knows about one file event.
#[derive(Clone, Debug)]
pub struct FileEventContext<'a> {
    pub kind: FileEventKind,
    pub path: &'a str,
    pub differs_from_baseline: bool,
    pub recent_changes: i64,
    pub policy: &'a SecurityPolicy,
}

/// The detector's verdict on one event.
#[derive(Clone, Debug)]
pub struct ThreatAssessment {
    pub event_type: &'static str,
    pub severity: Severity,
    pub title: &'static str,
    pub description: &'static str,
    pub correlation_key: String,
}

/// The rule of the threat policy that decides an event, from the most to the least urgent.
#[derive(Clone, Copy, Debug, PartialEq, Eq, Structural)]
pub enum DetectionRule {
    MassFileChange,
    SuspiciousIntegrityChange,
    IntegrityChanged,
    SuspiciousFileActivity,
    FileActivity,
}

impl DetectionRule {
    pub open spec fn event_type(self) -> Seq<char> {
        match self {
            DetectionRule::MassFileChange => "mass_file_change"@,
            DetectionRule::SuspiciousIntegrityChange => "suspicious_integrity_change"@,
            DetectionRule::IntegrityChanged => "integrity_changed"@,
            DetectionRule::SuspiciousFileActivity => "suspicious_file_activity"@,
            DetectionRule::FileActivity => "file_activity"@,
        }
    }

    pub open spec fn severity(self) -> Severity {
        match self {
            DetectionRule::MassFileChange => Severity::High,
            DetectionRule::SuspiciousIntegrityChange => Severity::High,
            DetectionRule::IntegrityChanged => Severity::Medium,
            DetectionRule::SuspiciousFileActivity => Severity::Low,
            DetectionRule::FileActivity => Severity::Info,
        }
    }

    pub open spec fn title(self) -> Seq<char> {
        match self {
            DetectionRule::MassFileChange => "대량 파일 변경 감지"@,
            DetectionRule::SuspiciousIntegrityChange => "의심스러운 파일 무결성 변경"@,
            DetectionRule::IntegrityChanged => "무결성 기준선과 다른 파일 활동"@,
            DetectionRule::SuspiciousFileActivity => "의심스러운 파일 활동"@,
            DetectionRule::FileActivity => "파일 활동 감지"@,
        }
    }

    pub open spec fn description(self) -> Seq<char> {
        match self {
            DetectionRule::MassFileChange => "짧은 시간에 다수의 파일 변경이 감지되었습니다."@,
            DetectionRule::SuspiciousIntegrityChange =>
                "기준선 파일의 실행 가능 또는 스크립트 파일 변경이 감지되었습니다."@,
            DetectionRule::IntegrityChanged =>
                "선택한 감시 폴더에서 기준선과 다른 파일 생성·변경·삭제가 감지되었습니다."@,
            DetectionRule::SuspiciousFileActivity =>
                "감시 폴더에서 실행 가능 또는 스크립트 파일 활동이 감지되었습니다."@,
            DetectionRule::FileActivity => "선택한 감시 폴더에서 파일 활동이 감지되었습니다."@,
        }
    }

    fn parts(self) -> (r: (&'static str, Severity, &'static str, &'static str))
        ensures
            r.0@ == self.event_type(),
            r.1 == self.severity(),
            r.2@ == self.title(),
            r.3@ == self.description(),
    {
        match self {
            DetectionRule::MassFileChange => (
                "mass_file_change",
                Severity::High,
                "대량 파일 변경 감지",
                "짧은 시간에 다수의 파일 변경이 감지되었습니다.",
            ),
            DetectionRule::SuspiciousIntegrityChange => (
                "suspicious_integrity_change",
                Severity::High,
                "의심스러운 파일 무결성 변경",
                "기준선 파일의 실행 가능 또는 스크립트 파일 변경이 감지되었습니다.",
            ),
            DetectionRule::IntegrityChanged => (
                "integrity_changed",
                Severity::Medium,
                "무결성 기준선과 다른 파일 활동",
                "선택한 감시 폴더에서 기준선과 다른 파일 생성·변경·삭제가 감지되었습니다.",
            ),
            DetectionRule::SuspiciousFileActivity => (
                "suspicious_file_activity",
                Severity::Low,
                "의심스러운 파일 활동",
                "감시 폴더에서 실행 가능 또는 스크립트 파일 활동이 감지되었습니다.",
            ),
            DetectionRule::FileActivity => (
                "file_activity",
                Severity::Info,
                "파일 활동 감지",
                "선택한 감시 폴더에서 파일 활동이 감지되었습니다.",
            ),
        }
    }
}

/// Recent changes at or above which a watch counts as being mass-changed.
pub open spec fn spec_mass_change_threshold(sensitivity: Sensitivity) -> i64 {
    match sensitivity {
        Sensitivity::Low => 35,
        Sensitivity::Medium => 20,
        Sensitivity::High => 10,
    }
}

/// The text after the last '.', compared without regard to ASCII case, is one of the
/// executable or script extensions exe, bat, cmd, ps1, js, vbs, scr.
pub open spec fn has_suspicious_extension(path: Seq<char>) -> bool {
    let e = ascii_lowercase(after_last(path, '.'));
    ||| e == "exe"@
    ||| e == "bat"@
    ||| e == "cmd"@
    ||| e == "ps1"@
    ||| e == "js"@
    ||| e == "vbs"@
    ||| e == "scr"@
}

/// The rule that grades an event; the first that applies wins.
pub open spec fn detect_rule(
    kind: FileEventKind,
    path: Seq<char>,
    differs_from_baseline: bool,
    recent_changes: i64,
    policy: SecurityPolicy,
) -> DetectionRule {
    if policy.features.mass_file_changes && recent_changes >= spec_mass_change_threshold(
        policy.sensitivity,
    ) {
        DetectionRule::MassFileChange
    } else if policy.features.integrity_changes && differs_from_baseline
        && has_suspicious_extension(path) {
        DetectionRule::SuspiciousIntegrityChange
    } else if policy.features.integrity_changes && differs_from_baseline {
        DetectionRule::IntegrityChanged
    } else if policy.features.suspicious_file_activity && has_suspicious_extension(path) && (
    kind == FileEventKind::Created || kind == FileEventKind::Modified) {
        DetectionRule::SuspiciousFileActivity
    } else {
        DetectionRule::FileActivity
    }
}

/// The folder part of a correlation key: the path segment before the last '/'
/// (`rsplit('/').nth(1)`), or the whole path when it has no '/'.
pub open spec fn correlation_scope(path: Seq<char>) -> Seq<char> {
    let j = last_index_of(path, '/');
    if j < 0 {
        path
    } else {
        path.subrange(last_index_of(path.take(j), '/') + 1, j)
    }
}

pub open spec fn context_rule(context: FileEventContext) -> DetectionRule {
    detect_rule(
        context.kind,
        context.path@,
        context.differs_from_baseline,
        context.recent_changes,
        *context.policy,
    )
}

/// `a` is the assessment that `rule` gives an event on `path`.
pub open spec fn assessment_of(a: ThreatAssessment, rule: DetectionRule, path: Seq<char>) -> bool {
    &&& a.event_type@ == rule.event_type()
    &&& a.severity == rule.severity()
    &&& a.title@ == rule.title()
    &&& a.description@ == rule.description()
    &&& a.correlation_key@ == rule.event_type() + ":"@ + correlation_scope(path)
}

pub struct ThreatDetectionService;

impl ThreatDetectionService {
    pub const MASS_CHANGE_THRESHOLD: i64 = 20;

    /// Grades one file event under the policy: mass change, then a suspicious baseline
    /// change, then any baseline change, then suspicious activity, else plain activity.
    /// The correlation key is the event type, ':' and the folder the file sits in.
    pub fn assess_file_event(context: FileEventContext<'_>) -> (a: ThreatAssessment)
        ensures
            assessment_of(a, context_rule(context), context.path@),
    {
        let chars = chars_of(context.path);
        proof {
            lemma_last_index_of(chars@, '.');
            lemma_last_index_of(chars@, '/');
        }
        let extension_start = match find_last(&chars, '.') {
            Some(i) => i + 1,
            None => 0,
        };
        let extension = slice_chars(&chars, extension_start, chars.len());
        let lowered = ascii_lowercase_chars(&extension);
        let suspicious_extension = chars_eq_str(&lowered, "exe") || chars_eq_str(&lowered, "bat")
            || chars_eq_str(&lowered, "cmd") || chars_eq_str(&lowered, "ps1") || chars_eq_str(
            &lowered,
            "js",
        ) || chars_eq_str(&lowered, "vbs") || chars_eq_str(&lowered, "scr");
        assert(suspicious_extension == has_suspicious_extension(context.path@));
        let policy = context.policy;
        let rule = if policy.features.mass_file_changes && context.recent_changes
            >= mass_change_threshold(policy) {
            DetectionRule::MassFileChange
        } else if policy.features.integrity_changes && context.differs_from_baseline
            && suspicious_extension {
            DetectionRule::SuspiciousIntegrityChange
        } else if policy.features.integrity_changes && context.differs_from_baseline {
            DetectionRule::IntegrityChanged
        } else if policy.features.suspicious_file_activity && suspicious_extension && (
        context.kind == FileEventKind::Created || context.kind == FileEventKind::Modified) {
            DetectionRule::SuspiciousFileActivity
        } else {
            DetectionRule::FileActivity
        };
        let (event_type, severity, title, description) = rule.parts();
        let scope = match find_last(&chars, '/') {
            None => slice_chars(&chars, 0, chars.len()),
            Some(j) => {
                let before = slice_chars(&chars, 0, j);
                assert(before@ =~= chars@.take(j as int));
                proof {
                    lemma_last_index_of(before@, '/');
                }
                let start = match find_last(&before, '/') {
                    Some(k) => k + 1,
                    None => 0,
                };
                slice_chars(&chars, start, j)
            },
        };
        assert(scope@ =~= correlation_scope(context.path@));
        let mut correlation_key = event_type.to_owned();
        correlation_key.append(":");
        let scope_text = string_from_chars(&scope);
        correlation_key.append(scope_text.as_str());
        ThreatAssessment { event_type, severity, title, description, correlation_key }
    }
}

/// How sensitive a policy is: low < medium < high.
pub open spec fn sensitivity_rank(s: Sensitivity) -> int {
    match s {
        Sensitivity::Low => 0,
        Sensitivity::Medium => 1,
        Sensitivity::High => 2,
    }
}

/// A more sensitive policy flags mass changes at a lower count.
pub proof fn lemma_threshold_falls_with_sensitivity(a: Sensitivity, b: Sensitivity)
    requires
        sensitivity_rank(a) <= sensitivity_rank(b),
    ensures
        spec_mass_change_threshold(b) <= spec_mass_change_threshold(a),
{
}

/// Whenever mass-change detection is on and the recent changes reach the threshold, the
/// event is a high-severity mass change, whatever else is true of it.
pub proof fn lemma_mass_change_dominates(
    kind: FileEventKind,
    path: Seq<char>,
    differs_from_baseline: bool,
    recent_changes: i64,
    policy: SecurityPolicy,
)
    requires
        policy.features.mass_file_changes,
        recent_changes >= spec_mass_change_threshold(policy.sensitivity),
    ensures
        detect_rule(kind, path, differs_from_baseline, recent_changes, policy)
            == DetectionRule::MassFileChange,
        detect_rule(kind, path, differs_from_baseline, recent_changes, policy).severity()
            == Severity::High,
{
}

/// Raising the sensitivity, with the same signals enabled, keeps a mass change a mass
/// change.
pub proof fn lemma_sensitivity_keeps_mass_change(
    kind: FileEventKind,
    path: Seq<char>,
    differs_from_baseline: bool,
    recent_changes: i64,
    less: SecurityPolicy,
    more: SecurityPolicy,
)
    requires
        less.features == more.features,
        sensitivity_rank(less.sensitivity) <= sensitivity_rank(more.sensitivity),
        detect_rule(kind, path, differs_from_baseline, recent_changes, less)
            == DetectionRule::MassFileChange,
    ensures
        detect_rule(kind, path, differs_from_baseline, recent_changes, more)
            == DetectionRule::MassFileChange,
{
}

/// A baseline departure of an ordinary file, with integrity checks on and no mass
/// change, is an `integrity_changed` signal of medium severity.
pub proof fn lemma_baseline_departure_is_medium(
    kind: FileEventKind,
    path: Seq<char>,
    recent_changes: i64,
    policy: SecurityPolicy,
)
    requires
        policy.features.integrity_changes,
        !has_suspicious_extension(path),
        !(policy.features.mass_file_changes && recent_changes >= spec_mass_change_threshold(
            policy.sensitivity,
        )),
    ensures
        detect_rule(kind, path, true, recent_changes, policy) == DetectionRule::IntegrityChanged,
        detect_rule(kind, path, true, recent_changes, policy).severity() == Severity::Medium,
{
}

/// With mass-change, integrity and suspicious-activity detection all off, every event is
/// plain informational activity.
pub proof fn lemma_disabled_signals_give_activity(
    kind: FileEventKind,
    path: Seq<char>,
    differs_from_baseline: bool,
    recent_changes: i64,
    policy: SecurityPolicy,
)
    requires
        !policy.features.mass_file_changes,
        !policy.features.integrity_changes,
        !policy.features.suspicious_file_activity,
    ensures
        detect_rule(kind, path, differs_from_baseline, recent_changes, policy)
            == DetectionRule::FileActivity,
        detect_rule(kind, path, differs_from_baseline, recent_changes, policy).severity()
            == Severity::Info,
{
}

/// A created or modified file whose lowercased extension is one of exe, bat, cmd, ps1, js,
/// vbs or scr, with suspicious-activity detection on, no mass change and no baseline
/// departure under integrity checks, is a low-severity `suspicious_file_activity` signal.
pub proof fn lemma_script_activity_is_suspicious(
    kind: FileEventKind,
    path: Seq<char>,
    differs_from_baseline: bool,
    recent_changes: i64,
    policy: SecurityPolicy,
)
    requires
        kind == FileEventKind::Created || kind == FileEventKind::Modified,
        ({
            let e = ascii_lowercase(after_last(path, '.'));
            e == "exe"@ || e == "bat"@ || e == "cmd"@ || e == "ps1"@ || e == "js"@ || e == "vbs"@
                || e == "scr"@
        }),
        policy.features.suspicious_file_activity,
        !(policy.features.mass_file_changes && recent_changes >= spec_mass_change_threshold(
            policy.sensitivity,
        )),
        !(policy.features.integrity_changes && differs_from_baseline),
    ensures
        detect_rule(kind, path, differs_from_baseline, recent_changes, policy)
            == DetectionRule::SuspiciousFileActivity,
        detect_rule(kind, path, differs_from_baseline, recent_changes, policy).event_type()
            == "suspicious_file_activity"@,
        detect_rule(kind, path, differs_from_baseline, recent_changes, policy).severity()
            == Severity::Low,
{
}

/// An event whose extension is not one of the executable or script extensions, or that
/// neither creates nor modifies a file, is never graded suspicious activity.
pub proof fn lemma_suspicious_activity_needs_script_creation_or_change(
    kind: FileEventKind,
    path: Seq<char>,
    differs_from_baseline: bool,
    recent_changes: i64,
    policy: SecurityPolicy,
)
    requires
        detect_rule(kind, path, differs_from_baseline, recent_changes, policy)
            == DetectionRule::SuspiciousFileActivity,
    ensures
        kind == FileEventKind::Created || kind == FileEventKind::Modified,
        policy.features.suspicious_file_activity,
        ({
            let e = ascii_lowercase(after_last(path, '.'));
            e == "exe"@ || e == "bat"@ || e == "cmd"@ || e == "ps1"@ || e == "js"@ || e == "vbs"@
                || e == "scr"@
        }),
{
}

/// A baseline departure of an executable or script file, with integrity checks on and no
/// mass change, is a high-severity `suspicious_integrity_change` signal, whatever the kind.
pub proof fn lemma_script_baseline_departure_is_high(
    kind: FileEventKind,
    path: Seq<char>,
    recent_changes: i64,
    policy: SecurityPolicy,
)
    requires
        ({
            let e = ascii_lowercase(after_last(path, '.'));
            e == "exe"@ || e == "bat"@ || e == "cmd"@ || e == "ps1"@ || e == "js"@ || e == "vbs"@
                || e == "scr"@
        }),
        policy.features.integrity_changes,
        !(policy.features.mass_file_changes && recent_changes >= spec_mass_change_threshold(
            policy.sensitivity,
        )),
    ensures
        detect_rule(kind, path, true, recent_changes, policy)
            == DetectionRule::SuspiciousIntegrityChange,
        detect_rule(kind, path, true, recent_changes, policy).event_type()
            == "suspicious_integrity_change"@,
        detect_rule(kind, path, true, recent_changes, policy).severity() == Severity::High,
{
}

/// The folder part of a correlation key is the name of the folder the file sits in: the
/// path is some prefix (empty or ending in '/'), then the scope, then '/', then the file
/// name, and neither the scope nor the file name holds a '/'. A path without '/' is its
/// own scope.
pub proof fn lemma_correlation_scope_is_parent_folder(path: Seq<char>)
    ensures
        (forall|i: int| 0 <= i < path.len() ==> #[trigger] path[i] != '/') ==> correlation_scope(path)
            == path,
        (exists|i: int| 0 <= i < path.len() && #[trigger] path[i] == '/') ==> exists|
            prefix: Seq<char>,
            name: Seq<char>,
        |
            {
                &&& path == prefix + correlation_scope(path) + seq!['/'] + name
                &&& (prefix.len() == 0 || prefix.last() == '/')
                &&& forall|i: int| 0 <= i < correlation_scope(path).len() ==> #[trigger] correlation_scope(path)[i] != '/'
                &&& forall|i: int| 0 <= i < name.len() ==> #[trigger] name[i] != '/'
            },
{
    lemma_last_index_of(path, '/');
    let j = last_index_of(path, '/');
    if j >= 0 {
        let before = path.take(j);
        lemma_last_index_of(before, '/');
        let k = last_index_of(before, '/');
        let scope = correlation_scope(path);
        let prefix = path.take(k + 1);
        let name = path.skip(j + 1);
        assert(scope =~= path.subrange(k + 1, j));
        assert(path =~= prefix + scope + seq!['/'] + name);
        assert forall|i: int| 0 <= i < scope.len() implies #[trigger] scope[i] != '/' by {
            assert(scope[i] == before[k + 1 + i]);
        }
        assert forall|i: int| 0 <= i < name.len() implies #[trigger] name[i] != '/' by {
            assert(name[i] == path[j + 1 + i]);
        }
        if prefix.len() > 0 {
            assert(prefix.last() == before[k]);
        }
    } else {
        assert(path.subrange(0, path.len() as int) =~= path);
    }
}

fn mass_change_threshold(policy: &SecurityPolicy) -> (t: i64)
    ensures
        t == spec_mass_change_threshold(policy.sensitivity),
{
    match policy.sensitivity {
        Sensitivity::Low => 35,
        Sensitivity::Medium => ThreatDetectionService::MASS_CHANGE_THRESHOLD,
        Sensitivity::High => 10,
    }
}

} // verus!

//! Local storage: the row shapes that cross the storage boundary and the decisions the
//! storage layer makes around its queries.

pub mod allowlist;
pub mod file_events;
pub mod models;
pub mod monitored_paths;
pub mod policy;
pub mod reports;
pub mod security_events;
pub mod settings;

use vstd::prelude::*;

verus! {

/// The schema version the migrations bring a database to.
pub const SCHEMA_VERSION: i64 = 6;

/// One step of bringing an existing database up to date.
#[derive(Clone, Copy, Debug, PartialEq, Eq, Structural)]
pub enum MigrationStep {
    /// The file-monitoring columns already exist: only record schema version 2.
    RecordFileMonitoringVersion,
    /// Apply `0002_file_monitoring.sql`.
    FileMonitoring,
    /// Apply `0003_threat_detection.sql`.
    ThreatDetection,
    /// Apply `0004_security_management.sql`.
    SecurityManagement,
    /// Apply `0005_performance.sql`.
    Performance,
    /// Apply `0006_allowlist_and_detection_policy.sql`.
    AllowlistAndDetectionPolicy,
}

impl MigrationStep {
    /// The schema version the step brings the database to.
    pub open spec fn version(self) -> int {
        match self {
            MigrationStep::RecordFileMonitoringVersion => 2,
            MigrationStep::FileMonitoring => 2,
            MigrationStep::ThreatDetection => 3,
            MigrationStep::SecurityManagement => 4,
            MigrationStep::Performance => 5,
            MigrationStep::AllowlistAndDetectionPolicy => 6,
        }
    }
}

/// The steps for a database at `current` (after the base schema): every later version
/// in order, where version 2 is only recorded when its columns already exist.
pub open spec fn spec_migration_plan(current: i64, file_monitoring_columns_present: bool) -> Seq<
    MigrationStep,
> {
    (if current < 2 {
        if file_monitoring_columns_present {
            seq![MigrationStep::RecordFileMonitoringVersion]
        } else {
            seq![MigrationStep::FileMonitoring]
        }
    } else {
        Seq::empty()
    }) + (if current < 3 {
        seq![MigrationStep::ThreatDetection]
    } else {
        Seq::empty()
    }) + (if current < 4 {
        seq![MigrationStep::SecurityManagement]
    } else {
        Seq::empty()
    }) + (if current < 5 {
        seq![MigrationStep::Performance]
    } else {
        Seq::empty()
    }) + (if current < 6 {
        seq![MigrationStep::AllowlistAndDetectionPolicy]
    } else {
        Seq::empty()
    })
}

/// The migrations to run on opening a database whose highest recorded schema version
/// is `current_version`. `file_monitoring_columns_present` says whether the columns of
/// version 2 exist already; it is only consulted below version 2.
pub fn migration_plan(current_version: i64, file_monitoring_columns_present: bool) -> (plan: Vec<
    MigrationStep,
>)
    ensures
        plan@ == spec_migration_plan(current_version, file_monitoring_columns_present),
{
    let mut plan: Vec<MigrationStep> = Vec::new();
    if current_version < 2 {
        if file_monitoring_columns_present {
            plan.push(MigrationStep::RecordFileMonitoringVersion);
        } else {
            plan.push(MigrationStep::FileMonitoring);
        }
    }
    if current_version < 3 {
        plan.push(MigrationStep::ThreatDetection);
    }
    if current_version < 4 {
        plan.push(MigrationStep::SecurityManagement);
    }
    if current_version < 5 {
        plan.push(MigrationStep::Performance);
    }
    if current_version < 6 {
        plan.push(MigrationStep::AllowlistAndDetectionPolicy);
    }
    assert(plan@ =~= spec_migration_plan(current_version, file_monitoring_columns_present));
    plan
}

/// Each migration runs once: the steps raise the version strictly, each lies above the
/// current version, a database below the schema version ends at it, and an up-to-date
/// database gets no step.
pub proof fn lemma_migrations_apply_once(current: i64, columns_present: bool)
    ensures
        forall|i: int, j: int|
            0 <= i < j < spec_migration_plan(current, columns_present).len() ==> (#[trigger] spec_migration_plan(
                current,
                columns_present,
            )[i]).version() < (#[trigger] spec_migration_plan(current, columns_present)[j]).version(),
        forall|i: int|
            0 <= i < spec_migration_plan(current, columns_present).len() ==> current < (
            #[trigger] spec_migration_plan(current, columns_present)[i]).version() <= SCHEMA_VERSION,
        current < SCHEMA_VERSION ==> spec_migration_plan(current, columns_present).len() > 0
            && spec_migration_plan(current, columns_present).last().version() == SCHEMA_VERSION,
        current >= SCHEMA_VERSION ==> spec_migration_plan(current, columns_present).len() == 0,
{
    let p = spec_migration_plan(current, columns_present);
    if current < 2 {
        assert(p =~= seq![
            if columns_present { MigrationStep::RecordFileMonitoringVersion } else { MigrationStep::FileMonitoring },
            MigrationStep::ThreatDetection,
            MigrationStep::SecurityManagement,
            MigrationStep::Performance,
            MigrationStep::AllowlistAndDetectionPolicy,
        ]);
    } else if current < 3 {
        assert(p =~= seq![
            MigrationStep::ThreatDetection,
            MigrationStep::SecurityManagement,
            MigrationStep::Performance,
            MigrationStep::AllowlistAndDetectionPolicy,
        ]);
    } else if current < 4 {
        assert(p =~= seq![
            MigrationStep::SecurityManagement,
            MigrationStep::Performance,
            MigrationStep::AllowlistAndDetectionPolicy,
        ]);
    } else if current < 5 {
        assert(p =~= seq![MigrationStep::Performance, MigrationStep::AllowlistAndDetectionPolicy]);
    } else if current < 6 {
        assert(p =~= seq![MigrationStep::AllowlistAndDetectionPolicy]);
    } else {
        assert(p =~= Seq::<MigrationStep>::empty());
    }
}

} // verus!

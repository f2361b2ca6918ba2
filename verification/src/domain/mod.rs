//! Platform-independent models and rules.

pub mod file_monitoring;
pub mod monitoring;
pub mod policy;
pub mod security_management;
pub mod threat_detection;

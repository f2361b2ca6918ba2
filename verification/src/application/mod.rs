//! Use cases: the decisions the application makes between the rules in `domain` and the
//! storage and watchers around it.

pub mod baseline;
pub mod error;
pub mod file_monitoring;
pub mod monitoring;
pub mod security_management;
pub mod threat_detection;

use vstd::prelude::*;
use crate::platform::{capabilities, operating_system, spec_capabilities, spec_operating_system, PlatformCapability};

verus! {

pub struct AppStatus {
    pub app_version: &'static str,
    pub operating_system: &'static str,
    pub capabilities: Vec<PlatformCapability>,
}

/// The status shown on the start screen: this build's version, the display name of the
/// operating system it was built for (`target_os` as `std::env::consts::OS` names it),
/// and the platform capabilities.
pub fn app_status(app_version: &'static str, target_os: &str) -> (s: AppStatus)
    ensures
        s.app_version == app_version,
        s.operating_system@ == spec_operating_system(target_os@),
        s.capabilities@ == spec_capabilities(),
{
    AppStatus {
        app_version,
        operating_system: operating_system(target_os),
        capabilities: capabilities(),
    }
}

} // verus!

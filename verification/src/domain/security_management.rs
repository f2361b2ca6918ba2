//! User-facing application settings and their validation.

use vstd::prelude::*;
use crate::text::str_eq;

verus! {

#[derive(Clone, Debug)]
pub struct ApplicationSettings {
    pub monitoring_enabled: bool,
    pub threat_detection_enabled: bool,
    pub auto_baseline_refresh: bool,
    pub security_score_enabled: bool,
    pub log_retention_days: i64,
    pub ui_theme: String,
}

/// The UI themes the application supports.
pub open spec fn is_supported_theme(theme: Seq<char>) -> bool {
    theme == "system"@ || theme == "light"@ || theme == "dark"@
}

impl ApplicationSettings {
    pub open spec fn is_valid(&self) -> bool {
        &&& 1 <= self.log_retention_days <= 3650
        &&& is_supported_theme(self.ui_theme@)
    }

    /// Retention must be 1 to 3650 days and the theme one of system, light or dark.
    pub fn validate(&self) -> (r: Result<(), &'static str>)
        ensures
            r is Ok <==> self.is_valid(),
            !(1 <= self.log_retention_days <= 3650) ==> (r matches Err(m) && m@
                == "로그 보관 기간은 1~3650일이어야 합니다."@),
            1 <= self.log_retention_days <= 3650 && !self.is_valid() ==> (r matches Err(m) && m@
                == "지원하지 않는 UI 테마입니다."@),
    {
        if !(1 <= self.log_retention_days && self.log_retention_days <= 3650) {
            return Err("로그 보관 기간은 1~3650일이어야 합니다.");
        }
        let theme = self.ui_theme.as_str();
        if !(str_eq(theme, "system") || str_eq(theme, "light") || str_eq(theme, "dark")) {
            return Err("지원하지 않는 UI 테마입니다.");
        }
        Ok(())
    }
}

impl Default for ApplicationSettings {
    /// Monitoring, detection and the score on; baseline refresh off; 90 days; system theme.
    fn default() -> (s: Self)
        ensures
            s.monitoring_enabled,
            s.threat_detection_enabled,
            !s.auto_baseline_refresh,
            s.security_score_enabled,
            s.log_retention_days == 90,
            s.ui_theme@ == "system"@,
    {
        ApplicationSettings {
            monitoring_enabled: true,
            threat_detection_enabled: true,
            auto_baseline_refresh: false,
            security_score_enabled: true,
            log_retention_days: 90,
            ui_theme: "system".to_owned(),
        }
    }
}

/// The default settings pass validation.
pub proof fn lemma_default_settings_are_valid(s: ApplicationSettings)
    requires
        s.log_retention_days == 90,
        s.ui_theme@ == "system"@,
    ensures
        s.is_valid(),
{
}

} // verus!

//! Settings changes requested by the user.

use vstd::prelude::*;
use crate::domain::security_management::ApplicationSettings;

verus! {

/// Accepts new settings only when they validate; the accepted settings are what is
/// stored and returned to the caller.
pub fn update_settings(settings: ApplicationSettings) -> (r: Result<ApplicationSettings, String>)
    ensures
        r is Ok <==> settings.is_valid(),
        r matches Ok(s) ==> s == settings,
        !(1 <= settings.log_retention_days <= 3650) ==> (r matches Err(m) && m@
            == "로그 보관 기간은 1~3650일이어야 합니다."@),
        1 <= settings.log_retention_days <= 3650 && !settings.is_valid() ==> (r matches Err(m)
            && m@ == "지원하지 않는 UI 테마입니다."@),
{
    match settings.validate() {
        Ok(()) => Ok(settings),
        Err(message) => Err(message.to_owned()),
    }
}

} // verus!

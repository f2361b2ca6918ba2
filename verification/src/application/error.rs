//! Application errors and the stable, user-facing form each one is shown in.

use vstd::prelude::*;

verus! {

#[derive(Clone, Copy, Debug, PartialEq, Eq, Structural)]
pub enum AppError {
    PermissionDenied,
    InvalidPolicy,
    UnsupportedFeature,
    TemporarilyUnavailable,
}

impl AppError {
    /// The short English description of the error.
    pub fn message(&self) -> (m: &'static str)
        ensures
            m@ == self.spec_message(),
    {
        match self {
            AppError::PermissionDenied => "permission denied",
            AppError::InvalidPolicy => "invalid security policy",
            AppError::UnsupportedFeature => "feature is not supported on this platform",
            AppError::TemporarilyUnavailable => "temporary service failure",
        }
    }

    pub open spec fn spec_message(&self) -> Seq<char> {
        match self {
            AppError::PermissionDenied => "permission denied"@,
            AppError::InvalidPolicy => "invalid security policy"@,
            AppError::UnsupportedFeature => "feature is not supported on this platform"@,
            AppError::TemporarilyUnavailable => "temporary service failure"@,
        }
    }
}

#[derive(Clone, Copy, Debug)]
pub struct UserFacingError {
    pub code: &'static str,
    pub message: &'static str,
    pub action: &'static str,
    pub retryable: bool,
}

/// The user-facing form of each error: a stable code, a message, a suggested action and
/// whether retrying can help.
pub open spec fn user_facing(error: AppError) -> UserFacingError {
    match error {
        AppError::PermissionDenied => UserFacingError {
            code: "permission_denied",
            message: "이 기능을 사용하려면 추가 권한이 필요합니다.",
            action: "권한을 확인한 후 다시 시도하세요.",
            retryable: true,
        },
        AppError::InvalidPolicy => UserFacingError {
            code: "invalid_policy",
            message: "보안 정책을 적용할 수 없습니다.",
            action: "기본 설정으로 복구하세요.",
            retryable: false,
        },
        AppError::UnsupportedFeature => UserFacingError {
            code: "unsupported_feature",
            message: "현재 운영체제에서 이 기능을 지원하지 않습니다.",
            action: "지원 상태를 확인하세요.",
            retryable: false,
        },
        AppError::TemporarilyUnavailable => UserFacingError {
            code: "temporarily_unavailable",
            message: "기능을 지금 사용할 수 없습니다.",
            action: "잠시 후 다시 시도하세요.",
            retryable: true,
        },
    }
}

impl From<AppError> for UserFacingError {
    fn from(error: AppError) -> (r: Self) {
        match error {
            AppError::PermissionDenied => UserFacingError {
                code: "permission_denied",
                message: "이 기능을 사용하려면 추가 권한이 필요합니다.",
                action: "권한을 확인한 후 다시 시도하세요.",
                retryable: true,
            },
            AppError::InvalidPolicy => UserFacingError {
                code: "invalid_policy",
                message: "보안 정책을 적용할 수 없습니다.",
                action: "기본 설정으로 복구하세요.",
                retryable: false,
            },
            AppError::UnsupportedFeature => UserFacingError {
                code: "unsupported_feature",
                message: "현재 운영체제에서 이 기능을 지원하지 않습니다.",
                action: "지원 상태를 확인하세요.",
                retryable: false,
            },
            AppError::TemporarilyUnavailable => UserFacingError {
                code: "temporarily_unavailable",
                message: "기능을 지금 사용할 수 없습니다.",
                action: "잠시 후 다시 시도하세요.",
                retryable: true,
            },
        }
    }
}

impl vstd::std_specs::convert::FromSpecImpl<AppError> for UserFacingError {
    open spec fn obeys_from_spec() -> bool {
        true
    }

    open spec fn from_spec(v: AppError) -> UserFacingError {
        user_facing(v)
    }
}

/// Distinct errors keep distinct codes, so the UI can rely on the code alone.
pub proof fn lemma_user_codes_are_distinct(a: AppError, b: AppError)
    requires
        a != b,
    ensures
        user_facing(a).code@ != user_facing(b).code@,
{
    reveal_strlit("permission_denied");
    reveal_strlit("invalid_policy");
    reveal_strlit("unsupported_feature");
    reveal_strlit("temporarily_unavailable");
    assert("permission_denied"@[0] == 'p');
    assert("invalid_policy"@[0] == 'i');
    assert("unsupported_feature"@[0] == 'u');
    assert("temporarily_unavailable"@[0] == 't');
    assert(user_facing(a).code@[0] != user_facing(b).code@[0]);
}

} // verus!

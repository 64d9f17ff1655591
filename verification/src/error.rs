//! The service's errors: a code, a message, an HTTP status and whether the
//! message may be shown as it is.
use vstd::prelude::*;

use crate::text::concat3;

verus! {

/// What went wrong, as reported to clients.
#[derive(Debug, Clone, Copy, PartialEq, Eq, Structural)]
pub enum ErrorCode {
    AdminUnauthorized,
    SourceNotFound,
    SourceDisabled,
    AccountNotFound,
    AccountDisabled,
    AccountNotVip,
    LoginSessionNotFound,
    UpstreamRequestFailed,
    UpstreamLoginFailed,
    UpstreamVipCheckFailed,
    UpstreamPlayUrlEmpty,
    InvalidRequest,
    InternalError,
}

/// The name of a code as `{:?}` writes it.
pub open spec fn code_name(c: ErrorCode) -> Seq<char> {
    match c {
        ErrorCode::AdminUnauthorized => "AdminUnauthorized"@,
        ErrorCode::SourceNotFound => "SourceNotFound"@,
        ErrorCode::SourceDisabled => "SourceDisabled"@,
        ErrorCode::AccountNotFound => "AccountNotFound"@,
        ErrorCode::AccountDisabled => "AccountDisabled"@,
        ErrorCode::AccountNotVip => "AccountNotVip"@,
        ErrorCode::LoginSessionNotFound => "LoginSessionNotFound"@,
        ErrorCode::UpstreamRequestFailed => "UpstreamRequestFailed"@,
        ErrorCode::UpstreamLoginFailed => "UpstreamLoginFailed"@,
        ErrorCode::UpstreamVipCheckFailed => "UpstreamVipCheckFailed"@,
        ErrorCode::UpstreamPlayUrlEmpty => "UpstreamPlayUrlEmpty"@,
        ErrorCode::InvalidRequest => "InvalidRequest"@,
        ErrorCode::InternalError => "InternalError"@,
    }
}

/// Codes whose message is replaced by `"internal error"` for non-admin callers.
pub open spec fn is_hidden_code(c: ErrorCode) -> bool {
    ||| c == ErrorCode::UpstreamRequestFailed
    ||| c == ErrorCode::UpstreamLoginFailed
    ||| c == ErrorCode::UpstreamVipCheckFailed
    ||| c == ErrorCode::InternalError
}

impl ErrorCode {
    /// The name of the code as `{:?}` writes it.
    pub fn name(&self) -> (r: &'static str)
        ensures
            r@ == code_name(*self),
    {
        match self {
            ErrorCode::AdminUnauthorized => "AdminUnauthorized",
            ErrorCode::SourceNotFound => "SourceNotFound",
            ErrorCode::SourceDisabled => "SourceDisabled",
            ErrorCode::AccountNotFound => "AccountNotFound",
            ErrorCode::AccountDisabled => "AccountDisabled",
            ErrorCode::AccountNotVip => "AccountNotVip",
            ErrorCode::LoginSessionNotFound => "LoginSessionNotFound",
            ErrorCode::UpstreamRequestFailed => "UpstreamRequestFailed",
            ErrorCode::UpstreamLoginFailed => "UpstreamLoginFailed",
            ErrorCode::UpstreamVipCheckFailed => "UpstreamVipCheckFailed",
            ErrorCode::UpstreamPlayUrlEmpty => "UpstreamPlayUrlEmpty",
            ErrorCode::InvalidRequest => "InvalidRequest",
            ErrorCode::InternalError => "InternalError",
        }
    }
}

/// An error of the service.
#[derive(Debug)]
pub struct AppError {
    pub code: ErrorCode,
    pub message: String,
    /// The HTTP status code of the response.
    pub status: u16,
    /// Whether the message is shown as it is, whatever the code.
    pub is_admin: bool,
}

impl Clone for AppError {
    fn clone(&self) -> (r: Self)
        ensures
            r == *self,
    {
        AppError {
            code: self.code,
            message: self.message.clone(),
            status: self.status,
            is_admin: self.is_admin,
        }
    }
}

/// The message that a response shows for an error.
pub open spec fn public_message_seq(e: AppError) -> Seq<char> {
    if !e.is_admin && is_hidden_code(e.code) {
        "internal error"@
    } else {
        e.message@
    }
}

/// What `{}` writes for an error: the code's name, `": "`, the message.
pub open spec fn describe_seq(e: AppError) -> Seq<char> {
    code_name(e.code) + ": "@ + e.message@
}

/// A response never shows the message of an upstream or internal error to a
/// non-admin caller: it shows `"internal error"`; admin errors and the other
/// codes show their message.
pub proof fn law_hidden_messages(e: AppError)
    ensures
        !e.is_admin && is_hidden_code(e.code) ==> public_message_seq(e) == "internal error"@,
        e.is_admin || !is_hidden_code(e.code) ==> public_message_seq(e) == e.message@,
{
}

impl AppError {
    pub fn admin_unauthorized() -> (r: Self)
        ensures
            r.code == ErrorCode::AdminUnauthorized,
            r.message@ == "unauthorized"@,
            r.status == 401,
            !r.is_admin,
    {
        AppError {
            code: ErrorCode::AdminUnauthorized,
            message: String::from_str("unauthorized"),
            status: 401,
            is_admin: false,
        }
    }

    pub fn source_not_found() -> (r: Self)
        ensures
            r.code == ErrorCode::SourceNotFound,
            r.message@ == "source not found"@,
            r.status == 404,
            !r.is_admin,
    {
        AppError {
            code: ErrorCode::SourceNotFound,
            message: String::from_str("source not found"),
            status: 404,
            is_admin: false,
        }
    }

    pub fn source_disabled() -> (r: Self)
        ensures
            r.code == ErrorCode::SourceDisabled,
            r.message@ == "source is disabled"@,
            r.status == 403,
            !r.is_admin,
    {
        AppError {
            code: ErrorCode::SourceDisabled,
            message: String::from_str("source is disabled"),
            status: 403,
            is_admin: false,
        }
    }

    pub fn account_not_found() -> (r: Self)
        ensures
            r.code == ErrorCode::AccountNotFound,
            r.message@ == "account not found"@,
            r.status == 404,
            !r.is_admin,
    {
        AppError {
            code: ErrorCode::AccountNotFound,
            message: String::from_str("account not found"),
            status: 404,
            is_admin: false,
        }
    }

    pub fn account_disabled() -> (r: Self)
        ensures
            r.code == ErrorCode::AccountDisabled,
            r.message@ == "account is disabled"@,
            r.status == 403,
            !r.is_admin,
    {
        AppError {
            code: ErrorCode::AccountDisabled,
            message: String::from_str("account is disabled"),
            status: 403,
            is_admin: false,
        }
    }

    pub fn account_not_vip() -> (r: Self)
        ensures
            r.code == ErrorCode::AccountNotVip,
            r.message@ == "account vip is not active"@,
            r.status == 403,
            !r.is_admin,
    {
        AppError {
            code: ErrorCode::AccountNotVip,
            message: String::from_str("account vip is not active"),
            status: 403,
            is_admin: false,
        }
    }

    pub fn login_session_not_found() -> (r: Self)
        ensures
            r.code == ErrorCode::LoginSessionNotFound,
            r.message@ == "login session not found"@,
            r.status == 404,
            r.is_admin,
    {
        AppError {
            code: ErrorCode::LoginSessionNotFound,
            message: String::from_str("login session not found"),
            status: 404,
            is_admin: true,
        }
    }

    pub fn upstream_request_failed(msg: &str) -> (r: Self)
        ensures
            r.code == ErrorCode::UpstreamRequestFailed,
            r.message@ == msg@,
            r.status == 502,
            r.is_admin,
    {
        AppError {
            code: ErrorCode::UpstreamRequestFailed,
            message: String::from_str(msg),
            status: 502,
            is_admin: true,
        }
    }

    pub fn upstream_login_failed(msg: &str) -> (r: Self)
        ensures
            r.code == ErrorCode::UpstreamLoginFailed,
            r.message@ == msg@,
            r.status == 502,
            r.is_admin,
    {
        AppError {
            code: ErrorCode::UpstreamLoginFailed,
            message: String::from_str(msg),
            status: 502,
            is_admin: true,
        }
    }

    pub fn upstream_vip_check_failed(msg: &str) -> (r: Self)
        ensures
            r.code == ErrorCode::UpstreamVipCheckFailed,
            r.message@ == msg@,
            r.status == 502,
            r.is_admin,
    {
        AppError {
            code: ErrorCode::UpstreamVipCheckFailed,
            message: String::from_str(msg),
            status: 502,
            is_admin: true,
        }
    }

    pub fn upstream_play_url_empty() -> (r: Self)
        ensures
            r.code == ErrorCode::UpstreamPlayUrlEmpty,
            r.message@ == "play url unavailable"@,
            r.status == 404,
            !r.is_admin,
    {
        AppError {
            code: ErrorCode::UpstreamPlayUrlEmpty,
            message: String::from_str("play url unavailable"),
            status: 404,
            is_admin: false,
        }
    }

    pub fn invalid_request(msg: &str) -> (r: Self)
        ensures
            r.code == ErrorCode::InvalidRequest,
            r.message@ == msg@,
            r.status == 400,
            !r.is_admin,
    {
        AppError {
            code: ErrorCode::InvalidRequest,
            message: String::from_str(msg),
            status: 400,
            is_admin: false,
        }
    }

    pub fn internal(msg: &str) -> (r: Self)
        ensures
            r.code == ErrorCode::InternalError,
            r.message@ == msg@,
            r.status == 500,
            !r.is_admin,
    {
        AppError {
            code: ErrorCode::InternalError,
            message: String::from_str(msg),
            status: 500,
            is_admin: false,
        }
    }

    /// The message that the error's response shows: upstream and internal
    /// messages are hidden from non-admin callers.
    pub fn public_message(&self) -> (r: String)
        ensures
            r@ == public_message_seq(*self),
    {
        if !self.is_admin {
            match self.code {
                ErrorCode::UpstreamRequestFailed
                | ErrorCode::UpstreamLoginFailed
                | ErrorCode::UpstreamVipCheckFailed
                | ErrorCode::InternalError => {
                    return String::from_str("internal error");
                },
                _ => {},
            }
        }
        self.message.clone()
    }

    /// What `{}` writes for the error: `"{code:?}: {message}"`.
    pub fn describe(&self) -> (r: String)
        ensures
            r@ == describe_seq(*self),
    {
        concat3(self.code.name(), ": ", self.message.as_str())
    }
}

} // verus!

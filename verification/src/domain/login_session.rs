//! QR-code login sessions.
use vstd::prelude::*;

use crate::domain::cookie_store::CookieStore;
use crate::domain::provider::ProviderKind;
use crate::text::clone_opt;

verus! {

/// Where a QR-code login stands.
#[derive(Debug, Clone, Copy, PartialEq, Eq, Structural)]
pub enum LoginSessionStatus {
    Pending,
    WaitingScan,
    WaitingConfirm,
    Authorized,
    Bound,
    Expired,
    Failed,
}

/// A QR-code login in progress or done.
#[derive(Debug)]
pub struct LoginSession {
    pub session_id: String,
    pub provider: ProviderKind,
    pub status: LoginSessionStatus,
    pub qr_key: String,
    pub qr_url: String,
    pub qr_base64: Option<String>,
    pub temp_cookies: CookieStore,
    pub bound_account_id: Option<String>,
    pub error: Option<String>,
    pub created_at: i64,
    pub expires_at: i64,
    pub updated_at: i64,
}

impl LoginSession {
    /// All fields but the cookies are equal, and the cookies hold the same entries.
    pub open spec fn same_as(self, other: LoginSession) -> bool {
        &&& self.session_id == other.session_id
        &&& self.provider == other.provider
        &&& self.status == other.status
        &&& self.qr_key == other.qr_key
        &&& self.qr_url == other.qr_url
        &&& self.qr_base64 == other.qr_base64
        &&& self.temp_cookies.entries() == other.temp_cookies.entries()
        &&& self.bound_account_id == other.bound_account_id
        &&& self.error == other.error
        &&& self.created_at == other.created_at
        &&& self.expires_at == other.expires_at
        &&& self.updated_at == other.updated_at
    }
}

impl Clone for LoginSession {
    fn clone(&self) -> (r: Self)
        ensures
            r.same_as(*self),
    {
        LoginSession {
            session_id: self.session_id.clone(),
            provider: self.provider,
            status: self.status,
            qr_key: self.qr_key.clone(),
            qr_url: self.qr_url.clone(),
            qr_base64: clone_opt(&self.qr_base64),
            temp_cookies: self.temp_cookies.clone(),
            bound_account_id: clone_opt(&self.bound_account_id),
            error: clone_opt(&self.error),
            created_at: self.created_at,
            expires_at: self.expires_at,
            updated_at: self.updated_at,
        }
    }
}

/// The current time in whole seconds since the Unix epoch (`as_secs() as
/// i64`), or `None` when the clock stands before the epoch.
pub fn now_ts() -> Option<i64> {
    match crate::clock::unix_seconds() {
        Some(secs) => Some(secs as i64),
        None => None,
    }
}

} // verus!

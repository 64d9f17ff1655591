//! Upstream accounts bound to sources.
use vstd::prelude::*;

use crate::domain::cookie_store::CookieStore;
use crate::domain::provider::ProviderKind;
use crate::text::{clone_opt, lower_seq};

verus! {

/// The state of an upstream account.
#[derive(Debug, Clone, Copy, PartialEq, Eq, Structural)]
pub enum AccountStatus {
    Active,
    Pending,
    Expired,
    Disabled,
    LoginFailed,
}

/// The name of a status as `format!("{:?}", status).to_lowercase()` writes it.
pub open spec fn status_lowercase_name(s: AccountStatus) -> Seq<char> {
    match s {
        AccountStatus::Active => "active"@,
        AccountStatus::Pending => "pending"@,
        AccountStatus::Expired => "expired"@,
        AccountStatus::Disabled => "disabled"@,
        AccountStatus::LoginFailed => "loginfailed"@,
    }
}

/// The name that `#[derive(Debug)]` gives each status: the variant's name.
pub open spec fn status_debug_name(s: AccountStatus) -> Seq<char> {
    match s {
        AccountStatus::Active => "Active"@,
        AccountStatus::Pending => "Pending"@,
        AccountStatus::Expired => "Expired"@,
        AccountStatus::Disabled => "Disabled"@,
        AccountStatus::LoginFailed => "LoginFailed"@,
    }
}

/// The name shown for a status is its `Debug` name in lower case, and no two
/// statuses are shown by the same name (an expired account is never shown as
/// active).
pub proof fn law_status_names(s: AccountStatus, t: AccountStatus)
    ensures
        status_lowercase_name(s) == lower_seq(status_debug_name(s)),
        s != t ==> status_lowercase_name(s) != status_lowercase_name(t),
{
    reveal_strlit("active");
    reveal_strlit("pending");
    reveal_strlit("expired");
    reveal_strlit("disabled");
    reveal_strlit("loginfailed");
    reveal_strlit("Active");
    reveal_strlit("Pending");
    reveal_strlit("Expired");
    reveal_strlit("Disabled");
    reveal_strlit("LoginFailed");
    assert(status_lowercase_name(s) =~= lower_seq(status_debug_name(s)));
    if s != t {
        assert(status_lowercase_name(s)[0] != status_lowercase_name(t)[0]);
    }
}

impl AccountStatus {
    /// The status's name in lower case, as source details show it.
    pub fn lowercase_name(&self) -> (r: &'static str)
        ensures
            r@ == status_lowercase_name(*self),
    {
        match self {
            AccountStatus::Active => "active",
            AccountStatus::Pending => "pending",
            AccountStatus::Expired => "expired",
            AccountStatus::Disabled => "disabled",
            AccountStatus::LoginFailed => "loginfailed",
        }
    }
}

/// An upstream account and the cookies of its session.
#[derive(Debug)]
pub struct ProviderAccount {
    pub account_id: String,
    pub provider: ProviderKind,
    pub upstream_userid: String,
    pub display_name: Option<String>,
    pub status: AccountStatus,
    pub vip_type: i32,
    pub vip_active: bool,
    pub cookies: CookieStore,
    pub last_refresh_at: Option<i64>,
    pub last_success_at: Option<i64>,
    pub last_error: Option<String>,
    pub created_at: i64,
    pub updated_at: i64,
}

impl ProviderAccount {
    /// All fields but the cookies are equal, and the cookies hold the same entries.
    pub open spec fn same_as(self, other: ProviderAccount) -> bool {
        &&& self.account_id == other.account_id
        &&& self.provider == other.provider
        &&& self.upstream_userid == other.upstream_userid
        &&& self.display_name == other.display_name
        &&& self.status == other.status
        &&& self.vip_type == other.vip_type
        &&& self.vip_active == other.vip_active
        &&& self.cookies.entries() == other.cookies.entries()
        &&& self.last_refresh_at == other.last_refresh_at
        &&& self.last_success_at == other.last_success_at
        &&& self.last_error == other.last_error
        &&& self.created_at == other.created_at
        &&& self.updated_at == other.updated_at
    }
}

impl Clone for ProviderAccount {
    fn clone(&self) -> (r: Self)
        ensures
            r.same_as(*self),
    {
        ProviderAccount {
            account_id: self.account_id.clone(),
            provider: self.provider,
            upstream_userid: self.upstream_userid.clone(),
            display_name: clone_opt(&self.display_name),
            status: self.status,
            vip_type: self.vip_type,
            vip_active: self.vip_active,
            cookies: self.cookies.clone(),
            last_refresh_at: self.last_refresh_at,
            last_success_at: self.last_success_at,
            last_error: clone_opt(&self.last_error),
            created_at: self.created_at,
            updated_at: self.updated_at,
        }
    }
}

/// The current time in whole seconds since the Unix epoch (`as_secs() as
/// i64`), or `None` when the clock stands before the epoch.
pub fn now_ts() -> Option<i64> {
    match crate::clock::unix_seconds() {
        Some(secs) => Some(secs as i64),
        None => None,
    }
}

} // verus!

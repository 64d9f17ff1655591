//! Sources as the admin API shows them, and the refresh of a source's account.
use vstd::prelude::*;

use crate::domain::account::{status_lowercase_name, AccountStatus, ProviderAccount};
use crate::domain::cookie_store::CookieStore;
use crate::domain::provider::provider_name;
use crate::domain::source::Source;
use crate::error::{describe_seq, AppError, ErrorCode};
use crate::services::kugou_lite_client::{RefreshResult, VipStatusResult};
use crate::text::{
    boundary_at, byte_len, char_count_at_byte, chars_of, clone_opt, concat2, concat3, utf8_len,
    string_of_range,
};

verus! {

/// The URL of a source's script: `{base}/s/{script_token}.js`.
pub open spec fn script_url_seq(base: Seq<char>, script_token: Seq<char>) -> Seq<char> {
    base + "/s/"@ + script_token + ".js"@
}

pub fn script_url(base: &str, script_token: &str) -> (r: String)
    ensures
        r@ == script_url_seq(base@, script_token@),
{
    let a = concat3(base, "/s/", script_token);
    concat2(a.as_str(), ".js")
}

/// The script URL of a source ends in the path `/s/{token}.js`, and the script
/// route reads the token back from that path.
pub proof fn law_script_url_round_trip(base: Seq<char>, token: Seq<char>)
    ensures
        script_url_seq(base, token) == base + "/s/"@ + (token + ".js"@),
        crate::text::ends_with_seq(token + ".js"@, ".js"@),
        (token + ".js"@).take((token + ".js"@).len() - ".js"@.len()) == token,
{
    assert(script_url_seq(base, token) =~= base + "/s/"@ + (token + ".js"@));
    let p = token + ".js"@;
    assert(p.skip(p.len() - ".js"@.len()) =~= ".js"@);
    assert(p.take(p.len() - ".js"@.len()) =~= token);
}

/// A source in the admin listing.
pub struct SourceListItem {
    pub source_id: String,
    pub account_id: String,
    pub provider: String,
    pub enabled: bool,
    pub script_url: String,
    pub userid: String,
    pub vip_active: bool,
    pub updated_at: i64,
}

/// The listing entry of a source, with its account's user id and VIP state
/// (empty and inactive when the account is missing).
pub fn source_list_item(s: Source, account: Option<&ProviderAccount>, base: &str) -> (r: SourceListItem)
    ensures
        r.source_id == s.source_id,
        r.account_id == s.account_id,
        r.provider@ == provider_name(s.provider),
        r.enabled == s.enabled,
        r.script_url@ == script_url_seq(base@, s.script_token@),
        r.updated_at == s.updated_at,
        match account {
            Some(a) => r.userid == a.upstream_userid && r.vip_active == a.vip_active,
            None => r.userid@ == Seq::<char>::empty() && !r.vip_active,
        },
{
    let (userid, vip_active) = match account {
        Some(a) => (a.upstream_userid.clone(), a.vip_active),
        None => (String::new(), false),
    };
    let url = script_url(base, s.script_token.as_str());
    SourceListItem {
        source_id: s.source_id,
        account_id: s.account_id,
        provider: String::from_str(s.provider.name()),
        enabled: s.enabled,
        script_url: url,
        userid,
        vip_active,
        updated_at: s.updated_at,
    }
}

/// The account of a source, as its detail shows it.
pub struct SourceAccountInfo {
    pub userid: String,
    pub vip_active: bool,
    pub vip_type: i32,
    pub status: String,
    pub last_refresh_at: Option<i64>,
    pub last_error: Option<String>,
}

/// A source in detail.
pub struct SourceDetail {
    pub source_id: String,
    pub account_id: String,
    pub provider: String,
    pub enabled: bool,
    pub script_url: String,
    pub runtime_token_preview: String,
    pub account: SourceAccountInfo,
}

/// The token can be previewed: it is at most 8 bytes long, or byte 8 falls
/// between two characters.
pub open spec fn preview_defined(token: Seq<char>) -> bool {
    utf8_len(token) <= 8 || exists|k: int| #[trigger] boundary_at(token, 8, k)
}

/// The preview of a runtime token: its first 8 bytes, then `"..."`.
pub open spec fn preview_seq(token: Seq<char>) -> Seq<char> {
    if utf8_len(token) > 8 {
        token.take(choose|k: int| #[trigger] boundary_at(token, 8, k)) + "..."@
    } else {
        token + "..."@
    }
}

/// Whether a token can be previewed (`preview_defined`): cutting it at byte 8
/// would otherwise fall inside a character, where slicing panics.
pub fn is_previewable(token: &str) -> (r: bool)
    ensures
        r == preview_defined(token@),
{
    let v = chars_of(token);
    if byte_len(&v) <= 8 {
        true
    } else {
        match char_count_at_byte(&v, 8) {
            Some(_) => true,
            None => false,
        }
    }
}

/// The preview of a runtime token. Cutting it inside a character panics, so the
/// token must be previewable.
pub fn runtime_token_preview(token: &str) -> (r: String)
    requires
        preview_defined(token@),
    ensures
        r@ == preview_seq(token@),
{
    let v = chars_of(token);
    if byte_len(&v) > 8 {
        match char_count_at_byte(&v, 8) {
            Some(k) => {
                let head = string_of_range(&v, 0, k);
                proof {
                    let c = choose|j: int| #[trigger] boundary_at(token@, 8, j);
                    if c < k {
                        crate::text::lemma_utf8_len_take_increasing(token@, c, k as int);
                    } else if k < c {
                        crate::text::lemma_utf8_len_take_increasing(token@, k as int, c);
                    }
                    assert(head@ =~= token@.take(k as int));
                }
                concat2(head.as_str(), "...")
            },
            None => concat2(token, "..."),
        }
    } else {
        concat2(token, "...")
    }
}

/// A source that was looked up, or `source_not_found`.
pub fn require_source(found: Option<Source>) -> (r: Result<Source, AppError>)
    ensures
        match found {
            Some(s) => r == Ok::<Source, AppError>(s),
            None => r matches Err(e) && e.code == ErrorCode::SourceNotFound,
        },
{
    match found {
        Some(s) => Ok(s),
        None => Err(AppError::source_not_found()),
    }
}

/// An account that was looked up, or `account_not_found`.
pub fn require_account(found: Option<ProviderAccount>) -> (r: Result<ProviderAccount, AppError>)
    ensures
        match found {
            Some(a) => r matches Ok(b) && b == a,
            None => r matches Err(e) && e.code == ErrorCode::AccountNotFound,
        },
{
    match found {
        Some(a) => Ok(a),
        None => Err(AppError::account_not_found()),
    }
}

/// The detail of a source, once it and its account are found, with
/// the script URL and a preview of the runtime token.
pub fn source_detail(s: Source, account: ProviderAccount, base: &str) -> (r: SourceDetail)
    requires
        preview_defined(s.runtime_token@),
    ensures
        r.source_id == s.source_id,
        r.account_id == s.account_id,
        r.provider@ == provider_name(s.provider),
        r.enabled == s.enabled,
        r.script_url@ == script_url_seq(base@, s.script_token@),
        r.runtime_token_preview@ == preview_seq(s.runtime_token@),
        r.account.userid == account.upstream_userid,
        r.account.vip_active == account.vip_active,
        r.account.vip_type == account.vip_type,
        r.account.status@ == status_lowercase_name(account.status),
        r.account.last_refresh_at == account.last_refresh_at,
        r.account.last_error == account.last_error,
{
    let url = script_url(base, s.script_token.as_str());
    let preview = runtime_token_preview(s.runtime_token.as_str());
    SourceDetail {
        source_id: s.source_id,
        account_id: s.account_id,
        provider: String::from_str(s.provider.name()),
        enabled: s.enabled,
        script_url: url,
        runtime_token_preview: preview,
        account: SourceAccountInfo {
            userid: account.upstream_userid,
            vip_active: account.vip_active,
            vip_type: account.vip_type,
            status: String::from_str(account.status.lowercase_name()),
            last_refresh_at: account.last_refresh_at,
            last_error: account.last_error,
        },
    }
}

/// The answer to a refresh of a source.
pub struct RefreshResponse {
    pub ok: bool,
    pub source_id: String,
    pub vip_active: bool,
    pub updated_at: i64,
}

// ---------------------------------------------------------------------------
// Refreshing an account's login
// ---------------------------------------------------------------------------

/// The account after a VIP check at `now`: the reply's cookies and VIP state,
/// refreshed and succeeded at `now`, no error, active when VIP else expired.
pub open spec fn account_after_vip(a: ProviderAccount, v: VipStatusResult, now: i64) -> ProviderAccount {
    ProviderAccount {
        cookies: v.cookies,
        vip_type: v.vip_type,
        vip_active: v.vip_active,
        last_refresh_at: Some(now),
        last_success_at: Some(now),
        last_error: None,
        status: if v.vip_active {
            AccountStatus::Active
        } else {
            AccountStatus::Expired
        },
        updated_at: now,
        ..a
    }
}

/// The account marked as failed at `now` with the error `e`: it differs from `a`
/// in status, error text and update time only.
pub open spec fn marked_failed(b: ProviderAccount, a: ProviderAccount, e: AppError, now: i64) -> bool {
    &&& b.status == AccountStatus::LoginFailed
    &&& b.last_error matches Some(m) && m@ == describe_seq(e)
    &&& b.updated_at == now
    &&& b.account_id == a.account_id
    &&& b.provider == a.provider
    &&& b.upstream_userid == a.upstream_userid
    &&& b.display_name == a.display_name
    &&& b.vip_type == a.vip_type
    &&& b.vip_active == a.vip_active
    &&& b.cookies.entries() == a.cookies.entries()
    &&& b.last_refresh_at == a.last_refresh_at
    &&& b.last_success_at == a.last_success_at
    &&& b.created_at == a.created_at
}

/// Where a refresh of an account stands.
#[derive(Debug, Clone, Copy, PartialEq, Eq, Structural)]
pub enum RefreshPhase {
    AwaitLogin,
    AwaitDfid,
    AwaitVip,
    AwaitUpsert,
    AwaitFailureRecord,
    Finished,
}

/// What the caller does next in a refresh.
pub enum RefreshAction {
    /// Call the upstream token refresh with these cookies.
    RefreshLogin(CookieStore),
    /// Register the device with these cookies to obtain a `dfid`.
    EnsureDfid(CookieStore),
    /// Fetch the VIP state with these cookies.
    FetchVip(CookieStore),
    /// Store the account; its outcome is handed back.
    Upsert(ProviderAccount),
    /// Store the account, whatever comes of it.
    RecordFailure(ProviderAccount),
    /// The refresh is over: the time of success, or the error.
    Done(Result<i64, AppError>),
}

/// What the caller hands back after an action.
pub enum RefreshEvent {
    LoginRefreshed(Result<RefreshResult, AppError>),
    DfidEnsured(Result<CookieStore, AppError>),
    VipFetched(Result<VipStatusResult, AppError>),
    Upserted(Result<(), AppError>),
    FailureRecorded,
}

/// A refresh of an account's login: renew the token, make sure of a `dfid`,
/// read the VIP state, store the account. A failure is recorded on the
/// account before it is returned, except, when `require_vip` is set, the
/// refusal of an account without VIP.
pub struct AccountRefresh {
    pub account: ProviderAccount,
    pub phase: RefreshPhase,
    pub require_vip: bool,
    pub now: i64,
    pub pending: Option<AppError>,
}

/// The event is the one the phase waits for.
pub open spec fn refresh_expects(phase: RefreshPhase, e: RefreshEvent) -> bool {
    match phase {
        RefreshPhase::AwaitLogin => e is LoginRefreshed,
        RefreshPhase::AwaitDfid => e is DfidEnsured,
        RefreshPhase::AwaitVip => e is VipFetched,
        RefreshPhase::AwaitUpsert => e is Upserted,
        RefreshPhase::AwaitFailureRecord => e is FailureRecorded,
        RefreshPhase::Finished => false,
    }
}

/// One step of a refresh: `o` becomes `n` with the action `act` on `event`.
pub open spec fn refresh_step_spec(
    o: AccountRefresh,
    event: RefreshEvent,
    n: AccountRefresh,
    act: RefreshAction,
    now: i64,
) -> bool {
    &&& n.require_vip == o.require_vip
    &&& match event {
        RefreshEvent::LoginRefreshed(Ok(res)) => {
            &&& n.account == (ProviderAccount { cookies: res.cookies, ..o.account })
            &&& n.pending == o.pending
            &&& n.now == o.now
            &&& if res.cookies@.contains_key("dfid"@) && res.cookies@["dfid"@].len() > 0 {
                &&& n.phase == RefreshPhase::AwaitVip
                &&& act matches RefreshAction::FetchVip(c) && c.entries() == res.cookies.entries()
            } else {
                &&& n.phase == RefreshPhase::AwaitDfid
                &&& act matches RefreshAction::EnsureDfid(c) && c.entries() == res.cookies.entries()
            }
        },
        RefreshEvent::DfidEnsured(Ok(c)) => {
            &&& n.account == (ProviderAccount { cookies: c, ..o.account })
            &&& n.pending == o.pending
            &&& n.now == o.now
            &&& n.phase == RefreshPhase::AwaitVip
            &&& act matches RefreshAction::FetchVip(d) && d.entries() == c.entries()
        },
        RefreshEvent::VipFetched(Ok(v)) => {
            &&& n.account == account_after_vip(o.account, v, now)
            &&& n.pending == o.pending
            &&& n.now == now
            &&& n.phase == RefreshPhase::AwaitUpsert
            &&& act matches RefreshAction::Upsert(a) && a.same_as(n.account)
        },
        RefreshEvent::Upserted(Ok(())) => {
            &&& n.phase == RefreshPhase::Finished
            &&& n.account == o.account
            &&& n.pending == o.pending
            &&& n.now == o.now
            &&& if o.require_vip && !o.account.vip_active {
                act matches RefreshAction::Done(Err(x)) && is_not_vip_error(x)
            } else {
                act == RefreshAction::Done(Ok(o.now))
            }
        },
        RefreshEvent::FailureRecorded => {
            &&& n.phase == RefreshPhase::Finished
            &&& n.account == o.account
            &&& n.pending is None
            &&& n.now == o.now
            &&& act == RefreshAction::Done(Err(o.pending.unwrap()))
        },
        RefreshEvent::LoginRefreshed(Err(e)) | RefreshEvent::DfidEnsured(Err(e))
        | RefreshEvent::VipFetched(Err(e)) | RefreshEvent::Upserted(Err(e)) => {
            &&& n.now == o.now
            &&& if o.require_vip && e.code == ErrorCode::AccountNotVip {
                &&& n.phase == RefreshPhase::Finished
                &&& n.account == o.account
                &&& n.pending == o.pending
                &&& act matches RefreshAction::Done(Err(x)) && x == e
            } else {
                &&& n.phase == RefreshPhase::AwaitFailureRecord
                &&& marked_failed(n.account, o.account, e, now)
                &&& n.pending == Some(e)
                &&& act matches RefreshAction::RecordFailure(a) && a.same_as(n.account)
            }
        },
    }
}

/// The error `account_not_vip` gives: code `AccountNotVip`, its fixed message,
/// status 403, not an admin message.
pub open spec fn is_not_vip_error(x: AppError) -> bool {
    &&& x.code == ErrorCode::AccountNotVip
    &&& x.message@ == "account vip is not active"@
    &&& x.status == 403
    &&& !x.is_admin
}

/// A refresh that reads the VIP state stores the account as active when VIP is
/// active and as expired otherwise, with no error, refreshed and succeeded at
/// the same time.
pub proof fn law_refresh_status_follows_vip(o: AccountRefresh, v: VipStatusResult, n: AccountRefresh, act: RefreshAction, now: i64)
    requires
        refresh_step_spec(o, RefreshEvent::VipFetched(Ok(v)), n, act, now),
    ensures
        n.account.status == (if v.vip_active {
            AccountStatus::Active
        } else {
            AccountStatus::Expired
        }),
        n.account.vip_active == v.vip_active,
        n.account.last_error is None,
        n.account.last_refresh_at == Some(now),
        n.account.last_success_at == Some(now),
        act matches RefreshAction::Upsert(a) && a.same_as(n.account),
{
}

/// The error that an event of a refresh carries, if it carries one.
pub open spec fn event_error(e: RefreshEvent) -> Option<AppError> {
    match e {
        RefreshEvent::LoginRefreshed(Err(x)) => Some(x),
        RefreshEvent::DfidEnsured(Err(x)) => Some(x),
        RefreshEvent::VipFetched(Err(x)) => Some(x),
        RefreshEvent::Upserted(Err(x)) => Some(x),
        _ => None,
    }
}

/// A refresh that fails, other than by the refusal of an account without VIP
/// when VIP is required, records the failure on the account before it ends:
/// status `LoginFailed`, the error's text, and the time.
pub proof fn law_failure_recorded(o: AccountRefresh, e: RefreshEvent, x: AppError, n: AccountRefresh, act: RefreshAction, now: i64)
    requires
        refresh_step_spec(o, e, n, act, now),
        event_error(e) == Some(x),
        !(o.require_vip && x.code == ErrorCode::AccountNotVip),
    ensures
        n.account.status == AccountStatus::LoginFailed,
        n.account.last_error matches Some(m) && m@ == describe_seq(x),
        n.account.updated_at == now,
        n.pending == Some(x),
        act matches RefreshAction::RecordFailure(a) && a.same_as(n.account),
{
}

/// Once the failure is recorded, the refresh answers with the error that made
/// it fail, unchanged.
pub proof fn law_failure_answered_unchanged(o: AccountRefresh, x: AppError, n: AccountRefresh, act: RefreshAction, now: i64)
    requires
        o.pending == Some(x),
        refresh_step_spec(o, RefreshEvent::FailureRecorded, n, act, now),
    ensures
        act == RefreshAction::Done(Err::<i64, AppError>(x)),
{
}

impl AccountRefresh {
    /// Starts a refresh of `account`: first the token refresh with its cookies.
    pub fn start(account: ProviderAccount, require_vip: bool) -> (r: (Self, RefreshAction))
        ensures
            r.0.account == account,
            r.0.phase == RefreshPhase::AwaitLogin,
            r.0.require_vip == require_vip,
            r.0.pending is None,
            r.0.wf(),
            r.1 matches RefreshAction::RefreshLogin(c) && c.entries() == account.cookies.entries(),
    {
        let c = account.cookies.clone();
        (AccountRefresh { account, phase: RefreshPhase::AwaitLogin, require_vip, now: 0, pending: None }, RefreshAction::RefreshLogin(c))
    }

    /// Records the failure `e` on the account, unless it is the refusal of an
    /// account without VIP in a refresh that requires VIP.
    fn fail(&mut self, e: AppError, now: i64) -> (act: RefreshAction)
        requires
            old(self).phase != RefreshPhase::Finished,
        ensures
            final(self).now == old(self).now,
            if old(self).require_vip && e.code == ErrorCode::AccountNotVip {
                &&& final(self).phase == RefreshPhase::Finished
                &&& final(self).account == old(self).account
                &&& final(self).pending == old(self).pending
                &&& act matches RefreshAction::Done(Err(x)) && x == e
            } else {
                &&& final(self).phase == RefreshPhase::AwaitFailureRecord
                &&& marked_failed(final(self).account, old(self).account, e, now)
                &&& final(self).pending == Some(e)
                &&& act matches RefreshAction::RecordFailure(a) && a.same_as(final(self).account)
            },
            final(self).require_vip == old(self).require_vip,
    {
        if self.require_vip && e.code == ErrorCode::AccountNotVip {
            self.phase = RefreshPhase::Finished;
            return RefreshAction::Done(Err(e));
        }
        self.account.status = AccountStatus::LoginFailed;
        self.account.last_error = Some(e.describe());
        self.account.updated_at = now;
        self.phase = RefreshPhase::AwaitFailureRecord;
        self.pending = Some(e);
        RefreshAction::RecordFailure(self.account.clone())
    }

    /// A refresh waiting for its failure to be recorded holds that failure.
    pub open spec fn wf(&self) -> bool {
        self.phase == RefreshPhase::AwaitFailureRecord ==> self.pending is Some
    }

    /// One step of the refresh: what the caller hands back decides what it does
    /// next; `now` is the clock reading at this step.
    pub fn step(&mut self, event: RefreshEvent, now: i64) -> (act: RefreshAction)
        requires
            old(self).wf(),
            refresh_expects(old(self).phase, event),
        ensures
            final(self).wf(),
            final(self).require_vip == old(self).require_vip,
            refresh_step_spec(*old(self), event, *final(self), act, now),
    {
        match event {
            RefreshEvent::LoginRefreshed(Ok(res)) => {
                self.account.cookies = res.cookies;
                let c = self.account.cookies.clone();
                if self.account.cookies.is_empty("dfid") {
                    self.phase = RefreshPhase::AwaitDfid;
                    RefreshAction::EnsureDfid(c)
                } else {
                    self.phase = RefreshPhase::AwaitVip;
                    RefreshAction::FetchVip(c)
                }
            },
            RefreshEvent::DfidEnsured(Ok(c)) => {
                self.account.cookies = c;
                self.phase = RefreshPhase::AwaitVip;
                RefreshAction::FetchVip(self.account.cookies.clone())
            },
            RefreshEvent::VipFetched(Ok(v)) => {
                self.account.cookies = v.cookies;
                self.account.vip_type = v.vip_type;
                self.account.vip_active = v.vip_active;
                self.account.last_refresh_at = Some(now);
                self.account.last_success_at = Some(now);
                self.account.last_error = None;
                self.account.status = if v.vip_active {
                    AccountStatus::Active
                } else {
                    AccountStatus::Expired
                };
                self.account.updated_at = now;
                self.now = now;
                self.phase = RefreshPhase::AwaitUpsert;
                RefreshAction::Upsert(self.account.clone())
            },
            RefreshEvent::Upserted(Ok(())) => {
                self.phase = RefreshPhase::Finished;
                if self.require_vip && !self.account.vip_active {
                    RefreshAction::Done(Err(AppError::account_not_vip()))
                } else {
                    RefreshAction::Done(Ok(self.now))
                }
            },
            RefreshEvent::FailureRecorded => {
                self.phase = RefreshPhase::Finished;
                match self.pending.take() {
                    Some(x) => RefreshAction::Done(Err(x)),
                    None => RefreshAction::Done(Err(AppError::internal("refresh failed"))),
                }
            },
            RefreshEvent::LoginRefreshed(Err(e)) => self.fail(e, now),
            RefreshEvent::DfidEnsured(Err(e)) => self.fail(e, now),
            RefreshEvent::VipFetched(Err(e)) => self.fail(e, now),
            RefreshEvent::Upserted(Err(e)) => self.fail(e, now),
        }
    }
}

/// The answer to a refresh of the source `source_id` that succeeded at `now`.
pub fn refresh_response(source_id: &str, account: &ProviderAccount, now: i64) -> (r: RefreshResponse)
    ensures
        r.ok,
        r.source_id@ == source_id@,
        r.vip_active == account.vip_active,
        r.updated_at == now,
{
    RefreshResponse { ok: true, source_id: String::from_str(source_id), vip_active: account.vip_active, updated_at: now }
}

} // verus!

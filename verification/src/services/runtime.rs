//! The runtime flow: from a play URL request to a URL, with the account kept
//! logged in and every upstream attempt logged.
//!
//! The flow is a machine: each step takes what the caller hands back (a lookup,
//! an upstream reply, a store's outcome) and says what the caller does next.
use vstd::prelude::*;

use crate::domain::account::{AccountStatus, ProviderAccount};
use crate::domain::cookie_store::CookieStore;
use crate::domain::provider::ProviderKind;
use crate::domain::runtime_log::{opt_view, sanitize_runtime_log_error, RuntimeLog, RuntimeLogStage};
use crate::domain::source::Source;
use crate::error::{describe_seq, AppError, ErrorCode};
use crate::ids::new_id;
use crate::services::kugou_lite_client::{MusicUrlRequest, MusicUrlResult};
use crate::services::source::{
    AccountRefresh, RefreshAction, RefreshEvent, RefreshPhase, refresh_expects, refresh_step_spec,
};
use crate::text::clone_opt;

verus! {

/// A play URL request of the LX Music script.
pub struct RuntimeMusicUrlRequest {
    pub hash: String,
    pub album_audio_id: Option<String>,
    pub quality: String,
}

/// The answer to a play URL request.
pub struct RuntimeMusicUrlResponse {
    pub url: String,
}

/// A login is due: never refreshed, or last refreshed more than the interval
/// (taken as `i64`, as `as` converts it) before `now`.
pub open spec fn refresh_due(last_refresh_at: Option<i64>, now: i64, interval: u64) -> bool {
    match last_refresh_at {
        None => true,
        Some(t) => now - t > (interval as i64),
    }
}

/// Whether the account's login is due for a refresh at `now`.
pub fn needs_refresh(last_refresh_at: Option<i64>, now: i64, interval: u64) -> (r: bool)
    ensures
        r == refresh_due(last_refresh_at, now, interval),
{
    match last_refresh_at {
        None => true,
        Some(t) => (now as i128) - (t as i128) > ((interval as i64) as i128),
    }
}

/// The upstream request for a runtime request.
pub fn upstream_request(req: &RuntimeMusicUrlRequest) -> (r: MusicUrlRequest)
    ensures
        r.hash == req.hash,
        r.album_audio_id == req.album_audio_id,
        r.quality == req.quality,
{
    MusicUrlRequest { hash: req.hash.clone(), album_audio_id: clone_opt(&req.album_audio_id), quality: req.quality.clone() }
}

/// A log entry of a play URL attempt: the source, account and request, the
/// `song/url` endpoint, the outcome, and an error only as `"upstream error"`.
pub open spec fn is_attempt_log(
    l: RuntimeLog,
    source_id: String,
    account_id: String,
    req: RuntimeMusicUrlRequest,
    ok: bool,
    status_code: u16,
    latency_ms: u128,
    has_error: bool,
    log_uuid: Seq<char>,
    now: i64,
) -> bool {
    &&& l.source_id == source_id
    &&& l.account_id == account_id
    &&& l.provider == ProviderKind::KugouLite
    &&& l.action@ == "musicUrl"@
    &&& l.track_title is None
    &&& l.artist_name is None
    &&& l.album_name is None
    &&& l.request_hash == req.hash
    &&& l.album_audio_id == req.album_audio_id
    &&& l.requested_quality == req.quality
    &&& l.upstream_endpoint@ == "song/url"@
    &&& l.stage == RuntimeLogStage::FetchMusicUrl
    &&& !l.refresh_attempted
    &&& l.retry_count == 0
    &&& l.ok == ok
    &&& l.status_code == Some(status_code)
    &&& l.error_code is None
    &&& l.latency_ms == latency_ms
    &&& opt_view(l.error) == (if has_error {
        Some("upstream error"@)
    } else {
        None
    })
    &&& l.log_id@ == "log_"@ + log_uuid
    &&& l.created_at == now
}

/// The log entry of an attempt, with the id `log_{log_uuid}` and the time `now`.
pub fn attempt_log(
    source_id: &String,
    account_id: &String,
    req: &RuntimeMusicUrlRequest,
    ok: bool,
    status_code: u16,
    latency_ms: u128,
    error: Option<&str>,
    log_uuid: &str,
    now: i64,
) -> (l: RuntimeLog)
    ensures
        is_attempt_log(l, *source_id, *account_id, *req, ok, status_code, latency_ms, error is Some, log_uuid@, now),
{
    let log_id = new_id("log_", log_uuid);
    proof {
        reveal_strlit("log_");
    }
    RuntimeLog {
        log_id,
        source_id: source_id.clone(),
        account_id: account_id.clone(),
        provider: ProviderKind::KugouLite,
        action: String::from_str("musicUrl"),
        track_title: None,
        artist_name: None,
        album_name: None,
        request_hash: req.hash.clone(),
        album_audio_id: clone_opt(&req.album_audio_id),
        requested_quality: req.quality.clone(),
        upstream_endpoint: String::from_str("song/url"),
        stage: RuntimeLogStage::FetchMusicUrl,
        refresh_attempted: false,
        retry_count: 0,
        ok,
        status_code: Some(status_code),
        error_code: None,
        latency_ms,
        error: sanitize_runtime_log_error(error),
        created_at: now,
    }
}

/// Which fetch of the play URL a step is about.
#[derive(Debug, Clone, Copy, PartialEq, Eq, Structural)]
pub enum Attempt {
    First,
    Retry,
}

/// Where a runtime request stands.
#[derive(Debug, Clone, Copy, PartialEq, Eq, Structural)]
pub enum MusicUrlPhase {
    AwaitSource,
    AwaitAccount,
    AwaitDfid,
    AwaitDfidUpsert,
    Refreshing,
    AwaitFetch,
    AwaitFetchUpsert,
    AwaitLog,
    Finished,
}

/// What the caller does next.
pub enum MusicUrlAction {
    /// Look up the source with this runtime token.
    FindSourceByRuntimeToken(String),
    /// Look up the account with this id.
    FindAccount(String),
    /// Register the device with these cookies to obtain a `dfid`.
    EnsureDfid(CookieStore),
    /// Store the account; a failure ends the request with that error.
    UpsertAccount(ProviderAccount),
    /// A step of the account's login refresh.
    Refresh(RefreshAction),
    /// Ask the upstream for the play URL with these cookies.
    FetchMusicUrl(CookieStore, MusicUrlRequest),
    /// Append this entry to the runtime log, whatever comes of it.
    AppendLog(RuntimeLog),
    /// The answer.
    Done(Result<RuntimeMusicUrlResponse, AppError>),
}

/// What the caller hands back.
pub enum MusicUrlEvent {
    SourceFound(Result<Option<Source>, AppError>),
    AccountFound(Result<Option<ProviderAccount>, AppError>),
    DfidEnsured(Result<CookieStore, AppError>),
    Upserted(Result<(), AppError>),
    Refresh(RefreshEvent),
    /// The reply to a fetch, with the milliseconds since the first fetch began.
    MusicFetched(Result<MusicUrlResult, AppError>, u128),
    Logged,
}

/// A runtime request in progress.
pub struct MusicUrlFlow {
    pub req: RuntimeMusicUrlRequest,
    pub refresh_interval_secs: u64,
    pub phase: MusicUrlPhase,
    pub source: Option<Source>,
    pub account: Option<ProviderAccount>,
    pub refresh: Option<AccountRefresh>,
    pub attempt: Attempt,
    /// The status of the first fetch, once it came back.
    pub first_status: u16,
    /// The URL, status, auth failure and latency of the last fetch.
    pub fetched: Option<(String, u16, bool, u128)>,
    /// The answer, once it is known and only the log is awaited.
    pub outcome: Option<Result<RuntimeMusicUrlResponse, AppError>>,
    /// The fresh UUID of the request's log entry.
    pub log_uuid: String,
}

/// The event is the one the phase waits for.
pub open spec fn music_url_expects(f: MusicUrlFlow, e: MusicUrlEvent) -> bool {
    match f.phase {
        MusicUrlPhase::AwaitSource => e is SourceFound,
        MusicUrlPhase::AwaitAccount => e is AccountFound,
        MusicUrlPhase::AwaitDfid => e is DfidEnsured,
        MusicUrlPhase::AwaitDfidUpsert => e is Upserted,
        MusicUrlPhase::Refreshing => e matches MusicUrlEvent::Refresh(re) && refresh_expects(
            f.refresh.unwrap().phase,
            re,
        ),
        MusicUrlPhase::AwaitFetch => e is MusicFetched,
        MusicUrlPhase::AwaitFetchUpsert => e is Upserted,
        MusicUrlPhase::AwaitLog => e is Logged,
        MusicUrlPhase::Finished => false,
    }
}

/// The cookies lack a usable `dfid`.
pub open spec fn dfid_missing(m: Map<Seq<char>, Seq<char>>) -> bool {
    !m.contains_key("dfid"@) || m["dfid"@].len() == 0
}

/// The step after the checks of the account `a` at `now`: its login refresh
/// when due, else the first fetch. Nothing else of the request changes.
pub open spec fn precheck_spec(o: MusicUrlFlow, a: ProviderAccount, now: i64, n: MusicUrlFlow, act: MusicUrlAction) -> bool {
    if refresh_due(a.last_refresh_at, now, o.refresh_interval_secs) {
        &&& n == (MusicUrlFlow {
            phase: MusicUrlPhase::Refreshing,
            account: None,
            refresh: n.refresh,
            attempt: Attempt::First,
            ..o
        })
        &&& n.refresh matches Some(r) && r.account == a && r.phase == RefreshPhase::AwaitLogin && r.require_vip
            && r.pending is None
        &&& act matches MusicUrlAction::Refresh(RefreshAction::RefreshLogin(c))
            && c.entries() == a.cookies.entries()
    } else {
        &&& n == (MusicUrlFlow { phase: MusicUrlPhase::AwaitFetch, account: Some(a), attempt: Attempt::First, ..o })
        &&& act matches MusicUrlAction::FetchMusicUrl(c, r) && c.entries() == a.cookies.entries()
            && r.hash == o.req.hash && r.album_audio_id == o.req.album_audio_id && r.quality == o.req.quality
    }
}

/// The request fails with `upstream_request_failed` of the error's text once a
/// failed attempt with status `status` is logged for the account `account_id`
/// at `now`; the rest of the request is `m`.
pub open spec fn log_and_err_spec(
    o: MusicUrlFlow,
    m: MusicUrlFlow,
    account_id: String,
    status: u16,
    x: AppError,
    n: MusicUrlFlow,
    act: MusicUrlAction,
    now: i64,
) -> bool {
    &&& n == (MusicUrlFlow { phase: MusicUrlPhase::AwaitLog, outcome: n.outcome, ..m })
    &&& n.outcome matches Some(Err(y)) && y.code == ErrorCode::UpstreamRequestFailed && y.message@ == describe_seq(x)
    &&& act matches MusicUrlAction::AppendLog(l) && is_attempt_log(
        l,
        o.source.unwrap().source_id,
        account_id,
        o.req,
        false,
        status,
        0,
        true,
        o.log_uuid@,
        now,
    )
}

/// The request ends at once with an error of code `code`; nothing else changes.
pub open spec fn ends_with_error(o: MusicUrlFlow, n: MusicUrlFlow, act: MusicUrlAction, code: ErrorCode) -> bool {
    &&& n == (MusicUrlFlow { phase: MusicUrlPhase::Finished, ..o })
    &&& act matches MusicUrlAction::Done(Err(x)) && x.code == code
}

/// The request ends at once with the error `x` handed back; nothing else changes.
pub open spec fn ends_with(o: MusicUrlFlow, n: MusicUrlFlow, act: MusicUrlAction, x: AppError) -> bool {
    &&& n == (MusicUrlFlow { phase: MusicUrlPhase::Finished, ..o })
    &&& act == MusicUrlAction::Done(Err(x))
}

/// One step of a runtime request at `now`: `o` becomes `n` with the action `act`
/// on `e`. Each arm says what every field of the request becomes.
pub open spec fn step_spec(o: MusicUrlFlow, e: MusicUrlEvent, n: MusicUrlFlow, act: MusicUrlAction, now: i64) -> bool {
    match e {
        MusicUrlEvent::SourceFound(Err(x)) => ends_with(o, n, act, x),
        MusicUrlEvent::SourceFound(Ok(None)) => ends_with_error(o, n, act, ErrorCode::SourceNotFound),
        MusicUrlEvent::SourceFound(Ok(Some(s))) => if !s.enabled {
            ends_with_error(o, n, act, ErrorCode::SourceDisabled)
        } else {
            &&& n == (MusicUrlFlow { phase: MusicUrlPhase::AwaitAccount, source: Some(s), ..o })
            &&& act == MusicUrlAction::FindAccount(s.account_id)
        },
        MusicUrlEvent::AccountFound(Err(x)) => ends_with(o, n, act, x),
        MusicUrlEvent::AccountFound(Ok(None)) => ends_with_error(o, n, act, ErrorCode::AccountNotFound),
        MusicUrlEvent::AccountFound(Ok(Some(a))) => if a.status == AccountStatus::Disabled {
            ends_with_error(o, n, act, ErrorCode::AccountDisabled)
        } else if !a.vip_active {
            ends_with_error(o, n, act, ErrorCode::AccountNotVip)
        } else if dfid_missing(a.cookies@) {
            &&& n == (MusicUrlFlow { phase: MusicUrlPhase::AwaitDfid, account: Some(a), ..o })
            &&& act matches MusicUrlAction::EnsureDfid(c) && c.entries() == a.cookies.entries()
        } else {
            precheck_spec(o, a, now, n, act)
        },
        MusicUrlEvent::DfidEnsured(Err(x)) => ends_with(o, n, act, x),
        MusicUrlEvent::DfidEnsured(Ok(c)) => {
            &&& n == (MusicUrlFlow {
                phase: MusicUrlPhase::AwaitDfidUpsert,
                account: Some(ProviderAccount { cookies: c, ..o.account.unwrap() }),
                ..o
            })
            &&& act matches MusicUrlAction::UpsertAccount(a) && a.same_as(n.account.unwrap())
        },
        MusicUrlEvent::Upserted(Err(x)) => ends_with(o, n, act, x),
        MusicUrlEvent::Upserted(Ok(())) => if o.phase == MusicUrlPhase::AwaitDfidUpsert {
            precheck_spec(o, o.account.unwrap(), now, n, act)
        } else {
            let (url, status, auth_failed, latency) = o.fetched.unwrap();
            let source_id = o.source.unwrap().source_id;
            let account = o.account.unwrap();
            if url@.len() > 0 {
                &&& n == (MusicUrlFlow { phase: MusicUrlPhase::AwaitLog, outcome: n.outcome, fetched: None, ..o })
                &&& n.outcome matches Some(Ok(resp)) && resp.url == url
                &&& act matches MusicUrlAction::AppendLog(l) && is_attempt_log(
                    l, source_id, account.account_id, o.req, true, status, latency, false, o.log_uuid@, now)
            } else if o.attempt == Attempt::First && auth_failed {
                &&& n == (MusicUrlFlow {
                    phase: MusicUrlPhase::Refreshing,
                    attempt: Attempt::Retry,
                    first_status: status,
                    account: None,
                    refresh: n.refresh,
                    fetched: None,
                    ..o
                })
                &&& n.refresh matches Some(r) && r.account == account && r.phase == RefreshPhase::AwaitLogin
                    && r.require_vip && r.pending is None
                &&& act matches MusicUrlAction::Refresh(RefreshAction::RefreshLogin(c)) && c.entries() == account.cookies.entries()
            } else {
                &&& n == (MusicUrlFlow { phase: MusicUrlPhase::AwaitLog, outcome: n.outcome, fetched: None, ..o })
                &&& n.outcome matches Some(Err(x)) && x.code == ErrorCode::UpstreamPlayUrlEmpty
                &&& act matches MusicUrlAction::AppendLog(l) && is_attempt_log(
                    l, source_id, account.account_id, o.req, false, status, latency, true, o.log_uuid@, now)
            }
        },
        MusicUrlEvent::Refresh(re) => exists|r2: AccountRefresh, ra: RefreshAction| {
            &&& refresh_step_spec(o.refresh.unwrap(), re, r2, ra, now)
            &&& match ra {
                RefreshAction::Done(Ok(_)) => {
                    &&& n == (MusicUrlFlow {
                        phase: MusicUrlPhase::AwaitFetch,
                        account: Some(r2.account),
                        refresh: None,
                        ..o
                    })
                    &&& act matches MusicUrlAction::FetchMusicUrl(c, r) && c.entries() == r2.account.cookies.entries()
                        && r.hash == o.req.hash && r.album_audio_id == o.req.album_audio_id && r.quality == o.req.quality
                },
                RefreshAction::Done(Err(x)) => log_and_err_spec(
                    o,
                    MusicUrlFlow { account: Some(r2.account), refresh: None, ..o },
                    r2.account.account_id,
                    if o.attempt == Attempt::First { 0 } else { o.first_status },
                    x,
                    n,
                    act,
                    now,
                ),
                _ => {
                    &&& n == (MusicUrlFlow { refresh: Some(r2), ..o })
                    &&& act == MusicUrlAction::Refresh(ra)
                },
            }
        },
        MusicUrlEvent::MusicFetched(Err(x), _) => log_and_err_spec(o, o, o.account.unwrap().account_id, 0, x, n, act, now),
        MusicUrlEvent::MusicFetched(Ok(mr), latency) => {
            &&& n == (MusicUrlFlow {
                phase: MusicUrlPhase::AwaitFetchUpsert,
                account: Some(ProviderAccount { cookies: mr.cookies, ..o.account.unwrap() }),
                fetched: Some((mr.url, mr.status_code, mr.auth_failed, latency)),
                ..o
            })
            &&& act matches MusicUrlAction::UpsertAccount(a) && a.same_as(n.account.unwrap())
        },
        MusicUrlEvent::Logged => {
            &&& n == (MusicUrlFlow { phase: MusicUrlPhase::Finished, outcome: None, ..o })
            &&& act == MusicUrlAction::Done(o.outcome.unwrap())
        },
    }
}

/// A request through a disabled source is refused with `source_disabled` and
/// goes no further.
pub proof fn law_disabled_source_refused(o: MusicUrlFlow, s: Source, n: MusicUrlFlow, act: MusicUrlAction, now: i64)
    requires
        step_spec(o, MusicUrlEvent::SourceFound(Ok(Some(s))), n, act, now),
        !s.enabled,
    ensures
        n.phase == MusicUrlPhase::Finished,
        act matches MusicUrlAction::Done(Err(x)) && x.code == ErrorCode::SourceDisabled,
{
}

/// An account that is disabled or without VIP is refused before any upstream call.
pub proof fn law_unusable_account_refused(o: MusicUrlFlow, a: ProviderAccount, n: MusicUrlFlow, act: MusicUrlAction, now: i64)
    requires
        step_spec(o, MusicUrlEvent::AccountFound(Ok(Some(a))), n, act, now),
        a.status == AccountStatus::Disabled || !a.vip_active,
    ensures
        n.phase == MusicUrlPhase::Finished,
        act matches MusicUrlAction::Done(Err(x)) && (x.code == ErrorCode::AccountDisabled || x.code == ErrorCode::AccountNotVip),
{
}

/// A request that succeeds answers with a non-empty URL.
pub proof fn law_answer_has_url(o: MusicUrlFlow, e: MusicUrlEvent, n: MusicUrlFlow, act: MusicUrlAction, now: i64)
    requires
        o.wf(),
        music_url_expects(o, e),
        step_spec(o, e, n, act, now),
    ensures
        act matches MusicUrlAction::Done(Ok(r)) ==> r.url@.len() > 0,
{
}

/// After the retry, an empty URL is not retried again: the request fails with
/// `upstream_play_url_empty`.
pub proof fn law_single_retry(o: MusicUrlFlow, n: MusicUrlFlow, act: MusicUrlAction, now: i64)
    requires
        o.phase == MusicUrlPhase::AwaitFetchUpsert,
        o.attempt == Attempt::Retry,
        o.fetched matches Some(f) && f.0@.len() == 0,
        step_spec(o, MusicUrlEvent::Upserted(Ok(())), n, act, now),
    ensures
        n.phase == MusicUrlPhase::AwaitLog,
        n.outcome matches Some(Err(x)) && x.code == ErrorCode::UpstreamPlayUrlEmpty,
        act is AppendLog,
{
}

/// Once the retry has begun, no later step of the request goes back to a
/// first attempt: a request fetches the play URL at most twice.
pub proof fn law_retry_is_final(o: MusicUrlFlow, e: MusicUrlEvent, n: MusicUrlFlow, act: MusicUrlAction, now: i64)
    requires
        o.attempt == Attempt::Retry,
        o.phase == MusicUrlPhase::Refreshing || o.phase == MusicUrlPhase::AwaitFetch
            || o.phase == MusicUrlPhase::AwaitFetchUpsert || o.phase == MusicUrlPhase::AwaitLog,
        music_url_expects(o, e),
        step_spec(o, e, n, act, now),
    ensures
        n.attempt == Attempt::Retry,
        act is FetchMusicUrl ==> o.phase == MusicUrlPhase::Refreshing,
{
}

/// Once the source is found, every later step keeps it: the entries a request
/// logs name that source.
pub proof fn law_source_kept(o: MusicUrlFlow, e: MusicUrlEvent, n: MusicUrlFlow, act: MusicUrlAction, now: i64)
    requires
        o.source is Some,
        o.phase != MusicUrlPhase::AwaitSource,
        music_url_expects(o, e),
        step_spec(o, e, n, act, now),
    ensures
        n.source == o.source,
{
}

/// A fetch whose reply carries a play URL is answered with exactly that URL,
/// whichever attempt it was (the first, or the retry after a login refresh):
/// once the account is stored, a successful attempt is logged, and the request
/// then ends with `Ok` and the URL.
pub proof fn law_fetched_url_answered(
    o: MusicUrlFlow,
    m: MusicUrlFlow,
    act1: MusicUrlAction,
    n: MusicUrlFlow,
    act2: MusicUrlAction,
    now1: i64,
    now2: i64,
)
    requires
        o.phase == MusicUrlPhase::AwaitFetchUpsert,
        o.fetched matches Some(f) && f.0@.len() > 0,
        step_spec(o, MusicUrlEvent::Upserted(Ok(())), m, act1, now1),
        step_spec(m, MusicUrlEvent::Logged, n, act2, now2),
    ensures
        act1 matches MusicUrlAction::AppendLog(l) && l.ok && l.error is None
            && l.status_code == Some(o.fetched.unwrap().1),
        act2 matches MusicUrlAction::Done(Ok(resp)) && resp.url == o.fetched.unwrap().0,
        n.phase == MusicUrlPhase::Finished,
{
}

/// A first fetch that comes back without a URL because the login was refused
/// is not answered yet: the account's login is refreshed (from its current
/// cookies), and the request moves on to its retry.
pub proof fn law_auth_failure_refreshes_before_retry(o: MusicUrlFlow, n: MusicUrlFlow, act: MusicUrlAction, now: i64)
    requires
        o.phase == MusicUrlPhase::AwaitFetchUpsert,
        o.attempt == Attempt::First,
        o.fetched matches Some(f) && f.0@.len() == 0 && f.2,
        step_spec(o, MusicUrlEvent::Upserted(Ok(())), n, act, now),
    ensures
        n.phase == MusicUrlPhase::Refreshing,
        n.attempt == Attempt::Retry,
        n.outcome == o.outcome,
        act matches MusicUrlAction::Refresh(RefreshAction::RefreshLogin(c))
            && c.entries() == o.account.unwrap().cookies.entries(),
{
}

/// A fetch without a URL and without a refused login is not retried: a failed
/// attempt is logged and the request fails with `upstream_play_url_empty`.
pub proof fn law_empty_url_without_auth_failure_fails(o: MusicUrlFlow, n: MusicUrlFlow, act: MusicUrlAction, now: i64)
    requires
        o.phase == MusicUrlPhase::AwaitFetchUpsert,
        o.fetched matches Some(f) && f.0@.len() == 0 && !f.2,
        step_spec(o, MusicUrlEvent::Upserted(Ok(())), n, act, now),
    ensures
        n.phase == MusicUrlPhase::AwaitLog,
        n.outcome matches Some(Err(x)) && x.code == ErrorCode::UpstreamPlayUrlEmpty,
        act matches MusicUrlAction::AppendLog(l) && !l.ok,
{
}

/// Every entry that a request logs keeps an error only as `"upstream error"`.
pub proof fn law_logged_errors_sanitized(
    l: RuntimeLog,
    source_id: String,
    account_id: String,
    req: RuntimeMusicUrlRequest,
    ok: bool,
    status_code: u16,
    latency_ms: u128,
    has_error: bool,
    log_uuid: Seq<char>,
    now: i64,
)
    requires
        is_attempt_log(l, source_id, account_id, req, ok, status_code, latency_ms, has_error, log_uuid, now),
    ensures
        l.error is None || opt_view(l.error) == Some("upstream error"@),
{
}

impl MusicUrlFlow {
    /// The state that each phase relies on.
    pub open spec fn wf(&self) -> bool {
        &&& (self.phase != MusicUrlPhase::AwaitSource && self.phase != MusicUrlPhase::Finished
            && self.phase != MusicUrlPhase::AwaitLog) ==> self.source is Some
        &&& (self.phase == MusicUrlPhase::AwaitDfid || self.phase == MusicUrlPhase::AwaitDfidUpsert
            || self.phase == MusicUrlPhase::AwaitFetch || self.phase == MusicUrlPhase::AwaitFetchUpsert)
            ==> self.account is Some
        &&& self.phase == MusicUrlPhase::Refreshing ==> self.refresh is Some && self.refresh.unwrap().wf()
            && self.refresh.unwrap().require_vip && self.refresh.unwrap().phase != RefreshPhase::Finished
        &&& self.phase == MusicUrlPhase::AwaitFetchUpsert ==> self.fetched is Some
        &&& self.phase == MusicUrlPhase::AwaitLog ==> self.outcome is Some
        &&& self.outcome matches Some(Ok(r)) ==> r.url@.len() > 0
    }

    /// Starts a request: first the source of the runtime token. `log_uuid` is
    /// the fresh UUID of the request's log entry.
    pub fn start(
        runtime_token: String,
        req: RuntimeMusicUrlRequest,
        refresh_interval_secs: u64,
        log_uuid: String,
    ) -> (r: (Self, MusicUrlAction))
        ensures
            r.0.wf(),
            r.0.phase == MusicUrlPhase::AwaitSource,
            r.0.req == req,
            r.0.refresh_interval_secs == refresh_interval_secs,
            r.0.log_uuid == log_uuid,
            r.0.source is None,
            r.0.account is None,
            r.0.refresh is None,
            r.0.attempt == Attempt::First,
            r.0.first_status == 0,
            r.0.fetched is None,
            r.0.outcome is None,
            r.1 == MusicUrlAction::FindSourceByRuntimeToken(runtime_token),
    {
        (
            MusicUrlFlow {
                req,
                refresh_interval_secs,
                phase: MusicUrlPhase::AwaitSource,
                source: None,
                account: None,
                refresh: None,
                attempt: Attempt::First,
                first_status: 0,
                fetched: None,
                outcome: None,
                log_uuid,
            },
            MusicUrlAction::FindSourceByRuntimeToken(runtime_token),
        )
    }

    /// Ends the request with `outcome` once `log` is appended.
    fn log_then(&mut self, log: RuntimeLog, outcome: Result<RuntimeMusicUrlResponse, AppError>) -> (act: MusicUrlAction)
        ensures
            *final(self) == (MusicUrlFlow { phase: MusicUrlPhase::AwaitLog, outcome: Some(outcome), ..*old(self) }),
            act == MusicUrlAction::AppendLog(log),
    {
        self.phase = MusicUrlPhase::AwaitLog;
        self.outcome = Some(outcome);
        MusicUrlAction::AppendLog(log)
    }

    /// Logs a failed attempt with the error's text (kept in the log only as
    /// `"upstream error"`) and fails with `upstream_request_failed` of that text.
    fn log_and_err(&mut self, status_code: u16, error: &AppError, now: i64) -> (act: MusicUrlAction)
        requires
            old(self).source is Some,
            old(self).account is Some,
        ensures
            *final(self) == (MusicUrlFlow { phase: MusicUrlPhase::AwaitLog, outcome: final(self).outcome, ..*old(self) }),
            final(self).outcome matches Some(Err(x)) && x.code == ErrorCode::UpstreamRequestFailed
                && x.message@ == describe_seq(*error),
            act matches MusicUrlAction::AppendLog(l) && is_attempt_log(
                l,
                old(self).source.unwrap().source_id,
                old(self).account.unwrap().account_id,
                old(self).req,
                false,
                status_code,
                0,
                true,
                old(self).log_uuid@,
                now,
            ),
    {
        let msg = error.describe();
        let source_id = &self.source.as_ref().unwrap().source_id;
        let account_id = &self.account.as_ref().unwrap().account_id;
        let log = attempt_log(
            source_id,
            account_id,
            &self.req,
            false,
            status_code,
            0,
            Some(msg.as_str()),
            self.log_uuid.as_str(),
            now,
        );
        let err = AppError::upstream_request_failed(msg.as_str());
        self.log_then(log, Err(err))
    }

    /// After the account is ready (and its `dfid` stored): at `now`, refresh its
    /// login when due, else fetch the play URL.
    fn after_precheck(&mut self, account: ProviderAccount, now: i64) -> (act: MusicUrlAction)
        ensures
            precheck_spec(*old(self), account, now, *final(self), act),
    {
        self.attempt = Attempt::First;
        if needs_refresh(account.last_refresh_at, now, self.refresh_interval_secs) {
            let (r, a) = AccountRefresh::start(account, true);
            self.refresh = Some(r);
            self.account = None;
            self.phase = MusicUrlPhase::Refreshing;
            MusicUrlAction::Refresh(a)
        } else {
            let c = account.cookies.clone();
            self.account = Some(account);
            self.phase = MusicUrlPhase::AwaitFetch;
            MusicUrlAction::FetchMusicUrl(c, upstream_request(&self.req))
        }
    }

    /// Fetches the play URL with the account's cookies.
    fn fetch(&mut self) -> (act: MusicUrlAction)
        requires
            old(self).account is Some,
        ensures
            *final(self) == (MusicUrlFlow { phase: MusicUrlPhase::AwaitFetch, ..*old(self) }),
            act matches MusicUrlAction::FetchMusicUrl(c, r) && c.entries() == old(self).account.unwrap().cookies.entries()
                && r.hash == old(self).req.hash && r.album_audio_id == old(self).req.album_audio_id
                && r.quality == old(self).req.quality,
    {
        self.phase = MusicUrlPhase::AwaitFetch;
        let c = self.account.as_ref().unwrap().cookies.clone();
        MusicUrlAction::FetchMusicUrl(c, upstream_request(&self.req))
    }

    /// One step of the request; `now` is the clock reading at this step.
    pub fn step(&mut self, event: MusicUrlEvent, now: i64) -> (act: MusicUrlAction)
        requires
            old(self).wf(),
            music_url_expects(*old(self), event),
        ensures
            final(self).wf(),
            step_spec(*old(self), event, *final(self), act, now),
    {
        match event {
            MusicUrlEvent::SourceFound(Err(e)) => {
                self.phase = MusicUrlPhase::Finished;
                MusicUrlAction::Done(Err(e))
            },
            MusicUrlEvent::SourceFound(Ok(None)) => {
                self.phase = MusicUrlPhase::Finished;
                MusicUrlAction::Done(Err(AppError::source_not_found()))
            },
            MusicUrlEvent::SourceFound(Ok(Some(source))) => {
                if !source.enabled {
                    self.phase = MusicUrlPhase::Finished;
                    return MusicUrlAction::Done(Err(AppError::source_disabled()));
                }
                let id = source.account_id.clone();
                self.source = Some(source);
                self.phase = MusicUrlPhase::AwaitAccount;
                MusicUrlAction::FindAccount(id)
            },
            MusicUrlEvent::AccountFound(Err(e)) => {
                self.phase = MusicUrlPhase::Finished;
                MusicUrlAction::Done(Err(e))
            },
            MusicUrlEvent::AccountFound(Ok(None)) => {
                self.phase = MusicUrlPhase::Finished;
                MusicUrlAction::Done(Err(AppError::account_not_found()))
            },
            MusicUrlEvent::AccountFound(Ok(Some(account))) => {
                if account.status == AccountStatus::Disabled {
                    self.phase = MusicUrlPhase::Finished;
                    return MusicUrlAction::Done(Err(AppError::account_disabled()));
                }
                if !account.vip_active {
                    self.phase = MusicUrlPhase::Finished;
                    return MusicUrlAction::Done(Err(AppError::account_not_vip()));
                }
                if account.cookies.is_empty("dfid") {
                    let c = account.cookies.clone();
                    self.account = Some(account);
                    self.phase = MusicUrlPhase::AwaitDfid;
                    return MusicUrlAction::EnsureDfid(c);
                }
                self.after_precheck(account, now)
            },
            MusicUrlEvent::DfidEnsured(Err(e)) => {
                self.phase = MusicUrlPhase::Finished;
                MusicUrlAction::Done(Err(e))
            },
            MusicUrlEvent::DfidEnsured(Ok(c)) => {
                let mut account = self.account.take().unwrap();
                account.cookies = c;
                let stored = account.clone();
                self.account = Some(account);
                self.phase = MusicUrlPhase::AwaitDfidUpsert;
                MusicUrlAction::UpsertAccount(stored)
            },
            MusicUrlEvent::Upserted(Err(e)) => {
                self.phase = MusicUrlPhase::Finished;
                MusicUrlAction::Done(Err(e))
            },
            MusicUrlEvent::Upserted(Ok(())) => {
                if self.phase == MusicUrlPhase::AwaitDfidUpsert {
                    let account = self.account.take().unwrap();
                    let act = self.after_precheck(account, now);
                    return act;
                }
                // After a fetch: the reply's cookies are stored.
                let (url, status, auth_failed, latency) = self.fetched.take().unwrap();
                let source_id = self.source.as_ref().unwrap().source_id.clone();
                let account_id = self.account.as_ref().unwrap().account_id.clone();
                if !url.as_str().is_empty() {
                    let log = attempt_log(
                        &source_id,
                        &account_id,
                        &self.req,
                        true,
                        status,
                        latency,
                        None,
                        self.log_uuid.as_str(),
                        now,
                    );
                    return self.log_then(log, Ok(RuntimeMusicUrlResponse { url }));
                }
                if self.attempt == Attempt::First && auth_failed {
                    self.first_status = status;
                    let account = self.account.take().unwrap();
                    let (r, a) = AccountRefresh::start(account, true);
                    self.refresh = Some(r);
                    self.attempt = Attempt::Retry;
                    self.phase = MusicUrlPhase::Refreshing;
                    return MusicUrlAction::Refresh(a);
                }
                let msg = if self.attempt == Attempt::First {
                    "empty play url"
                } else {
                    "empty url after retry"
                };
                let log = attempt_log(
                    &source_id,
                    &account_id,
                    &self.req,
                    false,
                    status,
                    latency,
                    Some(msg),
                    self.log_uuid.as_str(),
                    now,
                );
                self.log_then(log, Err(AppError::upstream_play_url_empty()))
            },
            MusicUrlEvent::Refresh(re) => {
                let mut r = self.refresh.take().unwrap();
                let a = r.step(re, now);
                let ghost r2 = r;
                let ghost ra = a;
                assert(refresh_step_spec(old(self).refresh.unwrap(), re, r2, ra, now));
                match a {
                    RefreshAction::Done(Ok(_)) => {
                        self.account = Some(r.account);
                        self.fetch()
                    },
                    RefreshAction::Done(Err(e)) => {
                        self.account = Some(r.account);
                        let status = if self.attempt == Attempt::First {
                            0
                        } else {
                            self.first_status
                        };
                        self.log_and_err(status, &e, now)
                    },
                    other => {
                        self.refresh = Some(r);
                        MusicUrlAction::Refresh(other)
                    },
                }
            },
            MusicUrlEvent::MusicFetched(Err(e), _) => {
                self.log_and_err(0, &e, now)
            },
            MusicUrlEvent::MusicFetched(Ok(mr), latency) => {
                let mut account = self.account.take().unwrap();
                account.cookies = mr.cookies;
                let stored = account.clone();
                self.account = Some(account);
                self.fetched = Some((mr.url, mr.status_code, mr.auth_failed, latency));
                self.phase = MusicUrlPhase::AwaitFetchUpsert;
                MusicUrlAction::UpsertAccount(stored)
            },
            MusicUrlEvent::Logged => {
                self.phase = MusicUrlPhase::Finished;
                MusicUrlAction::Done(self.outcome.take().unwrap())
            },
        }
    }
}

} // verus!

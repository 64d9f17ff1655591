//! The QR-code login: starting a session, and polling it until the scanned
//! account is bound to a source.
//!
//! Both flows are machines: each step takes what the caller hands back (a
//! lookup, an upstream reply, a store's outcome) and says what it does next.
use vstd::prelude::*;

use crate::domain::account::{AccountStatus, ProviderAccount};
use crate::domain::cookie_store::CookieStore;
use crate::domain::login_session::{LoginSession, LoginSessionStatus};
use crate::domain::provider::ProviderKind;
use crate::domain::source::Source;
use crate::error::{AppError, ErrorCode};
use crate::ids::new_id;
use crate::services::kugou_lite_client::{
    QrCreateResult, QrKeyResult, QrPollResult, RefreshResult, VipStatusResult,
};
use crate::services::source::{script_url, script_url_seq};
use crate::text::{clone_opt, concat3};

verus! {

/// The answer to the start of a QR login.
pub struct QrLoginStartResponse {
    pub session_id: String,
    pub status: String,
    pub qr_url: String,
    pub qr_base64: Option<String>,
    pub expires_at: i64,
}

/// The answer to a poll of a QR login.
pub struct QrLoginPollResponse {
    pub session_id: String,
    pub status: String,
    pub account: Option<AccountInfo>,
    pub source: Option<SourceInfo>,
}

/// The bound account, as a poll answer shows it.
pub struct AccountInfo {
    pub account_id: String,
    pub userid: String,
    pub vip_active: bool,
    pub vip_type: i32,
}

/// The bound source, as a poll answer shows it.
pub struct SourceInfo {
    pub source_id: String,
    pub name: String,
    pub script_url: String,
}

/// A poll answer with a status and nothing bound.
pub fn state_response(session_id: &str, status: &str) -> (r: QrLoginPollResponse)
    ensures
        r.session_id@ == session_id@,
        r.status@ == status@,
        r.account is None,
        r.source is None,
{
    QrLoginPollResponse {
        session_id: String::from_str(session_id),
        status: String::from_str(status),
        account: None,
        source: None,
    }
}

/// A poll answer for a bound session: the account and the source with its script URL.
pub open spec fn is_bound_response(
    r: QrLoginPollResponse,
    session_id: Seq<char>,
    account_id: String,
    userid: Seq<char>,
    vip_active: bool,
    vip_type: i32,
    src: Source,
    base: Seq<char>,
) -> bool {
    &&& r.session_id@ == session_id
    &&& r.status@ == "bound"@
    &&& r.account matches Some(a) && a.account_id == account_id && a.userid@ == userid
        && a.vip_active == vip_active && a.vip_type == vip_type
    &&& r.source matches Some(s) && s.source_id == src.source_id && s.name == src.name
        && s.script_url@ == script_url_seq(base, src.script_token@)
}

/// The poll answer for a bound session.
pub fn bound_response(
    session_id: &str,
    account_id: &String,
    userid: &str,
    vip_active: bool,
    vip_type: i32,
    src: &Source,
    base: &str,
) -> (r: QrLoginPollResponse)
    ensures
        is_bound_response(r, session_id@, *account_id, userid@, vip_active, vip_type, *src, base@),
{
    QrLoginPollResponse {
        session_id: String::from_str(session_id),
        status: String::from_str("bound"),
        account: Some(
            AccountInfo {
                account_id: account_id.clone(),
                userid: String::from_str(userid),
                vip_active,
                vip_type,
            },
        ),
        source: Some(
            SourceInfo {
                source_id: src.source_id.clone(),
                name: src.name.clone(),
                script_url: script_url(base, src.script_token.as_str()),
            },
        ),
    }
}

/// How long a QR login session lasts, in seconds.
pub const SESSION_TTL_SECS: i64 = 300;

// ---------------------------------------------------------------------------
// Starting a QR login
// ---------------------------------------------------------------------------

/// Where the start of a QR login stands.
#[derive(Debug, Clone, Copy, PartialEq, Eq, Structural)]
pub enum QrStartPhase {
    AwaitPendingSave,
    AwaitKey,
    AwaitKeySave,
    AwaitQr,
    AwaitQrSave,
    Finished,
}

/// What the caller does next.
pub enum QrStartAction {
    /// Store the session; a failure ends the start with that error.
    SaveSession(LoginSession),
    /// Ask the upstream for a QR key with these cookies.
    RequestQrKey(CookieStore),
    /// Ask the upstream for the QR image of this key with these cookies.
    CreateQrCode(String, CookieStore),
    /// The answer.
    Done(Result<QrLoginStartResponse, AppError>),
}

/// What the caller hands back.
pub enum QrStartEvent {
    Saved(Result<(), AppError>),
    KeyReceived(Result<QrKeyResult, AppError>),
    QrCreated(Result<QrCreateResult, AppError>),
}

/// The start of a QR login in progress.
pub struct QrStartFlow {
    pub session: LoginSession,
    pub phase: QrStartPhase,
}

/// The event is the one the phase waits for.
pub open spec fn qr_start_expects(phase: QrStartPhase, e: QrStartEvent) -> bool {
    match phase {
        QrStartPhase::AwaitPendingSave | QrStartPhase::AwaitKeySave | QrStartPhase::AwaitQrSave => e is Saved,
        QrStartPhase::AwaitKey => e is KeyReceived,
        QrStartPhase::AwaitQr => e is QrCreated,
        QrStartPhase::Finished => false,
    }
}

/// A new pending session: id `sess_{uuid}`, created at `now`, expiring five minutes later.
pub open spec fn is_new_session(s: LoginSession, now: i64, uuid: Seq<char>) -> bool {
    &&& s.session_id@ == "sess_"@ + uuid
    &&& s.provider == ProviderKind::KugouLite
    &&& s.status == LoginSessionStatus::Pending
    &&& s.qr_key@.len() == 0
    &&& s.qr_url@.len() == 0
    &&& s.qr_base64 is None
    &&& s.temp_cookies@ == Map::<Seq<char>, Seq<char>>::empty()
    &&& s.bound_account_id is None
    &&& s.error is None
    &&& s.created_at == now
    &&& s.expires_at == now.wrapping_add(SESSION_TTL_SECS)
    &&& s.updated_at == now
}

/// One step of the start of a QR login at `now`.
pub open spec fn qr_start_step_spec(o: QrStartFlow, e: QrStartEvent, n: QrStartFlow, act: QrStartAction, now: i64) -> bool {
    match e {
        QrStartEvent::Saved(Err(x)) | QrStartEvent::KeyReceived(Err(x)) | QrStartEvent::QrCreated(Err(x)) => {
            &&& n.phase == QrStartPhase::Finished
            &&& n.session == o.session
            &&& act == QrStartAction::Done(Err(x))
        },
        QrStartEvent::Saved(Ok(())) => match o.phase {
            QrStartPhase::AwaitPendingSave => {
                &&& n.phase == QrStartPhase::AwaitKey
                &&& n.session == o.session
                &&& act matches QrStartAction::RequestQrKey(c) && c.entries() == o.session.temp_cookies.entries()
            },
            QrStartPhase::AwaitKeySave => {
                &&& n.phase == QrStartPhase::AwaitQr
                &&& n.session == o.session
                &&& act matches QrStartAction::CreateQrCode(k, c) && k == o.session.qr_key
                    && c.entries() == o.session.temp_cookies.entries()
            },
            _ => {
                &&& n.phase == QrStartPhase::Finished
                &&& n.session == o.session
                &&& act matches QrStartAction::Done(Ok(r)) && r.session_id == o.session.session_id
                    && r.status@ == "waiting_scan"@ && r.qr_url == o.session.qr_url
                    && r.qr_base64 == o.session.qr_base64 && r.expires_at == o.session.expires_at
            },
        },
        QrStartEvent::KeyReceived(Ok(k)) => {
            &&& n.phase == QrStartPhase::AwaitKeySave
            &&& n.session == (LoginSession { qr_key: k.qr_key, temp_cookies: k.cookies, updated_at: now, ..o.session })
            &&& act matches QrStartAction::SaveSession(s) && s.same_as(n.session)
        },
        QrStartEvent::QrCreated(Ok(q)) => {
            &&& n.phase == QrStartPhase::AwaitQrSave
            &&& n.session == (LoginSession {
                qr_url: q.qr_url,
                qr_base64: q.qr_base64,
                temp_cookies: q.cookies,
                status: LoginSessionStatus::WaitingScan,
                updated_at: now,
                ..o.session
            })
            &&& act matches QrStartAction::SaveSession(s) && s.same_as(n.session)
        },
    }
}

impl QrStartFlow {
    /// Starts a QR login: a new pending session at `now`, with the id
    /// `sess_{session_uuid}`, first stored.
    pub fn start(now: i64, session_uuid: &str) -> (r: (Self, QrStartAction))
        ensures
            r.0.phase == QrStartPhase::AwaitPendingSave,
            is_new_session(r.0.session, now, session_uuid@),
            r.1 matches QrStartAction::SaveSession(s) && s.same_as(r.0.session),
    {
        let session_id = new_id("sess_", session_uuid);
        proof {
            reveal_strlit("sess_");
        }
        let session = LoginSession {
            session_id,
            provider: ProviderKind::KugouLite,
            status: LoginSessionStatus::Pending,
            qr_key: String::new(),
            qr_url: String::new(),
            qr_base64: None,
            temp_cookies: CookieStore::new(),
            bound_account_id: None,
            error: None,
            created_at: now,
            expires_at: now.wrapping_add(SESSION_TTL_SECS),
            updated_at: now,
        };
        let stored = session.clone();
        (QrStartFlow { session, phase: QrStartPhase::AwaitPendingSave }, QrStartAction::SaveSession(stored))
    }

    /// One step of the start; `now` is the clock reading at this step.
    pub fn step(&mut self, event: QrStartEvent, now: i64) -> (act: QrStartAction)
        requires
            qr_start_expects(old(self).phase, event),
        ensures
            qr_start_step_spec(*old(self), event, *final(self), act, now),
    {
        match event {
            QrStartEvent::Saved(Err(e)) | QrStartEvent::KeyReceived(Err(e)) | QrStartEvent::QrCreated(Err(e)) => {
                self.phase = QrStartPhase::Finished;
                QrStartAction::Done(Err(e))
            },
            QrStartEvent::Saved(Ok(())) => {
                match self.phase {
                    QrStartPhase::AwaitPendingSave => {
                        self.phase = QrStartPhase::AwaitKey;
                        QrStartAction::RequestQrKey(self.session.temp_cookies.clone())
                    },
                    QrStartPhase::AwaitKeySave => {
                        self.phase = QrStartPhase::AwaitQr;
                        QrStartAction::CreateQrCode(self.session.qr_key.clone(), self.session.temp_cookies.clone())
                    },
                    _ => {
                        self.phase = QrStartPhase::Finished;
                        QrStartAction::Done(
                            Ok(
                                QrLoginStartResponse {
                                    session_id: self.session.session_id.clone(),
                                    status: String::from_str("waiting_scan"),
                                    qr_url: self.session.qr_url.clone(),
                                    qr_base64: clone_opt(&self.session.qr_base64),
                                    expires_at: self.session.expires_at,
                                },
                            ),
                        )
                    },
                }
            },
            QrStartEvent::KeyReceived(Ok(k)) => {
                self.session.qr_key = k.qr_key;
                self.session.temp_cookies = k.cookies;
                self.session.updated_at = now;
                self.phase = QrStartPhase::AwaitKeySave;
                QrStartAction::SaveSession(self.session.clone())
            },
            QrStartEvent::QrCreated(Ok(q)) => {
                self.session.qr_url = q.qr_url;
                self.session.qr_base64 = q.qr_base64;
                self.session.temp_cookies = q.cookies;
                self.session.status = LoginSessionStatus::WaitingScan;
                self.session.updated_at = now;
                self.phase = QrStartPhase::AwaitQrSave;
                QrStartAction::SaveSession(self.session.clone())
            },
        }
    }
}

// ---------------------------------------------------------------------------
// Polling a QR login
// ---------------------------------------------------------------------------

/// Where a poll of a QR login stands.
#[derive(Debug, Clone, Copy, PartialEq, Eq, Structural)]
pub enum QrPollPhase {
    AwaitSession,
    AwaitBoundAccount,
    AwaitBoundSource,
    AwaitPoll,
    AwaitSave,
    AwaitRefresh,
    AwaitDfid,
    AwaitVip,
    AwaitAccountByUserid,
    AwaitAccountUpsert,
    AwaitSourceByAccount,
    AwaitSourceUpsert,
    Finished,
}

/// What follows a store of the session.
#[derive(Debug, Clone, Copy, PartialEq, Eq, Structural)]
pub enum AfterSave {
    /// Answer with the outcome held.
    Finish,
    /// Act on the status code of the QR check.
    DispatchPollStatus,
    /// Renew the login token.
    RequestRefresh,
    /// Register the device when there is no `dfid`, else read the VIP state.
    CheckDfid,
    /// Read the VIP state.
    FetchVip,
    /// Refuse an account without VIP, else bind the account.
    CheckVip,
}

/// The fresh UUIDs that a poll uses when it binds a new account and source.
pub struct FreshIds {
    pub account: String,
    pub source: String,
    pub script_token: String,
    pub runtime_token: String,
}

/// What the caller does next.
pub enum QrPollAction {
    FindSession(String),
    FindAccountById(String),
    FindSourceByAccount(String),
    /// Ask the upstream for the state of the QR key with these cookies.
    PollQr(String, CookieStore),
    /// Store the session; a failure ends the poll with that error.
    SaveSession(LoginSession),
    RefreshLogin(CookieStore),
    EnsureDfid(CookieStore),
    FetchVip(CookieStore),
    FindAccountByUserid(String),
    UpsertAccount(ProviderAccount),
    UpsertSource(Source),
    /// The answer.
    Done(Result<QrLoginPollResponse, AppError>),
}

/// What the caller hands back.
pub enum QrPollEvent {
    SessionFound(Result<Option<LoginSession>, AppError>),
    AccountFound(Result<Option<ProviderAccount>, AppError>),
    SourceFound(Result<Option<Source>, AppError>),
    Polled(Result<QrPollResult, AppError>),
    Saved(Result<(), AppError>),
    LoginRefreshed(Result<RefreshResult, AppError>),
    DfidEnsured(Result<CookieStore, AppError>),
    VipFetched(Result<VipStatusResult, AppError>),
    AccountUpserted(Result<(), AppError>),
    SourceUpserted(Result<(), AppError>),
}

/// A poll of a QR login in progress.
pub struct QrPollFlow {
    /// The session id asked for.
    pub session_id: String,
    pub public_base_url: String,
    pub source_name_prefix: String,
    pub phase: QrPollPhase,
    pub session: Option<LoginSession>,
    /// The time of the poll.
    pub now: i64,
    pub poll_status: i64,
    pub poll_message: Option<String>,
    pub after_save: AfterSave,
    pub vip_type: i32,
    pub vip_active: bool,
    pub userid: String,
    pub account: Option<ProviderAccount>,
    /// The time at which the account is bound.
    pub now2: i64,
    /// The source created for the account, when it had none.
    pub new_source: Option<Source>,
    pub outcome: Option<Result<QrLoginPollResponse, AppError>>,
    /// The UUIDs of a new account and source, should the poll make them.
    pub fresh: FreshIds,
}

/// The event is the one the phase waits for.
pub open spec fn qr_poll_expects(phase: QrPollPhase, e: QrPollEvent) -> bool {
    match phase {
        QrPollPhase::AwaitSession => e is SessionFound,
        QrPollPhase::AwaitBoundAccount | QrPollPhase::AwaitAccountByUserid => e is AccountFound,
        QrPollPhase::AwaitBoundSource | QrPollPhase::AwaitSourceByAccount => e is SourceFound,
        QrPollPhase::AwaitPoll => e is Polled,
        QrPollPhase::AwaitSave => e is Saved,
        QrPollPhase::AwaitRefresh => e is LoginRefreshed,
        QrPollPhase::AwaitDfid => e is DfidEnsured,
        QrPollPhase::AwaitVip => e is VipFetched,
        QrPollPhase::AwaitAccountUpsert => e is AccountUpserted,
        QrPollPhase::AwaitSourceUpsert => e is SourceUpserted,
        QrPollPhase::Finished => false,
    }
}

/// The message with which a failed QR check is reported.
pub open spec fn qr_failure_message(m: Option<String>) -> Seq<char> {
    match m {
        Some(s) => s@,
        None => "unknown qr check error"@,
    }
}

/// The session is stored, then `then` follows.
pub open spec fn saves(n: QrPollFlow, act: QrPollAction, then: AfterSave) -> bool {
    &&& n.phase == QrPollPhase::AwaitSave
    &&& n.after_save == then
    &&& n.session is Some
    &&& act matches QrPollAction::SaveSession(s) && s.same_as(n.session.unwrap())
}

/// The session is stored, then the poll answers with `out`.
pub open spec fn saves_then_answers(n: QrPollFlow, act: QrPollAction) -> bool {
    saves(n, act, AfterSave::Finish) && n.outcome is Some
}

/// The session with its status, its update time, and nothing else changed.
pub open spec fn with_status(s: LoginSession, status: LoginSessionStatus, at: i64) -> LoginSession {
    LoginSession { status, updated_at: at, ..s }
}

/// The account bound by a login at `now2`: the stored account of the user id
/// renewed, or a new one with id `acc_{uuid}`; active, with the session's
/// cookies and the VIP state read.
pub open spec fn is_login_account(
    a: ProviderAccount,
    existing: Option<ProviderAccount>,
    userid: Seq<char>,
    cookies: CookieStore,
    vip_type: i32,
    vip_active: bool,
    now2: i64,
    fresh_account: Seq<char>,
) -> bool {
    &&& a.cookies.entries() == cookies.entries()
    &&& a.status == AccountStatus::Active
    &&& a.vip_type == vip_type
    &&& a.vip_active == vip_active
    &&& a.last_refresh_at == Some(now2)
    &&& a.last_success_at == Some(now2)
    &&& a.last_error is None
    &&& a.updated_at == now2
    &&& match existing {
        Some(e) => {
            &&& a.account_id == e.account_id
            &&& a.provider == e.provider
            &&& a.upstream_userid == e.upstream_userid
            &&& a.display_name == e.display_name
            &&& a.created_at == e.created_at
        },
        None => {
            &&& a.account_id@ == "acc_"@ + fresh_account
            &&& a.provider == ProviderKind::KugouLite
            &&& a.upstream_userid@ == userid
            &&& a.display_name is None
            &&& a.created_at == now2
        },
    }
}

/// The source created at `now` for a newly bound account: ids `src_`, `st_`
/// and `rt_` followed by the fresh UUIDs, named by the prefix and the user id,
/// enabled.
pub open spec fn is_new_source(
    s: Source,
    account_id: String,
    prefix: Seq<char>,
    userid: Seq<char>,
    fresh: FreshIds,
    now: i64,
) -> bool {
    &&& s.source_id@ == "src_"@ + fresh.source@
    &&& s.account_id == account_id
    &&& s.provider == ProviderKind::KugouLite
    &&& s.name@ == prefix + " "@ + userid
    &&& s.enabled
    &&& s.script_token@ == "st_"@ + fresh.script_token@
    &&& s.runtime_token@ == "rt_"@ + fresh.runtime_token@
    &&& s.created_at == now
    &&& s.updated_at == now
}

/// The last step of a login: the session is bound to the account and stored,
/// and the poll then answers with the account and its source.
pub open spec fn binds(o: QrPollFlow, src: Source, n: QrPollFlow, act: QrPollAction) -> bool {
    let acc = o.account.unwrap();
    &&& saves(n, act, AfterSave::Finish)
    &&& n == (QrPollFlow {
        phase: QrPollPhase::AwaitSave,
        after_save: AfterSave::Finish,
        session: n.session,
        outcome: n.outcome,
        ..o
    })
    &&& n.session.unwrap() == (LoginSession {
        status: LoginSessionStatus::Bound,
        bound_account_id: Some(acc.account_id),
        updated_at: o.now2,
        ..o.session.unwrap()
    })
    &&& n.outcome matches Some(Ok(r)) && is_bound_response(
        r,
        o.session_id@,
        acc.account_id,
        o.userid@,
        o.vip_active,
        o.vip_type,
        src,
        o.public_base_url@,
    )
}

/// What follows the store of the session, by `after_save`, at `now`.
pub open spec fn after_save_spec(o: QrPollFlow, n: QrPollFlow, act: QrPollAction, now: i64) -> bool {
    let s = o.session.unwrap();
    match o.after_save {
        AfterSave::Finish => {
            &&& n == (QrPollFlow { phase: QrPollPhase::Finished, outcome: None, ..o })
            &&& act == QrPollAction::Done(o.outcome.unwrap())
        },
        AfterSave::DispatchPollStatus => (n == QrPollFlow {
            phase: QrPollPhase::AwaitSave,
            after_save: n.after_save,
            session: n.session,
            outcome: n.outcome,
            ..o
        }) && if o.poll_status == 0 {
            &&& saves_then_answers(n, act)
            &&& n.session.unwrap() == with_status(s, LoginSessionStatus::Expired, o.now)
            &&& n.outcome matches Some(Ok(r)) && r.session_id@ == o.session_id@ && r.status@ == "expired"@
                && r.account is None && r.source is None
        } else if o.poll_status == 2 {
            &&& saves_then_answers(n, act)
            &&& n.session.unwrap() == with_status(s, LoginSessionStatus::WaitingConfirm, o.now)
            &&& n.outcome matches Some(Ok(r)) && r.session_id@ == o.session_id@ && r.status@ == "waiting_confirm"@
                && r.account is None && r.source is None
        } else if o.poll_status == 1 {
            &&& saves_then_answers(n, act)
            &&& n.session.unwrap() == (LoginSession { updated_at: o.now, ..s })
            &&& n.outcome matches Some(Ok(r)) && r.session_id@ == o.session_id@ && r.status@ == "waiting_scan"@
                && r.account is None && r.source is None
        } else if o.poll_status == 4 {
            &&& saves(n, act, AfterSave::RequestRefresh)
            &&& n.session.unwrap() == with_status(s, LoginSessionStatus::Authorized, o.now)
        } else {
            &&& saves_then_answers(n, act)
            &&& n.session.unwrap() == (LoginSession {
                status: LoginSessionStatus::Failed,
                error: o.poll_message,
                updated_at: o.now,
                ..s
            })
            &&& n.outcome matches Some(Err(x)) && x.code == ErrorCode::UpstreamLoginFailed
                && x.message@ == qr_failure_message(o.poll_message)
        },
        AfterSave::RequestRefresh => {
            &&& n == (QrPollFlow { phase: QrPollPhase::AwaitRefresh, ..o })
            &&& act matches QrPollAction::RefreshLogin(c) && c.entries() == s.temp_cookies.entries()
        },
        AfterSave::CheckDfid => if crate::services::runtime::dfid_missing(s.temp_cookies@) {
            &&& n == (QrPollFlow { phase: QrPollPhase::AwaitDfid, ..o })
            &&& act matches QrPollAction::EnsureDfid(c) && c.entries() == s.temp_cookies.entries()
        } else {
            &&& n == (QrPollFlow { phase: QrPollPhase::AwaitVip, ..o })
            &&& act matches QrPollAction::FetchVip(c) && c.entries() == s.temp_cookies.entries()
        },
        AfterSave::FetchVip => {
            &&& n == (QrPollFlow { phase: QrPollPhase::AwaitVip, ..o })
            &&& act matches QrPollAction::FetchVip(c) && c.entries() == s.temp_cookies.entries()
        },
        AfterSave::CheckVip => if !o.vip_active {
            &&& n == (QrPollFlow {
                phase: QrPollPhase::AwaitSave,
                after_save: AfterSave::Finish,
                session: n.session,
                outcome: n.outcome,
                ..o
            })
            &&& saves_then_answers(n, act)
            &&& n.session.unwrap() == (LoginSession {
                status: LoginSessionStatus::Failed,
                error: n.session.unwrap().error,
                updated_at: now,
                ..s
            })
            &&& n.session.unwrap().error matches Some(m) && m@ == "VIP not active for concept membership"@
            &&& n.outcome matches Some(Err(x)) && x.code == ErrorCode::AccountNotVip
        } else if s.temp_cookies@.contains_key("userid"@) && s.temp_cookies@["userid"@].len() > 0 {
            &&& n == (QrPollFlow { phase: QrPollPhase::AwaitAccountByUserid, userid: n.userid, ..o })
            &&& n.userid@ == s.temp_cookies@["userid"@]
            &&& act matches QrPollAction::FindAccountByUserid(u) && u@ == s.temp_cookies@["userid"@]
        } else {
            &&& n == (QrPollFlow { phase: QrPollPhase::Finished, ..o })
            &&& act matches QrPollAction::Done(Err(x)) && x.code == ErrorCode::UpstreamLoginFailed
                && x.message@ == "missing userid after qr authorization"@
        },
    }
}

/// One step of a poll at `now`: `o` becomes `n` with the action `act` on `e`.
pub open spec fn qr_poll_step_spec(o: QrPollFlow, e: QrPollEvent, n: QrPollFlow, act: QrPollAction, now: i64) -> bool {
    match e {
        QrPollEvent::SessionFound(Err(x)) | QrPollEvent::AccountFound(Err(x)) | QrPollEvent::SourceFound(Err(x))
        | QrPollEvent::Polled(Err(x)) | QrPollEvent::Saved(Err(x)) | QrPollEvent::LoginRefreshed(Err(x))
        | QrPollEvent::DfidEnsured(Err(x)) | QrPollEvent::VipFetched(Err(x)) | QrPollEvent::AccountUpserted(Err(x))
        | QrPollEvent::SourceUpserted(Err(x)) => {
            &&& n == (QrPollFlow { phase: QrPollPhase::Finished, ..o })
            &&& act == QrPollAction::Done(Err(x))
        },
        QrPollEvent::SessionFound(Ok(None)) => {
            &&& n == (QrPollFlow { phase: QrPollPhase::Finished, ..o })
            &&& act matches QrPollAction::Done(Err(x)) && x.code == ErrorCode::LoginSessionNotFound
        },
        QrPollEvent::SessionFound(Ok(Some(s))) => if s.status == LoginSessionStatus::Bound {
            match s.bound_account_id {
                None => {
                    &&& n == (QrPollFlow { phase: QrPollPhase::Finished, ..o })
                    &&& act matches QrPollAction::Done(Err(x)) && x.code == ErrorCode::AccountNotFound
                },
                Some(id) => {
                    &&& n == (QrPollFlow { phase: QrPollPhase::AwaitBoundAccount, session: Some(s), ..o })
                    &&& act == QrPollAction::FindAccountById(id)
                },
            }
        } else if now >= s.expires_at {
            &&& n == (QrPollFlow {
                now,
                phase: QrPollPhase::AwaitSave,
                after_save: AfterSave::Finish,
                session: n.session,
                outcome: n.outcome,
                ..o
            })
            &&& saves_then_answers(n, act)
            &&& n.session.unwrap() == with_status(s, LoginSessionStatus::Expired, now)
            &&& n.outcome matches Some(Ok(r)) && r.session_id@ == o.session_id@ && r.status@ == "expired"@
                && r.account is None && r.source is None
        } else {
            &&& n == (QrPollFlow { now, phase: QrPollPhase::AwaitPoll, session: Some(s), ..o })
            &&& act matches QrPollAction::PollQr(k, c) && k == s.qr_key && c.entries() == s.temp_cookies.entries()
        },
        QrPollEvent::Polled(Ok(p)) => {
            &&& n == (QrPollFlow {
                phase: QrPollPhase::AwaitSave,
                after_save: AfterSave::DispatchPollStatus,
                session: n.session,
                poll_status: p.status_code,
                poll_message: p.message,
                ..o
            })
            &&& saves(n, act, AfterSave::DispatchPollStatus)
            &&& n.session.unwrap() == (LoginSession { temp_cookies: p.cookies, updated_at: o.now, ..o.session.unwrap() })
            &&& n.poll_status == p.status_code
            &&& n.poll_message == p.message
            &&& n.now == o.now
        },
        QrPollEvent::Saved(Ok(())) => after_save_spec(o, n, act, now),
        QrPollEvent::LoginRefreshed(Ok(r)) => {
            &&& n == (QrPollFlow { phase: QrPollPhase::AwaitSave, after_save: AfterSave::CheckDfid, session: n.session, ..o })
            &&& saves(n, act, AfterSave::CheckDfid)
            &&& n.session.unwrap() == (LoginSession { temp_cookies: r.cookies, updated_at: now, ..o.session.unwrap() })
        },
        QrPollEvent::DfidEnsured(Ok(c)) => {
            &&& n == (QrPollFlow { phase: QrPollPhase::AwaitSave, after_save: AfterSave::FetchVip, session: n.session, ..o })
            &&& saves(n, act, AfterSave::FetchVip)
            &&& n.session.unwrap() == (LoginSession { temp_cookies: c, updated_at: now, ..o.session.unwrap() })
        },
        QrPollEvent::VipFetched(Ok(v)) => {
            &&& n == (QrPollFlow {
                phase: QrPollPhase::AwaitSave,
                after_save: AfterSave::CheckVip,
                session: n.session,
                vip_type: v.vip_type,
                vip_active: v.vip_active,
                ..o
            })
            &&& saves(n, act, AfterSave::CheckVip)
            &&& n.session.unwrap().temp_cookies.entries() == v.cookies.entries()
            &&& n.session.unwrap() == (LoginSession { temp_cookies: n.session.unwrap().temp_cookies, updated_at: now, ..o.session.unwrap() })
            &&& n.vip_type == v.vip_type
            &&& n.vip_active == v.vip_active
        },
        QrPollEvent::AccountFound(Ok(found)) => if o.phase == QrPollPhase::AwaitBoundAccount {
            match found {
                None => {
                    &&& n == (QrPollFlow { phase: QrPollPhase::Finished, ..o })
                    &&& act matches QrPollAction::Done(Err(x)) && x.code == ErrorCode::AccountNotFound
                },
                Some(a) => {
                    &&& n == (QrPollFlow { phase: QrPollPhase::AwaitBoundSource, account: Some(a), ..o })
                    &&& act == QrPollAction::FindSourceByAccount(o.session.unwrap().bound_account_id.unwrap())
                },
            }
        } else {
            &&& n == (QrPollFlow { phase: QrPollPhase::AwaitAccountUpsert, account: n.account, now2: now, ..o })
            &&& n.account is Some
            &&& is_login_account(
                n.account.unwrap(),
                found,
                o.userid@,
                o.session.unwrap().temp_cookies,
                o.vip_type,
                o.vip_active,
                now,
                o.fresh.account@,
            )
            &&& act matches QrPollAction::UpsertAccount(a) && a.same_as(n.account.unwrap())
        },
        QrPollEvent::SourceFound(Ok(found)) => if o.phase == QrPollPhase::AwaitBoundSource {
            match found {
                None => {
                    &&& n == (QrPollFlow { phase: QrPollPhase::Finished, ..o })
                    &&& act matches QrPollAction::Done(Err(x)) && x.code == ErrorCode::SourceNotFound
                },
                Some(src) => {
                    let acc = o.account.unwrap();
                    &&& n == (QrPollFlow { phase: QrPollPhase::Finished, ..o })
                    &&& act matches QrPollAction::Done(Ok(r)) && is_bound_response(
                        r,
                        o.session.unwrap().session_id@,
                        acc.account_id,
                        acc.upstream_userid@,
                        acc.vip_active,
                        acc.vip_type,
                        src,
                        o.public_base_url@,
                    )
                },
            }
        } else {
            match found {
                Some(src) => binds(o, src, n, act),
                None => {
                    &&& n == (QrPollFlow { phase: QrPollPhase::AwaitSourceUpsert, new_source: n.new_source, ..o })
                    &&& n.new_source is Some
                    &&& is_new_source(
                        n.new_source.unwrap(),
                        o.account.unwrap().account_id,
                        o.source_name_prefix@,
                        o.userid@,
                        o.fresh,
                        now,
                    )
                    &&& act matches QrPollAction::UpsertSource(x) && x == n.new_source.unwrap()
                },
            }
        },
        QrPollEvent::AccountUpserted(Ok(())) => {
            &&& n == (QrPollFlow { phase: QrPollPhase::AwaitSourceByAccount, ..o })
            &&& act == QrPollAction::FindSourceByAccount(o.account.unwrap().account_id)
        },
        QrPollEvent::SourceUpserted(Ok(())) => binds(o, o.new_source.unwrap(), n, act),
    }
}

/// A poll of a session that is already bound answers from storage: it looks
/// up the bound account (or refuses a session without one) and neither
/// contacts the upstream nor changes the session.
pub proof fn law_bound_session_answered_from_storage(o: QrPollFlow, s: LoginSession, n: QrPollFlow, act: QrPollAction, now: i64)
    requires
        qr_poll_step_spec(o, QrPollEvent::SessionFound(Ok(Some(s))), n, act, now),
        s.status == LoginSessionStatus::Bound,
    ensures
        act is FindAccountById || act is Done,
{
}

/// A poll of an unbound session at or after its expiry stores it as expired and
/// answers `expired`, without asking the upstream about its QR key.
pub proof fn law_expired_session_not_polled(o: QrPollFlow, s: LoginSession, n: QrPollFlow, act: QrPollAction, now: i64)
    requires
        qr_poll_step_spec(o, QrPollEvent::SessionFound(Ok(Some(s))), n, act, now),
        s.status != LoginSessionStatus::Bound,
        now >= s.expires_at,
    ensures
        act is SaveSession,
        n.session.unwrap().status == LoginSessionStatus::Expired,
        n.outcome matches Some(Ok(r)) && r.status@ == "expired"@,
{
}

/// A poll answers `bound` with an account and a source only once both are
/// stored: the answer is held until the bound session itself is stored.
pub proof fn law_bound_answer_after_binding(o: QrPollFlow, e: QrPollEvent, n: QrPollFlow, act: QrPollAction, now: i64)
    requires
        qr_poll_step_spec(o, e, n, act, now),
        o.phase == QrPollPhase::AwaitSourceByAccount || o.phase == QrPollPhase::AwaitSourceUpsert,
        e matches QrPollEvent::SourceFound(Ok(Some(_))) || e matches QrPollEvent::SourceUpserted(Ok(())),
    ensures
        act is SaveSession,
        n.session.unwrap().status == LoginSessionStatus::Bound,
        n.session.unwrap().bound_account_id == Some(o.account.unwrap().account_id),
{
}

/// A poll of an already bound session answers with the stored account as it
/// is now: its id, user id, VIP flag and VIP type (a lapsed VIP shows as
/// inactive), and the source found for it with its script URL.
pub proof fn law_bound_answer_shows_stored_account(o: QrPollFlow, src: Source, n: QrPollFlow, act: QrPollAction, now: i64)
    requires
        o.phase == QrPollPhase::AwaitBoundSource,
        qr_poll_step_spec(o, QrPollEvent::SourceFound(Ok(Some(src))), n, act, now),
    ensures
        match act {
            QrPollAction::Done(Ok(r)) => {
                let acc = o.account.unwrap();
                &&& r.status@ == "bound"@
                &&& (r.account matches Some(a) && a.account_id == acc.account_id && a.userid@ == acc.upstream_userid@
                    && a.vip_active == acc.vip_active && a.vip_type == acc.vip_type)
                &&& (r.source matches Some(si) && si.source_id == src.source_id)
            },
            _ => false,
        },
{
}

/// A login that binds a session answers with the VIP flag and type that the
/// upstream reported for the user, once the bound session is stored.
pub proof fn law_login_answer_shows_checked_vip(o: QrPollFlow, e: QrPollEvent, n: QrPollFlow, act: QrPollAction, now: i64)
    requires
        o.phase == QrPollPhase::AwaitSourceByAccount || o.phase == QrPollPhase::AwaitSourceUpsert,
        e matches QrPollEvent::SourceFound(Ok(Some(_))) || e matches QrPollEvent::SourceUpserted(Ok(())),
        qr_poll_step_spec(o, e, n, act, now),
    ensures
        match n.outcome {
            Some(Ok(r)) => r.status@ == "bound"@ && (r.account matches Some(a) && a.vip_active == o.vip_active
                && a.vip_type == o.vip_type),
            _ => false,
        },
{
}

/// A login of a user id that already has an account renews that account: it
/// keeps its id, and no second account is made.
pub proof fn law_rebinding_reuses_account(
    o: QrPollFlow,
    existing: ProviderAccount,
    n: QrPollFlow,
    act: QrPollAction,
    now: i64,
)
    requires
        o.phase == QrPollPhase::AwaitAccountByUserid,
        qr_poll_step_spec(o, QrPollEvent::AccountFound(Ok(Some(existing))), n, act, now),
    ensures
        n.account matches Some(a) && a.account_id == existing.account_id && a.created_at == existing.created_at,
        act matches QrPollAction::UpsertAccount(a) && a.account_id == existing.account_id,
{
}

/// A login of an account that already has a source binds that source: no new
/// source is stored, and the answer names the existing one.
pub proof fn law_rebinding_reuses_source(o: QrPollFlow, src: Source, n: QrPollFlow, act: QrPollAction, now: i64)
    requires
        o.phase == QrPollPhase::AwaitSourceByAccount,
        qr_poll_step_spec(o, QrPollEvent::SourceFound(Ok(Some(src))), n, act, now),
    ensures
        act is SaveSession,
        n.new_source == o.new_source,
        n.outcome matches Some(Ok(r)) && r.source matches Some(i) && i.source_id == src.source_id,
{
}

// ---------------------------------------------------------------------------
// Two logins of the same user, over a model of the stores
// ---------------------------------------------------------------------------

/// `found` is what a lookup of the accounts by user id can give: an account
/// of that user id held in the store, or none when the store holds none.
pub open spec fn account_lookup(
    accounts: Map<Seq<char>, ProviderAccount>,
    userid: Seq<char>,
    found: Option<ProviderAccount>,
) -> bool {
    match found {
        Some(a) => accounts.contains_key(a.account_id@) && accounts[a.account_id@] == a && a.upstream_userid@ == userid,
        None => forall|k: Seq<char>| #[trigger] accounts.contains_key(k) ==> accounts[k].upstream_userid@ != userid,
    }
}

/// `found` is what a lookup of the sources by account id can give: a source of
/// that account held in the store, or none when the store holds none.
pub open spec fn source_lookup(sources: Map<Seq<char>, Source>, account_id: String, found: Option<Source>) -> bool {
    match found {
        Some(s) => sources.contains_key(s.source_id@) && sources[s.source_id@] == s && s.account_id == account_id,
        None => forall|k: Seq<char>| #[trigger] sources.contains_key(k) ==> sources[k].account_id != account_id,
    }
}

/// The successful answer that a poll holds, if any.
pub open spec fn answer_of(f: QrPollFlow) -> Option<QrLoginPollResponse> {
    match f.outcome {
        Some(Ok(r)) => Some(r),
        _ => None,
    }
}

/// At most one stored account has the user id `userid`.
pub open spec fn one_account_per_user(accounts: Map<Seq<char>, ProviderAccount>, userid: Seq<char>) -> bool {
    forall|k1: Seq<char>, k2: Seq<char>|
        #![trigger accounts[k1], accounts[k2]]
        accounts.contains_key(k1) && accounts.contains_key(k2) && accounts[k1].upstream_userid@ == userid
            && accounts[k2].upstream_userid@ == userid ==> k1 == k2
}

/// At most one stored source belongs to any one account.
pub open spec fn one_source_per_account(sources: Map<Seq<char>, Source>) -> bool {
    forall|k1: Seq<char>, k2: Seq<char>|
        #![trigger sources[k1], sources[k2]]
        sources.contains_key(k1) && sources.contains_key(k2) && sources[k1].account_id == sources[k2].account_id
            ==> k1 == k2
}

/// Step `i` of a run: `s[i]` becomes `s[i + 1]` on `e[i]` at `t[i]` with `a[i]`.
pub open spec fn run_step(s: Seq<QrPollFlow>, e: Seq<QrPollEvent>, a: Seq<QrPollAction>, t: Seq<i64>, i: int) -> bool {
    qr_poll_step_spec(s[i], e[i], s[i + 1], a[i], t[i])
}

/// The binding part of a poll, over a model of the stores (accounts and
/// sources by id): from `s[0]`, which waits for the account of its user id,
/// the steps `e[i]` at the times `t[i]` lead through `s` with the actions `a`.
/// The account lookup gives `f` and the source lookup `g`, both answered from
/// the stores; the account `x` is stored, and a new source `y` when the
/// account had none. `accounts2` and `sources2` are the stores afterwards.
pub open spec fn binding_run(
    s: Seq<QrPollFlow>,
    e: Seq<QrPollEvent>,
    a: Seq<QrPollAction>,
    t: Seq<i64>,
    f: Option<ProviderAccount>,
    g: Option<Source>,
    x: ProviderAccount,
    y: Source,
    accounts: Map<Seq<char>, ProviderAccount>,
    sources: Map<Seq<char>, Source>,
    accounts2: Map<Seq<char>, ProviderAccount>,
    sources2: Map<Seq<char>, Source>,
) -> bool {
    &&& e.len() == 3 || e.len() == 4
    &&& s.len() == e.len() + 1
    &&& a.len() == e.len()
    &&& t.len() == e.len()
    &&& s[0].phase == QrPollPhase::AwaitAccountByUserid
    &&& forall|i: int| 0 <= i < e.len() ==> #[trigger] run_step(s, e, a, t, i)
    &&& e[0] == QrPollEvent::AccountFound(Ok(f))
    &&& account_lookup(accounts, s[0].userid@, f)
    &&& a[0] == QrPollAction::UpsertAccount(x)
    &&& accounts2 == accounts.insert(x.account_id@, x)
    &&& e[1] == QrPollEvent::AccountUpserted(Ok(()))
    &&& e[2] == QrPollEvent::SourceFound(Ok(g))
    &&& source_lookup(sources, s[2].account.unwrap().account_id, g)
    &&& if e.len() == 4 {
        &&& e[3] == QrPollEvent::SourceUpserted(Ok(()))
        &&& a[2] == QrPollAction::UpsertSource(y)
        &&& sources2 == sources.insert(y.source_id@, y)
    } else {
        &&& a[2] is SaveSession
        &&& sources2 == sources
    }
}

/// What a binding run does: it stores the account of the user id (the one
/// found, renewed, or a new one), binds the source of that account (the one
/// found, or a new one stored), and answers with both.
proof fn lemma_binding_run(
    s: Seq<QrPollFlow>,
    e: Seq<QrPollEvent>,
    a: Seq<QrPollAction>,
    t: Seq<i64>,
    f: Option<ProviderAccount>,
    g: Option<Source>,
    x: ProviderAccount,
    y: Source,
    accounts: Map<Seq<char>, ProviderAccount>,
    sources: Map<Seq<char>, Source>,
    accounts2: Map<Seq<char>, ProviderAccount>,
    sources2: Map<Seq<char>, Source>,
) -> (src: Source)
    requires
        binding_run(s, e, a, t, f, g, x, y, accounts, sources, accounts2, sources2),
    ensures
        x.upstream_userid@ == s[0].userid@,
        f matches Some(ex) ==> x.account_id == ex.account_id,
        s[2].account.unwrap().account_id == x.account_id,
        sources2.contains_key(src.source_id@),
        sources2[src.source_id@] == src,
        src.account_id == x.account_id,
        g matches Some(gs) ==> src == gs && e.len() == 3 && sources2 == sources,
        g is None ==> sources2 == sources.insert(src.source_id@, src),
        ({
            let r = answer_of(s.last()).unwrap();
            &&& answer_of(s.last()) is Some
            &&& r.account is Some
            &&& r.account.unwrap().account_id == x.account_id
            &&& r.source is Some
            &&& r.source.unwrap().source_id == src.source_id
            &&& r.source.unwrap().name == src.name
            &&& r.source.unwrap().script_url@ == script_url_seq(s[0].public_base_url@, src.script_token@)
        }),
{
    assert(run_step(s, e, a, t, 0));
    assert(run_step(s, e, a, t, 1));
    assert(run_step(s, e, a, t, 2));
    let acc = s[1].account.unwrap();
    assert(x.same_as(acc));
    assert(s[2] == (QrPollFlow { phase: QrPollPhase::AwaitSourceByAccount, ..s[1] }));
    match g {
        Some(gs) => {
            assert(binds(s[2], gs, s[3], a[2]));
            assert(e.len() == 3);
            gs
        },
        None => {
            assert(e.len() == 4);
            assert(run_step(s, e, a, t, 3));
            assert(s[3].new_source == Some(y));
            assert(binds(s[3], y, s[4], a[3]));
            y
        },
    }
}

/// A binding run keeps at most one account per user id: for the user of the
/// login it stores the account found (renewed) or a new one when there was
/// none; the accounts of other users are untouched.
proof fn lemma_binding_keeps_one_account(
    s: Seq<QrPollFlow>,
    e: Seq<QrPollEvent>,
    a: Seq<QrPollAction>,
    t: Seq<i64>,
    f: Option<ProviderAccount>,
    g: Option<Source>,
    x: ProviderAccount,
    y: Source,
    accounts: Map<Seq<char>, ProviderAccount>,
    sources: Map<Seq<char>, Source>,
    accounts2: Map<Seq<char>, ProviderAccount>,
    sources2: Map<Seq<char>, Source>,
    w: Seq<char>,
)
    requires
        binding_run(s, e, a, t, f, g, x, y, accounts, sources, accounts2, sources2),
        one_account_per_user(accounts, w),
    ensures
        one_account_per_user(accounts2, w),
{
    let u = s[0].userid@;
    let _ = lemma_binding_run(s, e, a, t, f, g, x, y, accounts, sources, accounts2, sources2);
    assert forall|k1: Seq<char>, k2: Seq<char>|
        accounts2.contains_key(k1) && accounts2.contains_key(k2) && #[trigger] accounts2[k1].upstream_userid@ == w
            && #[trigger] accounts2[k2].upstream_userid@ == w implies k1 == k2 by {
        if k1 != x.account_id@ && k2 != x.account_id@ {
            assert(accounts[k1] == accounts2[k1] && accounts[k2] == accounts2[k2]);
        } else if k1 != x.account_id@ || k2 != x.account_id@ {
            let k = if k1 != x.account_id@ { k1 } else { k2 };
            assert(accounts.contains_key(k) && accounts[k] == accounts2[k]);
            assert(accounts2[x.account_id@] == x);
            assert(w == u);
            match f {
                Some(ex) => {
                    assert(accounts.contains_key(ex.account_id@));
                    assert(accounts[ex.account_id@].upstream_userid@ == u);
                    assert(accounts[k].upstream_userid@ == u);
                },
                None => {
                    assert(accounts.contains_key(k));
                },
            }
        }
    }
}

/// A binding run keeps at most one source per account: it stores a new source
/// only for an account that had none.
proof fn lemma_binding_keeps_one_source(
    s: Seq<QrPollFlow>,
    e: Seq<QrPollEvent>,
    a: Seq<QrPollAction>,
    t: Seq<i64>,
    f: Option<ProviderAccount>,
    g: Option<Source>,
    x: ProviderAccount,
    y: Source,
    accounts: Map<Seq<char>, ProviderAccount>,
    sources: Map<Seq<char>, Source>,
    accounts2: Map<Seq<char>, ProviderAccount>,
    sources2: Map<Seq<char>, Source>,
)
    requires
        binding_run(s, e, a, t, f, g, x, y, accounts, sources, accounts2, sources2),
        one_source_per_account(sources),
    ensures
        one_source_per_account(sources2),
{
    let src = lemma_binding_run(s, e, a, t, f, g, x, y, accounts, sources, accounts2, sources2);
    assert forall|k1: Seq<char>, k2: Seq<char>|
        sources2.contains_key(k1) && sources2.contains_key(k2) && #[trigger] sources2[k1].account_id
            == #[trigger] sources2[k2].account_id implies k1 == k2 by {
        match g {
            Some(_) => {
                assert(sources[k1] == sources2[k1] && sources[k2] == sources2[k2]);
            },
            None => {
                if k1 != src.source_id@ && k2 != src.source_id@ {
                    assert(sources[k1] == sources2[k1] && sources[k2] == sources2[k2]);
                } else if k1 != src.source_id@ || k2 != src.source_id@ {
                    let k = if k1 != src.source_id@ { k1 } else { k2 };
                    assert(sources.contains_key(k) && sources[k] == sources2[k]);
                    assert(sources2[k].account_id == src.account_id);
                    assert(sources[k].account_id != s[2].account.unwrap().account_id);
                }
            },
        }
    }
}

/// What the stores hold stays consistent through logins: when no two stored
/// accounts share a user id and no two stored sources share an account before
/// a binding run, the same holds after it. The empty stores hold it, so the
/// stores that logins build hold it too.
pub proof fn law_binding_keeps_stores_consistent(
    s: Seq<QrPollFlow>,
    e: Seq<QrPollEvent>,
    a: Seq<QrPollAction>,
    t: Seq<i64>,
    f: Option<ProviderAccount>,
    g: Option<Source>,
    x: ProviderAccount,
    y: Source,
    accounts: Map<Seq<char>, ProviderAccount>,
    sources: Map<Seq<char>, Source>,
    accounts2: Map<Seq<char>, ProviderAccount>,
    sources2: Map<Seq<char>, Source>,
)
    requires
        binding_run(s, e, a, t, f, g, x, y, accounts, sources, accounts2, sources2),
        forall|w: Seq<char>| #[trigger] one_account_per_user(accounts, w),
        one_source_per_account(sources),
    ensures
        forall|w: Seq<char>| #[trigger] one_account_per_user(accounts2, w),
        one_source_per_account(sources2),
{
    assert forall|w: Seq<char>| #[trigger] one_account_per_user(accounts2, w) by {
        assert(one_account_per_user(accounts, w));
        lemma_binding_keeps_one_account(s, e, a, t, f, g, x, y, accounts, sources, accounts2, sources2, w);
    }
    lemma_binding_keeps_one_source(s, e, a, t, f, g, x, y, accounts, sources, accounts2, sources2);
}

/// The empty stores are consistent: no accounts and no sources.
pub proof fn law_empty_stores_consistent()
    ensures
        forall|w: Seq<char>| #[trigger] one_account_per_user(Map::<Seq<char>, ProviderAccount>::empty(), w),
        one_source_per_account(Map::<Seq<char>, Source>::empty()),
{
}

/// Two logins of the same user, the second after the first with the stores
/// as the first left them, bind the same account and the same source: the
/// second answers with the account id, source id, source name and script URL
/// of the first, stores no new source and leaves the stored source (and its
/// tokens) as it was, and still no two accounts have that user id.
pub proof fn law_rebinding_same_user(
    s1: Seq<QrPollFlow>,
    e1: Seq<QrPollEvent>,
    a1: Seq<QrPollAction>,
    t1: Seq<i64>,
    f1: Option<ProviderAccount>,
    g1: Option<Source>,
    x1: ProviderAccount,
    y1: Source,
    s2: Seq<QrPollFlow>,
    e2: Seq<QrPollEvent>,
    a2: Seq<QrPollAction>,
    t2: Seq<i64>,
    f2: Option<ProviderAccount>,
    g2: Option<Source>,
    x2: ProviderAccount,
    y2: Source,
    accounts0: Map<Seq<char>, ProviderAccount>,
    sources0: Map<Seq<char>, Source>,
    accounts1: Map<Seq<char>, ProviderAccount>,
    sources1: Map<Seq<char>, Source>,
    accounts2: Map<Seq<char>, ProviderAccount>,
    sources2: Map<Seq<char>, Source>,
)
    requires
        one_account_per_user(accounts0, s1[0].userid@),
        one_source_per_account(sources0),
        binding_run(s1, e1, a1, t1, f1, g1, x1, y1, accounts0, sources0, accounts1, sources1),
        binding_run(s2, e2, a2, t2, f2, g2, x2, y2, accounts1, sources1, accounts2, sources2),
        s2[0].userid@ == s1[0].userid@,
        s2[0].public_base_url == s1[0].public_base_url,
    ensures
        x2.account_id == x1.account_id,
        e2.len() == 3,
        sources2 == sources1,
        accounts2.dom() == accounts1.dom(),
        one_account_per_user(accounts2, s1[0].userid@),
        ({
            let r1 = answer_of(s1.last()).unwrap();
            let r2 = answer_of(s2.last()).unwrap();
            &&& answer_of(s1.last()) is Some
            &&& answer_of(s2.last()) is Some
            &&& r1.account is Some && r2.account is Some
            &&& r2.account.unwrap().account_id == r1.account.unwrap().account_id
            &&& r1.source is Some && r2.source is Some
            &&& r2.source.unwrap().source_id == r1.source.unwrap().source_id
            &&& r2.source.unwrap().name == r1.source.unwrap().name
            &&& r2.source.unwrap().script_url@ == r1.source.unwrap().script_url@
        }),
{
    let u = s1[0].userid@;
    let src1 = lemma_binding_run(s1, e1, a1, t1, f1, g1, x1, y1, accounts0, sources0, accounts1, sources1);
    // After the first login, still one account of `u` and one source per account.
    assert(accounts1.contains_key(x1.account_id@) && accounts1[x1.account_id@] == x1);
    lemma_binding_keeps_one_account(s1, e1, a1, t1, f1, g1, x1, y1, accounts0, sources0, accounts1, sources1, u);
    lemma_binding_keeps_one_source(s1, e1, a1, t1, f1, g1, x1, y1, accounts0, sources0, accounts1, sources1);
    // The second login finds that account and that source.
    let src2 = lemma_binding_run(s2, e2, a2, t2, f2, g2, x2, y2, accounts1, sources1, accounts2, sources2);
    match f2 {
        Some(ex) => {
            assert(accounts1[ex.account_id@].upstream_userid@ == u);
            assert(accounts1[x1.account_id@].upstream_userid@ == u);
            assert(ex.account_id@ == x1.account_id@);
            assert(ex == x1);
        },
        None => {
            assert(accounts1.contains_key(x1.account_id@));
        },
    }
    assert(x2.account_id == x1.account_id);
    assert(s2[2].account.unwrap().account_id == x2.account_id) by {
        assert(run_step(s2, e2, a2, t2, 0));
        assert(run_step(s2, e2, a2, t2, 1));
    }
    match g2 {
        Some(gs) => {
            assert(sources1[gs.source_id@].account_id == x1.account_id);
            assert(sources1[src1.source_id@].account_id == x1.account_id);
            assert(gs.source_id@ == src1.source_id@);
            assert(gs == src1);
        },
        None => {
            assert(sources1.contains_key(src1.source_id@));
        },
    }
    assert(src2 == src1);
    assert(accounts2.dom() =~= accounts1.dom());
    lemma_binding_keeps_one_account(s2, e2, a2, t2, f2, g2, x2, y2, accounts1, sources1, accounts2, sources2, u);
}

impl QrPollFlow {
    /// The state that each phase relies on.
    pub open spec fn wf(&self) -> bool {
        &&& (self.phase != QrPollPhase::AwaitSession && self.phase != QrPollPhase::Finished) ==> self.session is Some
        &&& self.phase == QrPollPhase::AwaitBoundAccount ==> self.session.unwrap().bound_account_id is Some
        &&& (self.phase == QrPollPhase::AwaitBoundSource || self.phase == QrPollPhase::AwaitAccountUpsert
            || self.phase == QrPollPhase::AwaitSourceByAccount || self.phase == QrPollPhase::AwaitSourceUpsert)
            ==> self.account is Some
        &&& self.phase == QrPollPhase::AwaitSourceUpsert ==> self.new_source is Some
        &&& (self.phase == QrPollPhase::AwaitSave && self.after_save == AfterSave::Finish) ==> self.outcome is Some
    }

    /// Starts a poll of the session `session_id`: first the session is looked
    /// up. `fresh` holds the UUIDs for an account and a source it may create.
    pub fn start(
        session_id: String,
        public_base_url: String,
        source_name_prefix: String,
        fresh: FreshIds,
    ) -> (r: (Self, QrPollAction))
        ensures
            r.0.wf(),
            r.0.fresh == fresh,
            r.0.phase == QrPollPhase::AwaitSession,
            r.0.session_id == session_id,
            r.0.public_base_url == public_base_url,
            r.0.source_name_prefix == source_name_prefix,
            r.1 matches QrPollAction::FindSession(id) && id == session_id,
    {
        let id = session_id.clone();
        (
            QrPollFlow {
                session_id,
                public_base_url,
                source_name_prefix,
                phase: QrPollPhase::AwaitSession,
                session: None,
                now: 0,
                poll_status: 0,
                poll_message: None,
                after_save: AfterSave::Finish,
                vip_type: 0,
                vip_active: false,
                userid: String::new(),
                account: None,
                now2: 0,
                new_source: None,
                outcome: None,
                fresh,
            },
            QrPollAction::FindSession(id),
        )
    }

    /// Stores the session, then `then`.
    fn save(&mut self, then: AfterSave) -> (act: QrPollAction)
        requires
            old(self).session is Some,
        ensures
            *final(self) == (QrPollFlow { phase: QrPollPhase::AwaitSave, after_save: then, ..*old(self) }),
            act matches QrPollAction::SaveSession(s) && s.same_as(old(self).session.unwrap()),
    {
        self.phase = QrPollPhase::AwaitSave;
        self.after_save = then;
        QrPollAction::SaveSession(self.session.as_ref().unwrap().clone())
    }

    /// Stores the session, then answers with `outcome`.
    fn save_then_answer(&mut self, outcome: Result<QrLoginPollResponse, AppError>) -> (act: QrPollAction)
        requires
            old(self).session is Some,
        ensures
            *final(self) == (QrPollFlow { phase: QrPollPhase::AwaitSave, after_save: AfterSave::Finish, outcome: Some(outcome), ..*old(self) }),
            act matches QrPollAction::SaveSession(s) && s.same_as(old(self).session.unwrap()),
    {
        self.outcome = Some(outcome);
        self.save(AfterSave::Finish)
    }

    /// Binds the session to the account and the source, and stores it.
    fn bind(&mut self, src: &Source) -> (act: QrPollAction)
        requires
            old(self).session is Some,
            old(self).account is Some,
        ensures
            binds(*old(self), *src, *final(self), act),
            final(self).wf(),
            final(self).session_id == old(self).session_id,
            final(self).public_base_url == old(self).public_base_url,
            final(self).source_name_prefix == old(self).source_name_prefix,
    {
        let account_id = self.account.as_ref().unwrap().account_id.clone();
        let resp = bound_response(
            self.session_id.as_str(),
            &account_id,
            self.userid.as_str(),
            self.vip_active,
            self.vip_type,
            src,
            self.public_base_url.as_str(),
        );
        let mut session = self.session.take().unwrap();
        session.status = LoginSessionStatus::Bound;
        session.bound_account_id = Some(account_id);
        session.updated_at = self.now2;
        self.session = Some(session);
        self.save_then_answer(Ok(resp))
    }

    /// One step of the poll; `now` is the clock reading at this step.
    pub fn step(&mut self, event: QrPollEvent, now: i64) -> (act: QrPollAction)
        requires
            old(self).wf(),
            qr_poll_expects(old(self).phase, event),
        ensures
            final(self).wf(),
            final(self).session_id == old(self).session_id,
            final(self).public_base_url == old(self).public_base_url,
            final(self).source_name_prefix == old(self).source_name_prefix,
            qr_poll_step_spec(*old(self), event, *final(self), act, now),
    {
        match event {
            QrPollEvent::SessionFound(Err(x)) | QrPollEvent::AccountFound(Err(x)) | QrPollEvent::SourceFound(Err(x))
            | QrPollEvent::Polled(Err(x)) | QrPollEvent::Saved(Err(x)) | QrPollEvent::LoginRefreshed(Err(x))
            | QrPollEvent::DfidEnsured(Err(x)) | QrPollEvent::VipFetched(Err(x)) | QrPollEvent::AccountUpserted(Err(x))
            | QrPollEvent::SourceUpserted(Err(x)) => {
                self.phase = QrPollPhase::Finished;
                QrPollAction::Done(Err(x))
            },
            QrPollEvent::SessionFound(Ok(None)) => {
                self.phase = QrPollPhase::Finished;
                QrPollAction::Done(Err(AppError::login_session_not_found()))
            },
            QrPollEvent::SessionFound(Ok(Some(s))) => {
                if s.status == LoginSessionStatus::Bound {
                    match &s.bound_account_id {
                        None => {
                            self.phase = QrPollPhase::Finished;
                            return QrPollAction::Done(Err(AppError::account_not_found()));
                        },
                        Some(id) => {
                            let id = id.clone();
                            self.session = Some(s);
                            self.phase = QrPollPhase::AwaitBoundAccount;
                            return QrPollAction::FindAccountById(id);
                        },
                    }
                }
                self.now = now;
                if now >= s.expires_at {
                    let mut s = s;
                    s.status = LoginSessionStatus::Expired;
                    s.updated_at = now;
                    self.session = Some(s);
                    let resp = state_response(self.session_id.as_str(), "expired");
                    return self.save_then_answer(Ok(resp));
                }
                let k = s.qr_key.clone();
                let c = s.temp_cookies.clone();
                self.session = Some(s);
                self.phase = QrPollPhase::AwaitPoll;
                QrPollAction::PollQr(k, c)
            },
            QrPollEvent::Polled(Ok(p)) => {
                let mut s = self.session.take().unwrap();
                s.temp_cookies = p.cookies;
                s.updated_at = self.now;
                self.session = Some(s);
                self.poll_status = p.status_code;
                self.poll_message = p.message;
                self.save(AfterSave::DispatchPollStatus)
            },
            QrPollEvent::Saved(Ok(())) => self.after_save_step(now),
            QrPollEvent::LoginRefreshed(Ok(r)) => {
                let mut s = self.session.take().unwrap();
                s.temp_cookies = r.cookies;
                s.updated_at = now;
                self.session = Some(s);
                self.save(AfterSave::CheckDfid)
            },
            QrPollEvent::DfidEnsured(Ok(c)) => {
                let mut s = self.session.take().unwrap();
                s.temp_cookies = c;
                s.updated_at = now;
                self.session = Some(s);
                self.save(AfterSave::FetchVip)
            },
            QrPollEvent::VipFetched(Ok(v)) => {
                let mut s = self.session.take().unwrap();
                s.temp_cookies = v.cookies.clone();
                s.updated_at = now;
                self.session = Some(s);
                self.vip_type = v.vip_type;
                self.vip_active = v.vip_active;
                self.save(AfterSave::CheckVip)
            },
            QrPollEvent::AccountFound(Ok(found)) => {
                if self.phase == QrPollPhase::AwaitBoundAccount {
                    match found {
                        None => {
                            self.phase = QrPollPhase::Finished;
                            QrPollAction::Done(Err(AppError::account_not_found()))
                        },
                        Some(a) => {
                            self.account = Some(a);
                            self.phase = QrPollPhase::AwaitBoundSource;
                            let id = self.session.as_ref().unwrap().bound_account_id.as_ref().unwrap().clone();
                            QrPollAction::FindSourceByAccount(id)
                        },
                    }
                } else {
                    let now2 = now;
                    self.now2 = now2;
                    let cookies = self.session.as_ref().unwrap().temp_cookies.clone();
                    let acc = match found {
                        Some(mut acc) => {
                            acc.cookies = cookies;
                            acc.status = AccountStatus::Active;
                            acc.vip_type = self.vip_type;
                            acc.vip_active = self.vip_active;
                            acc.last_refresh_at = Some(now2);
                            acc.last_success_at = Some(now2);
                            acc.last_error = None;
                            acc.updated_at = now2;
                            acc
                        },
                        None => {
                            let account_id = new_id("acc_", self.fresh.account.as_str());
                            proof {
                                reveal_strlit("acc_");
                            }
                            ProviderAccount {
                                account_id,
                                provider: ProviderKind::KugouLite,
                                upstream_userid: self.userid.clone(),
                                display_name: None,
                                status: AccountStatus::Active,
                                vip_type: self.vip_type,
                                vip_active: self.vip_active,
                                cookies,
                                last_refresh_at: Some(now2),
                                last_success_at: Some(now2),
                                last_error: None,
                                created_at: now2,
                                updated_at: now2,
                            }
                        },
                    };
                    let stored = acc.clone();
                    self.account = Some(acc);
                    self.phase = QrPollPhase::AwaitAccountUpsert;
                    QrPollAction::UpsertAccount(stored)
                }
            },
            QrPollEvent::AccountUpserted(Ok(())) => {
                self.phase = QrPollPhase::AwaitSourceByAccount;
                QrPollAction::FindSourceByAccount(self.account.as_ref().unwrap().account_id.clone())
            },
            QrPollEvent::SourceFound(Ok(found)) => {
                if self.phase == QrPollPhase::AwaitBoundSource {
                    match found {
                        None => {
                            self.phase = QrPollPhase::Finished;
                            QrPollAction::Done(Err(AppError::source_not_found()))
                        },
                        Some(src) => {
                            let acc = self.account.as_ref().unwrap();
                            let sid = self.session.as_ref().unwrap().session_id.as_str();
                            let resp = bound_response(
                                sid,
                                &acc.account_id,
                                acc.upstream_userid.as_str(),
                                acc.vip_active,
                                acc.vip_type,
                                &src,
                                self.public_base_url.as_str(),
                            );
                            self.phase = QrPollPhase::Finished;
                            QrPollAction::Done(Ok(resp))
                        },
                    }
                } else {
                    match found {
                        Some(src) => self.bind(&src),
                        None => {
                            let source_id = new_id("src_", self.fresh.source.as_str());
                            let script_token = new_id("st_", self.fresh.script_token.as_str());
                            let runtime_token = new_id("rt_", self.fresh.runtime_token.as_str());
                            proof {
                                reveal_strlit("src_");
                                reveal_strlit("st_");
                                reveal_strlit("rt_");
                            }
                            let name = concat3(self.source_name_prefix.as_str(), " ", self.userid.as_str());
                            let now3 = now;
                            let src = Source {
                                source_id,
                                account_id: self.account.as_ref().unwrap().account_id.clone(),
                                provider: ProviderKind::KugouLite,
                                name,
                                enabled: true,
                                script_token,
                                runtime_token,
                                created_at: now3,
                                updated_at: now3,
                            };
                            let stored = src.clone();
                            self.new_source = Some(src);
                            self.phase = QrPollPhase::AwaitSourceUpsert;
                            QrPollAction::UpsertSource(stored)
                        },
                    }
                }
            },
            QrPollEvent::SourceUpserted(Ok(())) => {
                let src = self.new_source.as_ref().unwrap().clone();
                self.bind(&src)
            },
        }
    }

    /// What follows a store of the session, at `now`.
    fn after_save_step(&mut self, now: i64) -> (act: QrPollAction)
        requires
            old(self).wf(),
            old(self).phase == QrPollPhase::AwaitSave,
        ensures
            final(self).wf(),
            final(self).session_id == old(self).session_id,
            final(self).public_base_url == old(self).public_base_url,
            final(self).source_name_prefix == old(self).source_name_prefix,
            after_save_spec(*old(self), *final(self), act, now),
    {
        match self.after_save {
            AfterSave::Finish => {
                self.phase = QrPollPhase::Finished;
                QrPollAction::Done(self.outcome.take().unwrap())
            },
            AfterSave::DispatchPollStatus => {
                let now = self.now;
                let mut s = self.session.take().unwrap();
                if self.poll_status == 0 {
                    s.status = LoginSessionStatus::Expired;
                    s.updated_at = now;
                    self.session = Some(s);
                    let resp = state_response(self.session_id.as_str(), "expired");
                    self.save_then_answer(Ok(resp))
                } else if self.poll_status == 2 {
                    s.status = LoginSessionStatus::WaitingConfirm;
                    s.updated_at = now;
                    self.session = Some(s);
                    let resp = state_response(self.session_id.as_str(), "waiting_confirm");
                    self.save_then_answer(Ok(resp))
                } else if self.poll_status == 1 {
                    s.updated_at = now;
                    self.session = Some(s);
                    let resp = state_response(self.session_id.as_str(), "waiting_scan");
                    self.save_then_answer(Ok(resp))
                } else if self.poll_status == 4 {
                    s.status = LoginSessionStatus::Authorized;
                    s.updated_at = now;
                    self.session = Some(s);
                    self.save(AfterSave::RequestRefresh)
                } else {
                    s.status = LoginSessionStatus::Failed;
                    s.error = clone_opt(&self.poll_message);
                    s.updated_at = now;
                    self.session = Some(s);
                    let err = match &self.poll_message {
                        Some(m) => AppError::upstream_login_failed(m.as_str()),
                        None => AppError::upstream_login_failed("unknown qr check error"),
                    };
                    self.save_then_answer(Err(err))
                }
            },
            AfterSave::RequestRefresh => {
                self.phase = QrPollPhase::AwaitRefresh;
                QrPollAction::RefreshLogin(self.session.as_ref().unwrap().temp_cookies.clone())
            },
            AfterSave::CheckDfid => {
                let c = self.session.as_ref().unwrap().temp_cookies.clone();
                if self.session.as_ref().unwrap().temp_cookies.is_empty("dfid") {
                    self.phase = QrPollPhase::AwaitDfid;
                    QrPollAction::EnsureDfid(c)
                } else {
                    self.phase = QrPollPhase::AwaitVip;
                    QrPollAction::FetchVip(c)
                }
            },
            AfterSave::FetchVip => {
                self.phase = QrPollPhase::AwaitVip;
                QrPollAction::FetchVip(self.session.as_ref().unwrap().temp_cookies.clone())
            },
            AfterSave::CheckVip => {
                if !self.vip_active {
                    let mut s = self.session.take().unwrap();
                    s.status = LoginSessionStatus::Failed;
                    s.error = Some(String::from_str("VIP not active for concept membership"));
                    s.updated_at = now;
                    self.session = Some(s);
                    return self.save_then_answer(Err(AppError::account_not_vip()));
                }
                match self.session.as_ref().unwrap().temp_cookies.get("userid") {
                    Some(u) if !u.is_empty() => {
                        let userid = String::from_str(u);
                        self.userid = userid.clone();
                        self.phase = QrPollPhase::AwaitAccountByUserid;
                        QrPollAction::FindAccountByUserid(userid)
                    },
                    _ => {
                        self.phase = QrPollPhase::Finished;
                        QrPollAction::Done(Err(AppError::upstream_login_failed("missing userid after qr authorization")))
                    },
                }
            },
        }
    }
}

} // verus!

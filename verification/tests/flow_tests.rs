use kg2lx::domain::account::{AccountStatus, ProviderAccount};
use kg2lx::domain::cookie_store::CookieStore;
use kg2lx::domain::login_session::{LoginSession, LoginSessionStatus};
use kg2lx::domain::provider::ProviderKind;
use kg2lx::domain::source::Source;
use kg2lx::error::{AppError, ErrorCode};
use kg2lx::services::kugou_lite_client::{
    MusicUrlResult, QrCreateResult, QrKeyResult, QrPollResult, RefreshResult, VipStatusResult,
};
use kg2lx::services::login::{FreshIds, QrPollAction, QrPollEvent, QrPollFlow, QrStartAction, QrStartEvent, QrStartFlow};
use kg2lx::services::runtime::{MusicUrlAction, MusicUrlEvent, MusicUrlFlow, RuntimeMusicUrlRequest};
use kg2lx::services::source::{AccountRefresh, RefreshAction, RefreshEvent};

fn jar(pairs: &[(&str, &str)]) -> CookieStore {
    let mut s = CookieStore::new();
    for (k, v) in pairs {
        s.insert(k, v);
    }
    s
}

fn account(cookies: CookieStore, vip_active: bool, last_refresh_at: Option<i64>) -> ProviderAccount {
    ProviderAccount {
        account_id: "acc_1".to_string(),
        provider: ProviderKind::KugouLite,
        upstream_userid: "42".to_string(),
        display_name: None,
        status: AccountStatus::Active,
        vip_type: 1,
        vip_active,
        cookies,
        last_refresh_at,
        last_success_at: last_refresh_at,
        last_error: None,
        created_at: 1,
        updated_at: 1,
    }
}

fn source(enabled: bool) -> Source {
    Source {
        source_id: "src_1".to_string(),
        account_id: "acc_1".to_string(),
        provider: ProviderKind::KugouLite,
        name: "Kugou Concept VIP 42".to_string(),
        enabled,
        script_token: "st_1".to_string(),
        runtime_token: "rt_1".to_string(),
        created_at: 1,
        updated_at: 1,
    }
}

fn now() -> i64 {
    kg2lx::domain::account::now_ts().unwrap()
}

fn vip(active: bool, cookies: CookieStore) -> VipStatusResult {
    VipStatusResult { vip_type: 6, vip_active: active, cookies }
}

// ---------------------------------------------------------------------------
// Refresh of an account
// ---------------------------------------------------------------------------

#[test]
fn refresh_succeeds_and_marks_account_active() {
    let (mut r, act) = AccountRefresh::start(account(jar(&[("token", "t")]), false, None), false);
    assert!(matches!(act, RefreshAction::RefreshLogin(ref c) if c.get("token") == Some("t")));
    let act = r.step(RefreshEvent::LoginRefreshed(Ok(RefreshResult { cookies: jar(&[("token", "t2")]) })), now());
    let c = match act {
        RefreshAction::EnsureDfid(c) => c,
        _ => panic!("expected EnsureDfid"),
    };
    assert_eq!(c.to_cookie_header(), "token=t2");
    let act = r.step(RefreshEvent::DfidEnsured(Ok(jar(&[("token", "t2"), ("dfid", "d")]))), now());
    assert!(matches!(act, RefreshAction::FetchVip(ref c) if c.get("dfid") == Some("d")));
    let act = r.step(RefreshEvent::VipFetched(Ok(vip(true, jar(&[("token", "t3"), ("dfid", "d")])))), now());
    let stored = match act {
        RefreshAction::Upsert(a) => a,
        _ => panic!("expected Upsert"),
    };
    assert_eq!(stored.status, AccountStatus::Active);
    assert!(stored.vip_active);
    assert_eq!(stored.vip_type, 6);
    assert_eq!(stored.cookies.get("token"), Some("t3"));
    assert_eq!(stored.last_error, None);
    let t = stored.last_refresh_at.unwrap();
    assert_eq!(stored.last_success_at, Some(t));
    assert_eq!(stored.updated_at, t);
    let act = r.step(RefreshEvent::Upserted(Ok(())), now());
    assert!(matches!(act, RefreshAction::Done(Ok(x)) if x == t));
}

#[test]
fn refresh_with_dfid_skips_device_registration() {
    let (mut r, _) = AccountRefresh::start(account(jar(&[]), true, None), false);
    let act = r.step(RefreshEvent::LoginRefreshed(Ok(RefreshResult { cookies: jar(&[("dfid", "d")]) })), now());
    assert!(matches!(act, RefreshAction::FetchVip(_)));
    let act = r.step(RefreshEvent::VipFetched(Ok(vip(false, jar(&[("dfid", "d")])))), now());
    let stored = match act {
        RefreshAction::Upsert(a) => a,
        _ => panic!("expected Upsert"),
    };
    assert_eq!(stored.status, AccountStatus::Expired);
    let act = r.step(RefreshEvent::Upserted(Ok(())), now());
    assert!(matches!(act, RefreshAction::Done(Ok(_))));
}

#[test]
fn refresh_failure_is_recorded_on_the_account() {
    let (mut r, _) = AccountRefresh::start(account(jar(&[("token", "t")]), true, Some(5)), false);
    let act = r.step(RefreshEvent::LoginRefreshed(Err(AppError::upstream_login_failed("token refresh: reset"))), now());
    let recorded = match act {
        RefreshAction::RecordFailure(a) => a,
        _ => panic!("expected RecordFailure"),
    };
    assert_eq!(recorded.status, AccountStatus::LoginFailed);
    assert_eq!(recorded.last_error, Some("UpstreamLoginFailed: token refresh: reset".to_string()));
    assert_eq!(recorded.last_refresh_at, Some(5));
    assert_eq!(recorded.cookies.get("token"), Some("t"));
    let act = r.step(RefreshEvent::FailureRecorded, now());
    match act {
        RefreshAction::Done(Err(e)) => {
            assert_eq!(e.code, ErrorCode::UpstreamLoginFailed);
            assert_eq!(e.message, "token refresh: reset");
        },
        _ => panic!("expected the error"),
    }
}

#[test]
fn refresh_requiring_vip_refuses_inactive_vip_without_recording() {
    let (mut r, _) = AccountRefresh::start(account(jar(&[("dfid", "d")]), true, None), true);
    r.step(RefreshEvent::LoginRefreshed(Ok(RefreshResult { cookies: jar(&[("dfid", "d")]) })), now());
    let act = r.step(RefreshEvent::VipFetched(Ok(vip(false, jar(&[("dfid", "d")])))), now());
    assert!(matches!(act, RefreshAction::Upsert(_)));
    let act = r.step(RefreshEvent::Upserted(Ok(())), now());
    match act {
        RefreshAction::Done(Err(e)) => {
            assert_eq!(e.code, ErrorCode::AccountNotVip);
            assert_eq!(e.message, "account vip is not active");
            assert_eq!(e.status, 403);
        },
        _ => panic!("expected account_not_vip"),
    }
}

// ---------------------------------------------------------------------------
// Play URL requests
// ---------------------------------------------------------------------------

fn request() -> RuntimeMusicUrlRequest {
    RuntimeMusicUrlRequest { hash: "H".to_string(), album_audio_id: None, quality: "320k".to_string() }
}

fn started() -> MusicUrlFlow {
    let (f, act) = MusicUrlFlow::start("rt_1".to_string(), request(), 3600, "lu".to_string());
    assert!(matches!(act, MusicUrlAction::FindSourceByRuntimeToken(ref t) if t == "rt_1"));
    f
}

fn done_error(act: MusicUrlAction) -> AppError {
    match act {
        MusicUrlAction::Done(Err(e)) => e,
        _ => panic!("expected an error"),
    }
}

#[test]
fn music_url_unknown_or_disabled_source() {
    let mut f = started();
    assert_eq!(done_error(f.step(MusicUrlEvent::SourceFound(Ok(None)), now())).code, ErrorCode::SourceNotFound);
    let mut f = started();
    assert_eq!(done_error(f.step(MusicUrlEvent::SourceFound(Ok(Some(source(false)))), now())).code, ErrorCode::SourceDisabled);
    let mut f = started();
    let e = done_error(f.step(MusicUrlEvent::SourceFound(Err(AppError::internal("io"))), now()));
    assert_eq!(e.code, ErrorCode::InternalError);
}

#[test]
fn music_url_unusable_account() {
    let mut f = started();
    assert!(matches!(f.step(MusicUrlEvent::SourceFound(Ok(Some(source(true)))), now()), MusicUrlAction::FindAccount(ref id) if id == "acc_1"));
    assert_eq!(done_error(f.step(MusicUrlEvent::AccountFound(Ok(None)), now())).code, ErrorCode::AccountNotFound);

    let mut f = started();
    f.step(MusicUrlEvent::SourceFound(Ok(Some(source(true)))), now());
    let mut a = account(jar(&[("dfid", "d")]), true, None);
    a.status = AccountStatus::Disabled;
    assert_eq!(done_error(f.step(MusicUrlEvent::AccountFound(Ok(Some(a))), now())).code, ErrorCode::AccountDisabled);

    let mut f = started();
    f.step(MusicUrlEvent::SourceFound(Ok(Some(source(true)))), now());
    let a = account(jar(&[("dfid", "d")]), false, None);
    assert_eq!(done_error(f.step(MusicUrlEvent::AccountFound(Ok(Some(a))), now())).code, ErrorCode::AccountNotVip);
}

#[test]
fn music_url_happy_path() {
    let mut f = started();
    f.step(MusicUrlEvent::SourceFound(Ok(Some(source(true)))), now());
    let a = account(jar(&[("dfid", "d"), ("token", "t")]), true, Some(now()));
    let act = f.step(MusicUrlEvent::AccountFound(Ok(Some(a))), now());
    match act {
        MusicUrlAction::FetchMusicUrl(c, r) => {
            assert_eq!(c.to_cookie_header(), "dfid=d; token=t");
            assert_eq!(r.hash, "H");
            assert_eq!(r.quality, "320k");
        },
        _ => panic!("expected a fetch"),
    }
    let res = MusicUrlResult { url: "http://play".to_string(), cookies: jar(&[("dfid", "d"), ("token", "t4")]), status_code: 200, auth_failed: false };
    let act = f.step(MusicUrlEvent::MusicFetched(Ok(res), 15), now());
    match act {
        MusicUrlAction::UpsertAccount(a) => assert_eq!(a.cookies.get("token"), Some("t4")),
        _ => panic!("expected the account stored"),
    }
    let act = f.step(MusicUrlEvent::Upserted(Ok(())), now());
    match act {
        MusicUrlAction::AppendLog(l) => {
            assert!(l.ok);
            assert_eq!(l.status_code, Some(200));
            assert_eq!(l.latency_ms, 15);
            assert_eq!(l.error, None);
            assert_eq!(l.source_id, "src_1");
        },
        _ => panic!("expected a log entry"),
    }
    match f.step(MusicUrlEvent::Logged, now()) {
        MusicUrlAction::Done(Ok(r)) => assert_eq!(r.url, "http://play"),
        _ => panic!("expected the URL"),
    }
}

#[test]
fn music_url_registers_device_when_dfid_missing() {
    let mut f = started();
    f.step(MusicUrlEvent::SourceFound(Ok(Some(source(true)))), now());
    let a = account(jar(&[("token", "t")]), true, Some(now()));
    assert!(matches!(f.step(MusicUrlEvent::AccountFound(Ok(Some(a))), now()), MusicUrlAction::EnsureDfid(_)));
    let act = f.step(MusicUrlEvent::DfidEnsured(Ok(jar(&[("token", "t"), ("dfid", "d")]))), now());
    match act {
        MusicUrlAction::UpsertAccount(a) => assert_eq!(a.cookies.get("dfid"), Some("d")),
        _ => panic!("expected the account stored"),
    }
    assert!(matches!(f.step(MusicUrlEvent::Upserted(Ok(())), now()), MusicUrlAction::FetchMusicUrl(_, _)));
}

#[test]
fn music_url_refreshes_stale_login_first() {
    let mut f = started();
    f.step(MusicUrlEvent::SourceFound(Ok(Some(source(true)))), now());
    let a = account(jar(&[("dfid", "d")]), true, None);
    assert!(matches!(f.step(MusicUrlEvent::AccountFound(Ok(Some(a))), now()), MusicUrlAction::Refresh(RefreshAction::RefreshLogin(_))));
    let act = f.step(MusicUrlEvent::Refresh(RefreshEvent::LoginRefreshed(Ok(RefreshResult { cookies: jar(&[("dfid", "d")]) }))), now());
    assert!(matches!(act, MusicUrlAction::Refresh(RefreshAction::FetchVip(_))));
    let act = f.step(MusicUrlEvent::Refresh(RefreshEvent::VipFetched(Ok(vip(true, jar(&[("dfid", "d"), ("token", "n")]))))), now());
    assert!(matches!(act, MusicUrlAction::Refresh(RefreshAction::Upsert(_))));
    let act = f.step(MusicUrlEvent::Refresh(RefreshEvent::Upserted(Ok(()))), now());
    match act {
        MusicUrlAction::FetchMusicUrl(c, _) => assert_eq!(c.get("token"), Some("n")),
        _ => panic!("expected a fetch with the new cookies"),
    }
}

#[test]
fn music_url_refresh_failure_is_logged_and_reported() {
    let mut f = started();
    f.step(MusicUrlEvent::SourceFound(Ok(Some(source(true)))), now());
    f.step(MusicUrlEvent::AccountFound(Ok(Some(account(jar(&[("dfid", "d")]), true, None)))), now());
    let act = f.step(MusicUrlEvent::Refresh(RefreshEvent::LoginRefreshed(Err(AppError::upstream_login_failed("token refresh: x")))), now());
    assert!(matches!(act, MusicUrlAction::Refresh(RefreshAction::RecordFailure(_))));
    let act = f.step(MusicUrlEvent::Refresh(RefreshEvent::FailureRecorded), now());
    match act {
        MusicUrlAction::AppendLog(l) => {
            assert!(!l.ok);
            assert_eq!(l.status_code, Some(0));
            assert_eq!(l.latency_ms, 0);
            assert_eq!(l.error, Some("upstream error".to_string()));
        },
        _ => panic!("expected a log entry"),
    }
    let e = done_error(f.step(MusicUrlEvent::Logged, now()));
    assert_eq!(e.code, ErrorCode::UpstreamRequestFailed);
    assert_eq!(e.message, "UpstreamLoginFailed: token refresh: x");
}

#[test]
fn music_url_retries_once_after_auth_failure() {
    let mut f = started();
    f.step(MusicUrlEvent::SourceFound(Ok(Some(source(true)))), now());
    f.step(MusicUrlEvent::AccountFound(Ok(Some(account(jar(&[("dfid", "d")]), true, Some(now()))))), now());
    let empty = MusicUrlResult { url: String::new(), cookies: jar(&[("dfid", "d")]), status_code: 200, auth_failed: true };
    f.step(MusicUrlEvent::MusicFetched(Ok(empty), 10), now());
    let act = f.step(MusicUrlEvent::Upserted(Ok(())), now());
    assert!(matches!(act, MusicUrlAction::Refresh(RefreshAction::RefreshLogin(_))));
    f.step(MusicUrlEvent::Refresh(RefreshEvent::LoginRefreshed(Ok(RefreshResult { cookies: jar(&[("dfid", "d")]) }))), now());
    f.step(MusicUrlEvent::Refresh(RefreshEvent::VipFetched(Ok(vip(true, jar(&[("dfid", "d")]))))), now());
    let act = f.step(MusicUrlEvent::Refresh(RefreshEvent::Upserted(Ok(()))), now());
    assert!(matches!(act, MusicUrlAction::FetchMusicUrl(_, _)));
    let again = MusicUrlResult { url: String::new(), cookies: jar(&[("dfid", "d")]), status_code: 200, auth_failed: true };
    f.step(MusicUrlEvent::MusicFetched(Ok(again), 30), now());
    let act = f.step(MusicUrlEvent::Upserted(Ok(())), now());
    match act {
        MusicUrlAction::AppendLog(l) => {
            assert!(!l.ok);
            assert_eq!(l.latency_ms, 30);
            assert_eq!(l.error, Some("upstream error".to_string()));
        },
        _ => panic!("expected a log entry, not a second retry"),
    }
    assert_eq!(done_error(f.step(MusicUrlEvent::Logged, now())).code, ErrorCode::UpstreamPlayUrlEmpty);
}

#[test]
fn music_url_empty_without_auth_failure_is_not_retried() {
    let mut f = started();
    f.step(MusicUrlEvent::SourceFound(Ok(Some(source(true)))), now());
    f.step(MusicUrlEvent::AccountFound(Ok(Some(account(jar(&[("dfid", "d")]), true, Some(now()))))), now());
    let empty = MusicUrlResult { url: String::new(), cookies: jar(&[("dfid", "d")]), status_code: 404, auth_failed: false };
    f.step(MusicUrlEvent::MusicFetched(Ok(empty), 7), now());
    match f.step(MusicUrlEvent::Upserted(Ok(())), now()) {
        MusicUrlAction::AppendLog(l) => assert_eq!(l.status_code, Some(404)),
        _ => panic!("expected a log entry"),
    }
    let e = done_error(f.step(MusicUrlEvent::Logged, now()));
    assert_eq!(e.code, ErrorCode::UpstreamPlayUrlEmpty);
    assert_eq!(e.message, "play url unavailable");
}

#[test]
fn music_url_fetch_error_is_logged_and_reported() {
    let mut f = started();
    f.step(MusicUrlEvent::SourceFound(Ok(Some(source(true)))), now());
    f.step(MusicUrlEvent::AccountFound(Ok(Some(account(jar(&[("dfid", "d")]), true, Some(now()))))), now());
    let act = f.step(MusicUrlEvent::MusicFetched(Err(AppError::upstream_request_failed("song url: timeout")), 9), now());
    assert!(matches!(act, MusicUrlAction::AppendLog(ref l) if !l.ok && l.status_code == Some(0)));
    let e = done_error(f.step(MusicUrlEvent::Logged, now()));
    assert_eq!(e.code, ErrorCode::UpstreamRequestFailed);
    assert_eq!(e.message, "UpstreamRequestFailed: song url: timeout");
}

// ---------------------------------------------------------------------------
// QR login
// ---------------------------------------------------------------------------

#[test]
fn qr_start_saves_session_at_each_step() {
    let (mut f, act) = QrStartFlow::start(now(), "su");
    let s = match act {
        QrStartAction::SaveSession(s) => s,
        _ => panic!("expected a save"),
    };
    assert_eq!(s.session_id, "sess_su");
    assert_eq!(s.status, LoginSessionStatus::Pending);
    assert_eq!(s.expires_at, s.created_at + 300);
    assert!(matches!(f.step(QrStartEvent::Saved(Ok(())), now()), QrStartAction::RequestQrKey(_)));
    let act = f.step(QrStartEvent::KeyReceived(Ok(QrKeyResult { qr_key: "K".to_string(), cookies: jar(&[("kg_mid", "m")]) })), now());
    match act {
        QrStartAction::SaveSession(s) => {
            assert_eq!(s.qr_key, "K");
            assert_eq!(s.temp_cookies.get("kg_mid"), Some("m"));
        },
        _ => panic!("expected a save"),
    }
    assert!(matches!(f.step(QrStartEvent::Saved(Ok(())), now()), QrStartAction::CreateQrCode(ref k, _) if k == "K"));
    let qr = QrCreateResult { qr_url: "https://qr".to_string(), qr_base64: Some("B64".to_string()), cookies: jar(&[("kg_mid", "m")]) };
    match f.step(QrStartEvent::QrCreated(Ok(qr)), now()) {
        QrStartAction::SaveSession(s) => assert_eq!(s.status, LoginSessionStatus::WaitingScan),
        _ => panic!("expected a save"),
    }
    match f.step(QrStartEvent::Saved(Ok(())), now()) {
        QrStartAction::Done(Ok(r)) => {
            assert_eq!(r.status, "waiting_scan");
            assert_eq!(r.qr_url, "https://qr");
            assert_eq!(r.qr_base64, Some("B64".to_string()));
            assert_eq!(r.session_id, s.session_id);
            assert_eq!(r.expires_at, s.expires_at);
        },
        _ => panic!("expected the answer"),
    }
}

#[test]
fn qr_start_upstream_error_ends_the_start() {
    let (mut f, _) = QrStartFlow::start(now(), "su");
    f.step(QrStartEvent::Saved(Ok(())), now());
    match f.step(QrStartEvent::KeyReceived(Err(AppError::upstream_login_failed("no qr key in response"))), now()) {
        QrStartAction::Done(Err(e)) => assert_eq!(e.message, "no qr key in response"),
        _ => panic!("expected the error"),
    }
}

fn session(status: LoginSessionStatus, expires_at: i64, bound: Option<&str>) -> LoginSession {
    LoginSession {
        session_id: "sess_1".to_string(),
        provider: ProviderKind::KugouLite,
        status,
        qr_key: "K".to_string(),
        qr_url: "https://qr".to_string(),
        qr_base64: None,
        temp_cookies: jar(&[("kg_mid", "m")]),
        bound_account_id: bound.map(|s| s.to_string()),
        error: None,
        created_at: 0,
        expires_at,
        updated_at: 0,
    }
}

fn poll_started() -> QrPollFlow {
    let (f, act) = QrPollFlow::start(
        "sess_1".to_string(),
        "https://pub".to_string(),
        "Kugou Concept VIP".to_string(),
        FreshIds {
            account: "ua".to_string(),
            source: "us".to_string(),
            script_token: "ut".to_string(),
            runtime_token: "ur".to_string(),
        },
    );
    assert!(matches!(act, QrPollAction::FindSession(ref id) if id == "sess_1"));
    f
}

fn poll_done(act: QrPollAction) -> Result<kg2lx::services::login::QrLoginPollResponse, AppError> {
    match act {
        QrPollAction::Done(r) => r,
        _ => panic!("expected the answer"),
    }
}

#[test]
fn qr_poll_unknown_session() {
    let mut f = poll_started();
    let e = poll_done(f.step(QrPollEvent::SessionFound(Ok(None)), now())).err().unwrap();
    assert_eq!(e.code, ErrorCode::LoginSessionNotFound);
    assert_eq!(e.status, 404);
}

#[test]
fn qr_poll_expired_session() {
    let mut f = poll_started();
    let act = f.step(QrPollEvent::SessionFound(Ok(Some(session(LoginSessionStatus::WaitingScan, 10, None)))), now());
    match act {
        QrPollAction::SaveSession(s) => assert_eq!(s.status, LoginSessionStatus::Expired),
        _ => panic!("expected a save"),
    }
    let r = poll_done(f.step(QrPollEvent::Saved(Ok(())), now())).ok().unwrap();
    assert_eq!(r.status, "expired");
    assert!(r.account.is_none() && r.source.is_none());
}

#[test]
fn qr_poll_bound_session_answers_from_storage() {
    let mut f = poll_started();
    let act = f.step(QrPollEvent::SessionFound(Ok(Some(session(LoginSessionStatus::Bound, 10, Some("acc_1"))))), now());
    assert!(matches!(act, QrPollAction::FindAccountById(ref id) if id == "acc_1"));
    let act = f.step(QrPollEvent::AccountFound(Ok(Some(account(jar(&[]), true, None)))), now());
    assert!(matches!(act, QrPollAction::FindSourceByAccount(ref id) if id == "acc_1"));
    let r = poll_done(f.step(QrPollEvent::SourceFound(Ok(Some(source(true)))), now())).ok().unwrap();
    assert_eq!(r.status, "bound");
    let a = r.account.unwrap();
    assert_eq!(a.account_id, "acc_1");
    assert_eq!(a.userid, "42");
    let s = r.source.unwrap();
    assert_eq!(s.script_url, "https://pub/s/st_1.js");
}

#[test]
fn qr_poll_bound_session_without_account() {
    let mut f = poll_started();
    let e = poll_done(f.step(QrPollEvent::SessionFound(Ok(Some(session(LoginSessionStatus::Bound, 10, None)))), now())).err().unwrap();
    assert_eq!(e.code, ErrorCode::AccountNotFound);
}

fn polled(f: &mut QrPollFlow, status_code: i64, message: Option<&str>) -> QrPollAction {
    let far = now() + 1000;
    let act = f.step(QrPollEvent::SessionFound(Ok(Some(session(LoginSessionStatus::WaitingScan, far, None)))), now());
    assert!(matches!(act, QrPollAction::PollQr(ref k, _) if k == "K"));
    let p = QrPollResult { cookies: jar(&[("kg_mid", "m"), ("userid", "42"), ("token", "t")]), status_code, message: message.map(|m| m.to_string()) };
    let act = f.step(QrPollEvent::Polled(Ok(p)), now());
    assert!(matches!(act, QrPollAction::SaveSession(_)));
    f.step(QrPollEvent::Saved(Ok(())), now())
}

#[test]
fn qr_poll_waiting_states() {
    for (code, expected) in [(1, "waiting_scan"), (2, "waiting_confirm"), (0, "expired")] {
        let mut f = poll_started();
        let act = polled(&mut f, code, None);
        assert!(matches!(act, QrPollAction::SaveSession(_)));
        let r = poll_done(f.step(QrPollEvent::Saved(Ok(())), now())).ok().unwrap();
        assert_eq!(r.status, expected);
    }
}

#[test]
fn qr_poll_unknown_status_fails() {
    let mut f = poll_started();
    let act = polled(&mut f, 9, None);
    match act {
        QrPollAction::SaveSession(s) => assert_eq!(s.status, LoginSessionStatus::Failed),
        _ => panic!("expected a save"),
    }
    let e = poll_done(f.step(QrPollEvent::Saved(Ok(())), now())).err().unwrap();
    assert_eq!(e.code, ErrorCode::UpstreamLoginFailed);
    assert_eq!(e.message, "unknown qr check error");
    let mut f = poll_started();
    polled(&mut f, -1, Some("key expired"));
    let e = poll_done(f.step(QrPollEvent::Saved(Ok(())), now())).err().unwrap();
    assert_eq!(e.message, "key expired");
}

fn authorized_until_vip(f: &mut QrPollFlow, vip_active: bool) -> QrPollAction {
    let act = polled(f, 4, None);
    match act {
        QrPollAction::SaveSession(s) => assert_eq!(s.status, LoginSessionStatus::Authorized),
        _ => panic!("expected a save"),
    }
    assert!(matches!(f.step(QrPollEvent::Saved(Ok(())), now()), QrPollAction::RefreshLogin(_)));
    let act = f.step(QrPollEvent::LoginRefreshed(Ok(RefreshResult { cookies: jar(&[("userid", "42"), ("token", "t2")]) })), now());
    assert!(matches!(act, QrPollAction::SaveSession(_)));
    assert!(matches!(f.step(QrPollEvent::Saved(Ok(())), now()), QrPollAction::EnsureDfid(_)));
    let act = f.step(QrPollEvent::DfidEnsured(Ok(jar(&[("userid", "42"), ("token", "t2"), ("dfid", "d")]))), now());
    assert!(matches!(act, QrPollAction::SaveSession(_)));
    assert!(matches!(f.step(QrPollEvent::Saved(Ok(())), now()), QrPollAction::FetchVip(_)));
    let act = f.step(QrPollEvent::VipFetched(Ok(vip(vip_active, jar(&[("userid", "42"), ("token", "t2"), ("dfid", "d")])))), now());
    assert!(matches!(act, QrPollAction::SaveSession(_)));
    f.step(QrPollEvent::Saved(Ok(())), now())
}

#[test]
fn qr_poll_without_vip_is_refused() {
    let mut f = poll_started();
    let act = authorized_until_vip(&mut f, false);
    match act {
        QrPollAction::SaveSession(s) => {
            assert_eq!(s.status, LoginSessionStatus::Failed);
            assert_eq!(s.error, Some("VIP not active for concept membership".to_string()));
        },
        _ => panic!("expected a save"),
    }
    let e = poll_done(f.step(QrPollEvent::Saved(Ok(())), now())).err().unwrap();
    assert_eq!(e.code, ErrorCode::AccountNotVip);
}

#[test]
fn qr_poll_binds_new_account_and_source() {
    let mut f = poll_started();
    let act = authorized_until_vip(&mut f, true);
    assert!(matches!(act, QrPollAction::FindAccountByUserid(ref u) if u == "42"));
    let act = f.step(QrPollEvent::AccountFound(Ok(None)), now());
    let acc = match act {
        QrPollAction::UpsertAccount(a) => a,
        _ => panic!("expected the account stored"),
    };
    assert_eq!(acc.account_id, "acc_ua");
    assert_eq!(acc.upstream_userid, "42");
    assert_eq!(acc.status, AccountStatus::Active);
    assert_eq!(acc.vip_type, 6);
    assert_eq!(acc.cookies.get("dfid"), Some("d"));
    let act = f.step(QrPollEvent::AccountUpserted(Ok(())), now());
    assert!(matches!(act, QrPollAction::FindSourceByAccount(ref id) if *id == acc.account_id));
    let src = match f.step(QrPollEvent::SourceFound(Ok(None)), now()) {
        QrPollAction::UpsertSource(s) => s,
        _ => panic!("expected the source stored"),
    };
    assert_eq!(src.source_id, "src_us");
    assert_eq!(src.script_token, "st_ut");
    assert_eq!(src.runtime_token, "rt_ur");
    assert_eq!(src.name, "Kugou Concept VIP 42");
    assert!(src.enabled);
    assert_eq!(src.account_id, acc.account_id);
    match f.step(QrPollEvent::SourceUpserted(Ok(())), now()) {
        QrPollAction::SaveSession(s) => {
            assert_eq!(s.status, LoginSessionStatus::Bound);
            assert_eq!(s.bound_account_id, Some(acc.account_id.clone()));
        },
        _ => panic!("expected the session stored"),
    }
    let r = poll_done(f.step(QrPollEvent::Saved(Ok(())), now())).ok().unwrap();
    assert_eq!(r.status, "bound");
    let a = r.account.unwrap();
    assert_eq!(a.userid, "42");
    assert!(a.vip_active);
    let s = r.source.unwrap();
    assert_eq!(s.script_url, format!("https://pub/s/{}.js", src.script_token));
}

#[test]
fn qr_poll_renews_existing_account_and_keeps_source() {
    let mut f = poll_started();
    authorized_until_vip(&mut f, true);
    let mut existing = account(jar(&[]), false, None);
    existing.account_id = "acc_old".to_string();
    existing.status = AccountStatus::LoginFailed;
    existing.created_at = 123;
    let acc = match f.step(QrPollEvent::AccountFound(Ok(Some(existing))), now()) {
        QrPollAction::UpsertAccount(a) => a,
        _ => panic!("expected the account stored"),
    };
    assert_eq!(acc.account_id, "acc_old");
    assert_eq!(acc.created_at, 123);
    assert_eq!(acc.status, AccountStatus::Active);
    assert!(acc.vip_active);
    f.step(QrPollEvent::AccountUpserted(Ok(())), now());
    let mut src = source(true);
    src.account_id = "acc_old".to_string();
    match f.step(QrPollEvent::SourceFound(Ok(Some(src))), now()) {
        QrPollAction::SaveSession(s) => assert_eq!(s.bound_account_id, Some("acc_old".to_string())),
        _ => panic!("expected the session stored"),
    }
    let r = poll_done(f.step(QrPollEvent::Saved(Ok(())), now())).ok().unwrap();
    assert_eq!(r.source.unwrap().source_id, "src_1");
}

#[test]
fn second_login_of_same_user_reuses_account_and_source() {
    // First login: nothing stored yet.
    let mut f = poll_started();
    authorized_until_vip(&mut f, true);
    let acc = match f.step(QrPollEvent::AccountFound(Ok(None)), now()) {
        QrPollAction::UpsertAccount(a) => a,
        _ => panic!("expected the account stored"),
    };
    f.step(QrPollEvent::AccountUpserted(Ok(())), now());
    let src = match f.step(QrPollEvent::SourceFound(Ok(None)), now()) {
        QrPollAction::UpsertSource(s) => s,
        _ => panic!("expected the source stored"),
    };
    f.step(QrPollEvent::SourceUpserted(Ok(())), now());
    let r1 = poll_done(f.step(QrPollEvent::Saved(Ok(())), now())).ok().unwrap();
    // Second login of the same user, with the stores as the first left them.
    let mut g = poll_started();
    authorized_until_vip(&mut g, true);
    let acc2 = match g.step(QrPollEvent::AccountFound(Ok(Some(acc.clone()))), now()) {
        QrPollAction::UpsertAccount(a) => a,
        _ => panic!("expected the account stored"),
    };
    assert_eq!(acc2.account_id, acc.account_id);
    g.step(QrPollEvent::AccountUpserted(Ok(())), now());
    match g.step(QrPollEvent::SourceFound(Ok(Some(src.clone()))), now()) {
        QrPollAction::SaveSession(_) => {},
        _ => panic!("no second source may be stored"),
    }
    let r2 = poll_done(g.step(QrPollEvent::Saved(Ok(())), now())).ok().unwrap();
    let (a1, a2) = (r1.account.unwrap(), r2.account.unwrap());
    assert_eq!(a1.account_id, a2.account_id);
    let (s1, s2) = (r1.source.unwrap(), r2.source.unwrap());
    assert_eq!(s1.source_id, s2.source_id);
    assert_eq!(s1.name, s2.name);
    assert_eq!(s1.script_url, s2.script_url);
}

use kg2lx::config::Config;
use kg2lx::domain::account::{AccountStatus, ProviderAccount};
use kg2lx::domain::cookie_store::CookieStore;
use kg2lx::domain::provider::ProviderKind;
use kg2lx::domain::runtime_log::{
    default_runtime_log_stage, sanitize_runtime_log_error, ListRuntimeLogsQuery, RuntimeLog,
    RuntimeLogStage, RuntimeLogView,
};
use kg2lx::domain::source::Source;
use kg2lx::error::{AppError, ErrorCode};
use kg2lx::ids::new_id;
use kg2lx::repos::fs::account::FsAccountRepo;
use kg2lx::repos::fs::login_session::FsLoginSessionRepo;
use kg2lx::repos::fs::runtime_log::{
    collect_runtime_logs, is_runtime_log_file_name, log_lines, runtime_log_file_name, sort_newest_first,
    FsRuntimeLogRepo,
};
use kg2lx::repos::fs::source::{source_matches_index, FsSourceRepo};
use kg2lx::repos::fs::{has_json_extension, join_path, record_path};
use kg2lx::services::runtime::{attempt_log, needs_refresh, upstream_request, RuntimeMusicUrlRequest};
use kg2lx::services::script::{render_script, script_for_source};
use kg2lx::services::source::{
    is_previewable, refresh_response, require_account, require_source, runtime_token_preview, script_url,
    source_detail, source_list_item,
};
use kg2lx::text::{decimal, parse_unsigned, signed_decimal};

fn is_uuid(s: &str) -> bool {
    s.len() == 36
        && s.chars().enumerate().all(|(i, c)| {
            if i == 8 || i == 13 || i == 18 || i == 23 {
                c == '-'
            } else {
                c.is_ascii_digit() || ('a'..='f').contains(&c)
            }
        })
}

fn source(enabled: bool) -> Source {
    Source {
        source_id: "src_1".to_string(),
        account_id: "acc_1".to_string(),
        provider: ProviderKind::KugouLite,
        name: "Kugou Concept VIP 42".to_string(),
        enabled,
        script_token: "st_abc".to_string(),
        runtime_token: "rt_0123456789".to_string(),
        created_at: 10,
        updated_at: 20,
    }
}

fn account() -> ProviderAccount {
    ProviderAccount {
        account_id: "acc_1".to_string(),
        provider: ProviderKind::KugouLite,
        upstream_userid: "42".to_string(),
        display_name: None,
        status: AccountStatus::LoginFailed,
        vip_type: 3,
        vip_active: true,
        cookies: CookieStore::new(),
        last_refresh_at: Some(100),
        last_success_at: Some(90),
        last_error: Some("UpstreamLoginFailed: x".to_string()),
        created_at: 1,
        updated_at: 2,
    }
}

fn log(source_id: &str, ok: bool, hash: &str) -> RuntimeLog {
    RuntimeLog {
        log_id: format!("log_{}", hash),
        source_id: source_id.to_string(),
        account_id: "acc_1".to_string(),
        provider: ProviderKind::KugouLite,
        action: "musicUrl".to_string(),
        track_title: None,
        artist_name: None,
        album_name: None,
        request_hash: hash.to_string(),
        album_audio_id: None,
        requested_quality: "128k".to_string(),
        upstream_endpoint: "song/url".to_string(),
        stage: RuntimeLogStage::FetchMusicUrl,
        refresh_attempted: false,
        retry_count: 0,
        ok,
        status_code: Some(200),
        error_code: None,
        latency_ms: 5,
        error: None,
        created_at: 0,
    }
}

#[test]
fn error_constructors() {
    let cases: Vec<(AppError, ErrorCode, &str, u16, bool)> = vec![
        (AppError::admin_unauthorized(), ErrorCode::AdminUnauthorized, "unauthorized", 401, false),
        (AppError::source_not_found(), ErrorCode::SourceNotFound, "source not found", 404, false),
        (AppError::source_disabled(), ErrorCode::SourceDisabled, "source is disabled", 403, false),
        (AppError::account_not_found(), ErrorCode::AccountNotFound, "account not found", 404, false),
        (AppError::account_disabled(), ErrorCode::AccountDisabled, "account is disabled", 403, false),
        (AppError::account_not_vip(), ErrorCode::AccountNotVip, "account vip is not active", 403, false),
        (AppError::login_session_not_found(), ErrorCode::LoginSessionNotFound, "login session not found", 404, true),
        (AppError::upstream_request_failed("m1"), ErrorCode::UpstreamRequestFailed, "m1", 502, true),
        (AppError::upstream_login_failed("m2"), ErrorCode::UpstreamLoginFailed, "m2", 502, true),
        (AppError::upstream_vip_check_failed("m3"), ErrorCode::UpstreamVipCheckFailed, "m3", 502, true),
        (AppError::upstream_play_url_empty(), ErrorCode::UpstreamPlayUrlEmpty, "play url unavailable", 404, false),
        (AppError::invalid_request("m4"), ErrorCode::InvalidRequest, "m4", 400, false),
        (AppError::internal("m5"), ErrorCode::InternalError, "m5", 500, false),
    ];
    for (e, code, msg, status, admin) in cases {
        assert_eq!(e.code, code);
        assert_eq!(e.message, msg);
        assert_eq!(e.status, status);
        assert_eq!(e.is_admin, admin);
    }
}

#[test]
fn public_messages_hide_internal_details() {
    assert_eq!(AppError::internal("disk on fire").public_message(), "internal error");
    let mut e = AppError::upstream_request_failed("timeout");
    assert_eq!(e.public_message(), "timeout");
    e.is_admin = false;
    assert_eq!(e.public_message(), "internal error");
    assert_eq!(AppError::invalid_request("invalid view").public_message(), "invalid view");
    assert_eq!(AppError::source_not_found().public_message(), "source not found");
}

#[test]
fn error_descriptions() {
    assert_eq!(AppError::source_not_found().describe(), "SourceNotFound: source not found");
    assert_eq!(AppError::upstream_login_failed("token refresh: x").describe(), "UpstreamLoginFailed: token refresh: x");
    assert_eq!(ErrorCode::UpstreamPlayUrlEmpty.name(), "UpstreamPlayUrlEmpty");
}

#[test]
fn config_defaults() {
    let c = Config::from_env_values(
        None,
        "https://pub".to_string(),
        "adm".to_string(),
        "http://kg".to_string(),
        None,
        None,
        None,
        None,
        None,
    );
    assert_eq!(c.listen_addr, "127.0.0.1:8787");
    assert_eq!(c.public_base_url, "https://pub");
    assert_eq!(c.admin_token, "adm");
    assert_eq!(c.kugou_api_base_url, "http://kg");
    assert_eq!(c.data_dir, "./data");
    assert_eq!(c.upstream_timeout_ms, 10000);
    assert_eq!(c.source_name_prefix, "Kugou Concept VIP");
    assert_eq!(c.refresh_interval_secs, 21600);
    assert_eq!(c.web_dist_dir, None);
}

#[test]
fn config_values_and_unparsable_numbers() {
    let c = Config::from_env_values(
        Some("0.0.0.0:9000".to_string()),
        "p".to_string(),
        "a".to_string(),
        "k".to_string(),
        Some("/var/data".to_string()),
        Some("2500".to_string()),
        Some("My".to_string()),
        Some("soon".to_string()),
        Some("/srv/web".to_string()),
    );
    assert_eq!(c.listen_addr, "0.0.0.0:9000");
    assert_eq!(c.data_dir, "/var/data");
    assert_eq!(c.upstream_timeout_ms, 2500);
    assert_eq!(c.source_name_prefix, "My");
    assert_eq!(c.refresh_interval_secs, 21600);
    assert_eq!(c.web_dist_dir, Some("/srv/web".to_string()));
    let c = Config::from_env_values(None, "p".into(), "a".into(), "k".into(), None, Some("-1".into()), None, Some("60".into()), None);
    assert_eq!(c.upstream_timeout_ms, 10000);
    assert_eq!(c.refresh_interval_secs, 60);
}

#[test]
fn paths_of_the_stores() {
    assert_eq!(join_path("./data", "accounts"), "./data/accounts");
    assert_eq!(join_path("/data/", "x"), "/data/x");
    assert_eq!(join_path("", "x"), "x");
    assert_eq!(join_path("d", "/abs"), "/abs");
    assert_eq!(record_path("/d/sources", "src_1"), "/d/sources/src_1.json");
    assert_eq!(FsAccountRepo::new("./data").path("acc_1"), "./data/accounts/acc_1.json");
    assert_eq!(FsSourceRepo::new("/d").path("src_1"), "/d/sources/src_1.json");
    assert_eq!(FsLoginSessionRepo::new("/d").path("sess_1"), "/d/login_sessions/sess_1.json");
    assert_eq!(FsRuntimeLogRepo::new("/d").dir, "/d/logs");
}

#[test]
fn record_files_are_json_files() {
    assert!(has_json_extension("/d/sources/src_1.json"));
    assert!(!has_json_extension("/d/sources/src_1.json.bak"));
    assert!(!has_json_extension("/d/sources/.json"));
    assert!(!has_json_extension("/d/sources/readme"));
    assert!(has_json_extension("a.b.json"));
}

#[test]
fn log_file_names() {
    assert_eq!(runtime_log_file_name("2024-01-02"), "runtime-2024-01-02.jsonl");
    assert!(is_runtime_log_file_name("runtime-2024-01-02.jsonl"));
    assert!(!is_runtime_log_file_name("runtime-2024-01-02.json"));
    assert!(!is_runtime_log_file_name("other-2024.jsonl"));
}

#[test]
fn log_files_newest_first() {
    let names = vec![
        "runtime-2024-01-01.jsonl".to_string(),
        "runtime-2024-03-01.jsonl".to_string(),
        "runtime-2024-02-01.jsonl".to_string(),
        "runtime-2024-03-01.jsonl".to_string(),
    ];
    let sorted = sort_newest_first(names);
    assert_eq!(
        sorted,
        vec![
            "runtime-2024-03-01.jsonl".to_string(),
            "runtime-2024-03-01.jsonl".to_string(),
            "runtime-2024-02-01.jsonl".to_string(),
            "runtime-2024-01-01.jsonl".to_string(),
        ]
    );
    assert!(sort_newest_first(vec![]).is_empty());
}

#[test]
fn log_listing_newest_line_first_of_source() {
    let newest_file = vec![Some(log("src_1", true, "a")), None, Some(log("src_2", true, "b")), Some(log("src_1", false, "c"))];
    let older_file = vec![Some(log("src_1", true, "d"))];
    let files = vec![newest_file, older_file];
    let q = ListRuntimeLogsQuery { source_id: "src_1".to_string(), limit: 10, view: RuntimeLogView::All };
    let got: Vec<String> = collect_runtime_logs(&files, &q).into_iter().map(|l| l.request_hash).collect();
    assert_eq!(got, vec!["c", "a", "d"]);
}

#[test]
fn log_listing_limit_and_errors_view() {
    let files = vec![vec![Some(log("s", true, "a")), Some(log("s", false, "b")), Some(log("s", true, "c")), Some(log("s", false, "d"))]];
    let q = ListRuntimeLogsQuery { source_id: "s".to_string(), limit: 2, view: RuntimeLogView::All };
    let got: Vec<String> = collect_runtime_logs(&files, &q).into_iter().map(|l| l.request_hash).collect();
    assert_eq!(got, vec!["d", "c"]);
    let q = ListRuntimeLogsQuery { source_id: "s".to_string(), limit: 10, view: RuntimeLogView::Errors };
    let got: Vec<String> = collect_runtime_logs(&files, &q).into_iter().map(|l| l.request_hash).collect();
    assert_eq!(got, vec!["d", "b"]);
    let q = ListRuntimeLogsQuery { source_id: "s".to_string(), limit: 0, view: RuntimeLogView::All };
    assert_eq!(collect_runtime_logs(&files, &q).len(), 1);
    let q = ListRuntimeLogsQuery { source_id: "t".to_string(), limit: 5, view: RuntimeLogView::All };
    assert!(collect_runtime_logs(&files, &q).is_empty());
}

#[test]
fn appended_entry_is_listed_first() {
    let names = vec![
        runtime_log_file_name("2024-01-02"),
        runtime_log_file_name("2024-03-01"),
        runtime_log_file_name("2023-12-31"),
    ];
    let sorted = sort_newest_first(names);
    assert_eq!(sorted[0], "runtime-2024-03-01.jsonl");
    let content_of = |name: &str| -> Vec<Option<RuntimeLog>> {
        if name == "runtime-2024-03-01.jsonl" {
            vec![Some(log("s", false, "earlier")), Some(log("s", false, "appended"))]
        } else {
            vec![Some(log("s", false, "old"))]
        }
    };
    let files: Vec<Vec<Option<RuntimeLog>>> = sorted.iter().map(|n| content_of(n)).collect();
    for view in [RuntimeLogView::All, RuntimeLogView::Errors] {
        let q = ListRuntimeLogsQuery { source_id: "s".to_string(), limit: 1, view };
        let got = collect_runtime_logs(&files, &q);
        assert_eq!(got.len(), 1);
        assert_eq!(got[0].request_hash, "appended");
    }
}

#[test]
fn log_errors_are_sanitized() {
    assert_eq!(sanitize_runtime_log_error(Some("token=secret leaked")), Some("upstream error".to_string()));
    assert_eq!(sanitize_runtime_log_error(None), None);
    let mut l = log("s", false, "a");
    l.error = Some("raw".to_string());
    let s = l.sanitized();
    assert_eq!(s.error, Some("upstream error".to_string()));
    assert_eq!(s.request_hash, "a");
    assert_eq!(default_runtime_log_stage(), RuntimeLogStage::FetchMusicUrl);
}

#[test]
fn ids_are_prefix_and_uuid() {
    let u = "123e4567-e89b-42d3-a456-426614174000";
    assert!(is_uuid(u));
    assert_eq!(new_id("acc_", u), format!("acc_{}", u));
}

#[test]
fn clock_reads_current_time() {
    let t = kg2lx::domain::account::now_ts().unwrap();
    assert!(t > 1_600_000_000);
    assert!(kg2lx::domain::source::now_ts().unwrap() >= t);
    assert!(kg2lx::domain::login_session::now_ts().unwrap() >= t);
}

#[test]
fn names_of_enums() {
    assert_eq!(AccountStatus::LoginFailed.lowercase_name(), "loginfailed");
    assert_eq!(AccountStatus::Active.lowercase_name(), "active");
    assert_eq!(ProviderKind::KugouLite.name(), "kugou_lite");
}

#[test]
fn source_lookup_by_index() {
    let s = source(true);
    assert!(source_matches_index(&s, "script_token", "st_abc"));
    assert!(source_matches_index(&s, "runtime_token", "rt_0123456789"));
    assert!(source_matches_index(&s, "account_id", "acc_1"));
    assert!(!source_matches_index(&s, "account_id", "acc_2"));
    assert!(!source_matches_index(&s, "source_id", "src_1"));
}

#[test]
fn numbers_as_text() {
    assert_eq!(decimal(0), "0");
    assert_eq!(decimal(1234567890123), "1234567890123");
    assert_eq!(signed_decimal(-42), "-42");
    assert_eq!(signed_decimal(i64::MIN), "-9223372036854775808");
    assert_eq!(parse_unsigned("+12", 100), Some(12));
    assert_eq!(parse_unsigned("101", 100), None);
    assert_eq!(parse_unsigned("", 100), None);
    assert_eq!(parse_unsigned("1_0", 100), None);
}

#[test]
fn script_is_rendered_for_an_enabled_source() {
    let s = render_script("Kugou 42", "https://pub", "rt_x");
    assert!(s.starts_with("/**\n * @name Kugou 42\n"));
    assert!(s.contains("const API = 'https://pub/api/v1/runtime/music-url'\n"));
    assert!(s.contains("const TOKEN = 'rt_x'\n"));
    assert!(s.contains("      name: 'Kugou 42',\n"));
    assert!(s.ends_with("  },\n})\n"));
    let r = script_for_source(Some(source(true)), "https://pub", "Prefix").ok().unwrap();
    assert!(r.starts_with("/**\n * @name Prefix\n"));
    assert!(r.contains("const TOKEN = 'rt_0123456789'\n"));
}

#[test]
fn script_refused_for_missing_or_disabled_source() {
    let e = script_for_source(None, "https://pub", "P").err().unwrap();
    assert_eq!(e.code, ErrorCode::SourceNotFound);
    let e = script_for_source(Some(source(false)), "https://pub", "P").err().unwrap();
    assert_eq!(e.code, ErrorCode::SourceDisabled);
}

#[test]
fn source_views() {
    assert_eq!(script_url("https://pub", "st_abc"), "https://pub/s/st_abc.js");
    let item = source_list_item(source(true), Some(&account()), "https://pub");
    assert_eq!(item.source_id, "src_1");
    assert_eq!(item.provider, "kugou_lite");
    assert_eq!(item.script_url, "https://pub/s/st_abc.js");
    assert_eq!(item.userid, "42");
    assert!(item.vip_active);
    assert_eq!(item.updated_at, 20);
    let bare = source_list_item(source(false), None, "https://pub");
    assert_eq!(bare.userid, "");
    assert!(!bare.vip_active);
    assert!(!bare.enabled);
}

#[test]
fn runtime_token_previews() {
    assert_eq!(runtime_token_preview("rt_0123456789"), "rt_01234...");
    assert_eq!(runtime_token_preview("abc"), "abc...");
    assert_eq!(runtime_token_preview("12345678"), "12345678...");
    assert_eq!(runtime_token_preview("éééééé"), "éééé...");
}

#[test]
fn source_detail_view() {
    let d = source_detail(source(true), account(), "https://pub");
    assert_eq!(d.runtime_token_preview, "rt_01234...");
    assert_eq!(d.script_url, "https://pub/s/st_abc.js");
    assert_eq!(d.account.userid, "42");
    assert_eq!(d.account.status, "loginfailed");
    assert_eq!(d.account.vip_type, 3);
    assert_eq!(d.account.last_refresh_at, Some(100));
    assert_eq!(d.account.last_error, Some("UpstreamLoginFailed: x".to_string()));
}

#[test]
fn lookups_required() {
    assert_eq!(require_source(None).err().unwrap().code, ErrorCode::SourceNotFound);
    assert_eq!(require_source(Some(source(true))).ok().unwrap().source_id, "src_1");
    assert_eq!(require_account(None).err().unwrap().code, ErrorCode::AccountNotFound);
    assert_eq!(require_account(Some(account())).ok().unwrap().account_id, "acc_1");
    let r = refresh_response("src_1", &account(), 77);
    assert!(r.ok);
    assert_eq!(r.source_id, "src_1");
    assert!(r.vip_active);
    assert_eq!(r.updated_at, 77);
}

#[test]
fn refresh_due() {
    assert!(needs_refresh(None, 100, 10));
    assert!(needs_refresh(Some(0), 100, 10));
    assert!(!needs_refresh(Some(90), 100, 10));
    assert!(!needs_refresh(Some(95), 100, 10));
    assert!(needs_refresh(Some(i64::MIN), i64::MAX, 0));
    // An interval beyond i64 converts to a negative number, as `as i64` does.
    assert!(needs_refresh(Some(100), 100, u64::MAX));
}

#[test]
fn attempt_log_entries() {
    let req = RuntimeMusicUrlRequest { hash: "H".to_string(), album_audio_id: Some("9".to_string()), quality: "flac".to_string() };
    let up = upstream_request(&req);
    assert_eq!(up.hash, "H");
    assert_eq!(up.album_audio_id, Some("9".to_string()));
    assert_eq!(up.quality, "flac");
    let l = attempt_log(&"src_1".to_string(), &"acc_1".to_string(), &req, false, 404, 12, Some("empty play url"), "u-1", 1_700_000_000);
    assert_eq!(l.log_id, "log_u-1");
    assert_eq!(l.action, "musicUrl");
    assert_eq!(l.upstream_endpoint, "song/url");
    assert_eq!(l.status_code, Some(404));
    assert_eq!(l.latency_ms, 12);
    assert!(!l.ok);
    assert_eq!(l.error, Some("upstream error".to_string()));
    assert_eq!(l.stage, RuntimeLogStage::FetchMusicUrl);
    assert_eq!(l.album_audio_id, Some("9".to_string()));
    assert_eq!(l.created_at, 1_700_000_000);
}

#[test]
fn runtime_tokens_that_can_be_previewed() {
    assert!(is_previewable("rt_0123456789"));
    assert!(is_previewable("short"));
    assert!(is_previewable("éééééé"));
    assert!(!is_previewable("abcdefgé123"));
}

#[test]
fn log_text_lines() {
    assert_eq!(log_lines("a\nb\r\n\n\r\nc"), vec!["a", "b", "c"]);
    assert_eq!(log_lines("x\r"), vec!["x\r"]);
    assert_eq!(log_lines("x\n"), vec!["x"]);
    assert!(log_lines("").is_empty());
    assert!(log_lines("\n\n").is_empty());
    let text = "one\r\ntwo\n\nthree\r";
    let expected: Vec<&str> = text.lines().filter(|l| !l.is_empty()).collect();
    assert_eq!(log_lines(text), expected);
}

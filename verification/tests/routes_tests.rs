use kg2lx::domain::runtime_log::RuntimeLogView;
use kg2lx::error::ErrorCode;
use kg2lx::routes::admin::{bearer_of, parse_list_logs_params, verify_admin, ListLogsParams};
use kg2lx::routes::runtime::{read_music_url_body, request_json, validate_music_url_request, verify_runtime};
use kg2lx::routes::script::script_token_from_path;
use kg2lx::routes::static_fs::{extension, file_name, mime_from_path, path_within, plan_static_request, StaticPlan};
use kg2lx::services::runtime::RuntimeMusicUrlRequest;

#[test]
fn bearer_token_of_authorization_header() {
    assert_eq!(bearer_of(Some("Bearer abc")), "abc");
    assert_eq!(bearer_of(Some("Bearer ")), "");
    assert_eq!(bearer_of(Some("bearer abc")), "");
    assert_eq!(bearer_of(Some("abc")), "");
    assert_eq!(bearer_of(None), "");
}

#[test]
fn admin_token_must_match() {
    assert!(verify_admin(Some("Bearer s3cret"), "s3cret").is_ok());
    let e = verify_admin(Some("Bearer wrong"), "s3cret").err().unwrap();
    assert_eq!(e.code, ErrorCode::AdminUnauthorized);
    assert_eq!(e.status, 401);
    assert_eq!(e.message, "unauthorized");
    assert!(verify_admin(None, "s3cret").is_err());
    assert!(verify_admin(Some("s3cret"), "s3cret").is_err());
}

#[test]
fn empty_admin_token_accepts_missing_header() {
    assert!(verify_admin(None, "").is_ok());
    assert!(verify_admin(Some("Basic x"), "").is_ok());
}

#[test]
fn runtime_token_is_the_bearer_token() {
    assert_eq!(verify_runtime(Some("Bearer rt_1")).ok(), Some("rt_1".to_string()));
    let e = verify_runtime(Some("Bearer ")).err().unwrap();
    assert_eq!(e.code, ErrorCode::AdminUnauthorized);
    assert_eq!(e.status, 401);
    assert!(verify_runtime(None).is_err());
    assert!(verify_runtime(Some("rt_1")).is_err());
}

#[test]
fn log_params_defaults() {
    let (n, v) = parse_list_logs_params(None, None).ok().unwrap();
    assert_eq!(n, 20);
    assert_eq!(v, RuntimeLogView::All);
}

#[test]
fn log_params_explicit() {
    let (n, v) = parse_list_logs_params(Some("5"), Some("errors")).ok().unwrap();
    assert_eq!(n, 5);
    assert_eq!(v, RuntimeLogView::Errors);
    let (n, v) = parse_list_logs_params(Some("100"), Some("all")).ok().unwrap();
    assert_eq!(n, 100);
    assert_eq!(v, RuntimeLogView::All);
    let (n, _) = parse_list_logs_params(Some("+7"), None).ok().unwrap();
    assert_eq!(n, 7);
    let (n, _) = parse_list_logs_params(Some("007"), None).ok().unwrap();
    assert_eq!(n, 7);
}

#[test]
fn log_params_invalid_limit() {
    for bad in ["0", "101", "abc", "", "-1", " 5", "5.0", "99999999999999999999999"] {
        let e = parse_list_logs_params(Some(bad), None).err().unwrap();
        assert_eq!(e.code, ErrorCode::InvalidRequest);
        assert_eq!(e.status, 400);
        assert_eq!(e.message, "invalid limit");
    }
    let e = parse_list_logs_params(Some("0"), Some("bad")).err().unwrap();
    assert_eq!(e.message, "invalid limit");
}

#[test]
fn log_params_invalid_view() {
    let e = parse_list_logs_params(None, Some("Errors")).err().unwrap();
    assert_eq!(e.code, ErrorCode::InvalidRequest);
    assert_eq!(e.message, "invalid view");
}

fn req(hash: &str, quality: &str) -> RuntimeMusicUrlRequest {
    RuntimeMusicUrlRequest { hash: hash.to_string(), album_audio_id: None, quality: quality.to_string() }
}

#[test]
fn music_url_request_validation() {
    for q in ["128k", "320k", "flac", "flac24bit"] {
        assert!(validate_music_url_request(&req("H", q)).is_ok());
    }
    let e = validate_music_url_request(&req("", "128k")).err().unwrap();
    assert_eq!(e.code, ErrorCode::InvalidRequest);
    assert_eq!(e.message, "hash is required");
    let e = validate_music_url_request(&req("", "bad")).err().unwrap();
    assert_eq!(e.message, "hash is required");
    let e = validate_music_url_request(&req("H", "FLAC")).err().unwrap();
    assert_eq!(e.message, "invalid quality");
}

#[test]
fn script_path_must_end_with_js() {
    assert_eq!(script_token_from_path("st_abc.js").ok(), Some("st_abc".to_string()));
    assert_eq!(script_token_from_path(".js").ok(), Some(String::new()));
    let e = script_token_from_path("st_abc.txt").err().unwrap();
    assert_eq!(e.code, ErrorCode::InvalidRequest);
    assert_eq!(e.status, 400);
    assert_eq!(e.message, "script path must end with .js");
}

#[test]
fn static_plan_without_directory() {
    assert_eq!(plan_static_request(None, "/index.html"), StaticPlan::NotFound);
}

#[test]
fn static_plan_index_and_files() {
    let d = Some("/srv/web");
    assert_eq!(plan_static_request(d, "/"), StaticPlan::Index);
    assert_eq!(plan_static_request(d, "///"), StaticPlan::Index);
    assert_eq!(plan_static_request(d, "/assets/app.js"), StaticPlan::FileThenIndex("assets/app.js".to_string()));
    assert_eq!(plan_static_request(d, "//x"), StaticPlan::FileThenIndex("x".to_string()));
    assert_eq!(plan_static_request(d, "/a/./b"), StaticPlan::FileThenIndex("a/./b".to_string()));
}

#[test]
fn static_plan_refuses_parent_segments() {
    let d = Some("/srv/web");
    assert_eq!(plan_static_request(d, "/../etc/passwd"), StaticPlan::NotFound);
    assert_eq!(plan_static_request(d, "/a/../b"), StaticPlan::NotFound);
    assert_eq!(plan_static_request(d, "/a/.."), StaticPlan::NotFound);
    assert_eq!(plan_static_request(d, "/a/..b"), StaticPlan::FileThenIndex("a/..b".to_string()));
}

#[test]
fn file_names_and_extensions() {
    assert_eq!(file_name("/a/b.txt"), Some("b.txt".to_string()));
    assert_eq!(file_name("b.txt"), Some("b.txt".to_string()));
    assert_eq!(file_name("/a/b/"), Some("b".to_string()));
    assert_eq!(file_name("/"), None);
    assert_eq!(file_name("/a/.."), None);
    assert_eq!(extension("b.txt"), Some("txt".to_string()));
    assert_eq!(extension("a.tar.gz"), Some("gz".to_string()));
    assert_eq!(extension(".bashrc"), None);
    assert_eq!(extension("noext"), None);
    assert_eq!(extension("a."), Some(String::new()));
}

#[test]
fn content_types() {
    assert_eq!(mime_from_path("/srv/web/index.html"), "text/html; charset=utf-8");
    assert_eq!(mime_from_path("/srv/web/app.js"), "application/javascript; charset=utf-8");
    assert_eq!(mime_from_path("/srv/web/app.mjs"), "application/javascript; charset=utf-8");
    assert_eq!(mime_from_path("/x/s.css"), "text/css; charset=utf-8");
    assert_eq!(mime_from_path("/x/d.json"), "application/json; charset=utf-8");
    assert_eq!(mime_from_path("/x/p.png"), "image/png");
    assert_eq!(mime_from_path("/x/p.jpg"), "image/jpeg");
    assert_eq!(mime_from_path("/x/p.jpeg"), "image/jpeg");
    assert_eq!(mime_from_path("/x/p.gif"), "image/gif");
    assert_eq!(mime_from_path("/x/p.svg"), "image/svg+xml");
    assert_eq!(mime_from_path("/x/favicon.ico"), "image/x-icon");
    assert_eq!(mime_from_path("/x/f.woff"), "font/woff");
    assert_eq!(mime_from_path("/x/f.woff2"), "font/woff2");
    assert_eq!(mime_from_path("/x/f.ttf"), "font/ttf");
    assert_eq!(mime_from_path("/x/p.webp"), "image/webp");
    assert_eq!(mime_from_path("/x/m.wasm"), "application/wasm");
    assert_eq!(mime_from_path("/x/app.js.map"), "application/json");
    assert_eq!(mime_from_path("/x/P.JPG"), "application/octet-stream");
    assert_eq!(mime_from_path("/x/README"), "application/octet-stream");
    assert_eq!(mime_from_path("/x/.hidden"), "application/octet-stream");
}

#[test]
fn log_params_struct() {
    let p = ListLogsParams { limit: Some("3".to_string()), view: Some("errors".to_string()) };
    let (n, v) = p.parse().ok().unwrap();
    assert_eq!(n, 3);
    assert_eq!(v, RuntimeLogView::Errors);
    let p = ListLogsParams { limit: None, view: Some("x".to_string()) };
    assert_eq!(p.parse().err().unwrap().message, "invalid view");
}

#[test]
fn music_url_body_object() {
    let r = read_music_url_body(br#"{"hash":"abc","quality":"128k"}"#).ok().unwrap();
    assert_eq!(r, None);
}

#[test]
fn music_url_body_json_string() {
    let r = read_music_url_body(br#""{\"hash\":\"abc\",\"quality\":\"flac\"}""#).ok().unwrap();
    assert_eq!(r, Some(r#"{"hash":"abc","quality":"flac"}"#.to_string()));
}

#[test]
fn music_url_body_not_json() {
    let e = read_music_url_body(b"not json").err().unwrap();
    assert_eq!(e.code, ErrorCode::InvalidRequest);
    assert_eq!(e.status, 400);
    assert_eq!(e.message, "invalid json");
}

#[test]
fn music_url_body_shapes() {
    assert_eq!(request_json(Some(None)).ok().unwrap(), None);
    assert_eq!(request_json(Some(Some("x".to_string()))).ok().unwrap(), Some("x".to_string()));
    let e = request_json(None).err().unwrap();
    assert_eq!(e.message, "invalid json");
}

#[test]
fn served_files_stay_within_the_directory() {
    assert!(path_within(b"/srv/web", b"/srv/web"));
    assert!(path_within(b"/srv/web", b"/srv/web/index.html"));
    assert!(path_within(b"/srv/web", b"/srv/web/assets/app.js"));
    assert!(!path_within(b"/srv/web", b"/srv/website/index.html"));
    assert!(!path_within(b"/srv/web", b"/srv/other"));
    assert!(!path_within(b"/srv/web", b"/srv"));
    assert!(path_within(b"/", b"/etc/hosts"));
}

use kg2lx::domain::cookie_store::CookieStore;
use kg2lx::error::ErrorCode;
use kg2lx::services::kugou_lite_client::{
    absorb_cookies, finish_music_url, finish_qr_check, finish_qr_create, finish_qr_key,
    finish_refresh, finish_vip, is_auth_failure, is_summarizable, login_failed, map_quality,
    normalize_base_url, qr_check_url_at, refresh_outcome, qr_create_url_at, qr_key_url, qr_key_url_at,
    register_dev_url, request_failed, song_url, summarize_upstream_body, timestamp_ms, token_url,
    vip_check_failed, vip_detail_url, MusicUrlRequest, QrCheckData, QrCheckFields, QrCreateData,
    SongUrlFields, StringOrInt, StringOrStrings, VipBusinessEntry, VipDetailData,
};

fn jar(pairs: &[(&str, &str)]) -> CookieStore {
    let mut s = CookieStore::new();
    for (k, v) in pairs {
        s.insert(k, v);
    }
    s
}

#[test]
fn quality_names_of_the_upstream() {
    assert_eq!(map_quality("128k"), "128");
    assert_eq!(map_quality("320k"), "320");
    assert_eq!(map_quality("flac"), "flac");
    assert_eq!(map_quality("flac24bit"), "high");
    assert_eq!(map_quality("999k"), "128");
    assert_eq!(map_quality(""), "128");
}

#[test]
fn auth_failure_by_status() {
    assert!(is_auth_failure(401, ""));
    assert!(is_auth_failure(403, "{}"));
    assert!(!is_auth_failure(200, r#"{"status":1,"data":{"url":"x"}}"#));
    assert!(!is_auth_failure(500, "server error"));
}

#[test]
fn auth_failure_by_body() {
    assert!(is_auth_failure(200, r#"{"code":301}"#));
    assert!(is_auth_failure(200, r#"{"code":302,"msg":"x"}"#));
    assert!(!is_auth_failure(200, r#"{"code": 301}"#));
    assert!(is_auth_failure(200, "Token expired"));
    assert!(is_auth_failure(200, "missing DFID"));
    assert!(is_auth_failure(200, "本次请求需要验证"));
    assert!(is_auth_failure(200, "需要验证"));
}

#[test]
fn summary_of_short_body_is_trimmed_body() {
    assert_eq!(summarize_upstream_body("  oops  \n"), "oops");
    assert_eq!(summarize_upstream_body(""), "");
}

#[test]
fn summary_of_long_body_is_cut_at_200_bytes() {
    let body = "a".repeat(250);
    let s = summarize_upstream_body(&body);
    assert_eq!(s, format!("{}...", "a".repeat(200)));
    let exact = "b".repeat(200);
    assert_eq!(summarize_upstream_body(&exact), exact);
}

#[test]
fn summary_cut_between_multibyte_characters() {
    // 100 two-byte characters then more: byte 200 falls between two characters.
    let body = format!("{}tail", "é".repeat(100));
    assert!(is_summarizable(&body));
    assert_eq!(summarize_upstream_body(&body), format!("{}...", "é".repeat(100)));
}

#[test]
fn summary_cut_inside_a_character_is_not_summarizable() {
    let body = format!("{}é{}", "a".repeat(199), "b".repeat(10));
    assert!(!is_summarizable(&body));
    assert!(is_summarizable(&"a".repeat(300)));
    assert!(is_summarizable("short"));
}

#[test]
fn string_or_int_text() {
    assert_eq!(StringOrInt::String("u1".to_string()).to_string_value(), "u1");
    assert_eq!(StringOrInt::Int(-5).to_string_value(), "-5");
    assert_eq!(StringOrInt::Int(i64::MIN).to_string_value(), i64::MIN.to_string());
    assert_eq!(StringOrInt::Uint(u64::MAX).to_string_value(), u64::MAX.to_string());
    assert_eq!(StringOrInt::Uint(0).to_string_value(), "0");
}

#[test]
fn string_or_strings_first_non_empty() {
    assert_eq!(StringOrStrings::String(String::new()).first_non_empty(), None);
    assert_eq!(StringOrStrings::String("u".to_string()).first_non_empty(), Some("u".to_string()));
    let list = vec![String::new(), "http://a".to_string(), "http://b".to_string()];
    assert_eq!(StringOrStrings::Strings(list).first_non_empty(), Some("http://a".to_string()));
    assert_eq!(StringOrStrings::Strings(vec![]).first_non_empty(), None);
    assert_eq!(StringOrStrings::Strings(vec![String::new()]).first_non_empty(), None);
}

#[test]
fn base_url_loses_trailing_slashes() {
    assert_eq!(normalize_base_url("http://h/api//"), "http://h/api");
    assert_eq!(normalize_base_url("http://h"), "http://h");
    assert_eq!(normalize_base_url("///"), "");
}

#[test]
fn upstream_urls() {
    assert_eq!(qr_key_url_at("http://h", 123), "http://h/login/qr/key?timestamp=123");
    assert_eq!(
        qr_create_url_at("http://h", "k1", 0),
        "http://h/login/qr/create?key=k1&qrimg=1&timestamp=0"
    );
    assert_eq!(qr_check_url_at("http://h", "k1", 99), "http://h/login/qr/check?key=k1&timestamp=99");
    assert_eq!(token_url("http://h"), "http://h/login/token");
    assert_eq!(register_dev_url("http://h"), "http://h/register/dev");
    assert_eq!(vip_detail_url("http://h"), "http://h/user/vip/detail");
}

#[test]
fn qr_key_url_carries_the_current_time() {
    let before = timestamp_ms();
    let url = qr_key_url("http://h");
    let ts: u128 = url.strip_prefix("http://h/login/qr/key?timestamp=").unwrap().parse().unwrap();
    assert!(ts >= before);
    assert!(before > 1_600_000_000_000);
}

#[test]
fn song_url_with_and_without_album_id() {
    let req = MusicUrlRequest { hash: "H1".to_string(), album_audio_id: None, quality: "flac24bit".to_string() };
    assert_eq!(song_url("http://h", &req), "http://h/song/url?hash=H1&quality=high");
    let req2 = MusicUrlRequest {
        hash: "H2".to_string(),
        album_audio_id: Some("77".to_string()),
        quality: "320k".to_string(),
    };
    assert_eq!(song_url("http://h", &req2), "http://h/song/url?hash=H2&quality=320&album_audio_id=77");
}

#[test]
fn reply_cookies_are_absorbed_in_order() {
    let sent = jar(&[("a", "1"), ("keep", "k")]);
    let set = vec!["b=2; Path=/".to_string(), "a=3".to_string()];
    let merged = absorb_cookies(&sent, &set, &Some("c=4; a=5".to_string()));
    assert_eq!(merged.to_cookie_header(), "a=5; b=2; c=4; keep=k");
    let plain = absorb_cookies(&sent, &vec![], &None);
    assert_eq!(plain.to_cookie_header(), "a=1; keep=k");
}

#[test]
fn error_helpers_join_context_and_detail() {
    let e = request_failed("qr key", "timeout");
    assert_eq!(e.code, ErrorCode::UpstreamRequestFailed);
    assert_eq!(e.message, "qr key: timeout");
    assert_eq!(e.status, 502);
    let e = login_failed("token refresh", "reset");
    assert_eq!(e.code, ErrorCode::UpstreamLoginFailed);
    assert_eq!(e.message, "token refresh: reset");
    let e = vip_check_failed("vip detail", "x");
    assert_eq!(e.code, ErrorCode::UpstreamVipCheckFailed);
    assert_eq!(e.message, "vip detail: x");
}

#[test]
fn qr_key_reply() {
    let e = finish_qr_key(jar(&[]), Err("expected value".to_string())).err().unwrap();
    assert_eq!(e.code, ErrorCode::UpstreamRequestFailed);
    assert_eq!(e.message, "parse qr key: expected value");
    let e = finish_qr_key(jar(&[]), Ok(None)).err().unwrap();
    assert_eq!(e.code, ErrorCode::UpstreamLoginFailed);
    assert_eq!(e.message, "no qr key in response");
    let r = finish_qr_key(jar(&[("kg_mid", "m")]), Ok(Some("key1".to_string()))).ok().unwrap();
    assert_eq!(r.qr_key, "key1");
    assert_eq!(r.cookies.to_cookie_header(), "kg_mid=m");
}

#[test]
fn qr_create_reply() {
    let e = finish_qr_create(jar(&[]), Err("eof".to_string())).err().unwrap();
    assert_eq!(e.message, "parse qr create: eof");
    let e = finish_qr_create(jar(&[]), Ok(None)).err().unwrap();
    assert_eq!(e.code, ErrorCode::UpstreamLoginFailed);
    assert_eq!(e.message, "no qr create data");
    let d = QrCreateData { qrurl: None, qrimg: Some("data:image/png;base64,AA".to_string()) };
    let r = finish_qr_create(jar(&[]), Ok(Some(d))).ok().unwrap();
    assert_eq!(r.qr_url, "");
    assert_eq!(r.qr_base64, Some("data:image/png;base64,AA".to_string()));
    let d = QrCreateData { qrurl: Some("https://qr".to_string()), qrimg: None };
    let r = finish_qr_create(jar(&[]), Ok(Some(d))).ok().unwrap();
    assert_eq!(r.qr_url, "https://qr");
    assert_eq!(r.qr_base64, None);
}

#[test]
fn qr_check_reply_takes_data_fields_first() {
    let f = QrCheckFields {
        data: Some(QrCheckData {
            status: Some(4),
            token: Some(StringOrInt::String("tok".to_string())),
            userid: Some(StringOrInt::Int(123)),
        }),
        message: Some("ok".to_string()),
        token: Some(StringOrInt::String("outer".to_string())),
        userid: Some(StringOrInt::String("outer".to_string())),
    };
    let r = finish_qr_check(jar(&[("a", "1")]), Ok(f)).ok().unwrap();
    assert_eq!(r.status_code, 4);
    assert_eq!(r.message, Some("ok".to_string()));
    assert_eq!(r.cookies.to_cookie_header(), "a=1; token=tok; userid=123");
}

#[test]
fn qr_check_reply_falls_back_to_top_level_fields() {
    let f = QrCheckFields {
        data: None,
        message: None,
        token: Some(StringOrInt::Uint(7)),
        userid: Some(StringOrInt::String(String::new())),
    };
    let r = finish_qr_check(jar(&[]), Ok(f)).ok().unwrap();
    assert_eq!(r.status_code, -1);
    assert_eq!(r.cookies.to_cookie_header(), "token=7");
    let f = QrCheckFields {
        data: Some(QrCheckData { status: None, token: None, userid: None }),
        message: None,
        token: None,
        userid: Some(StringOrInt::String("u9".to_string())),
    };
    let r = finish_qr_check(jar(&[]), Ok(f)).ok().unwrap();
    assert_eq!(r.status_code, -1);
    assert_eq!(r.cookies.to_cookie_header(), "userid=u9");
}

#[test]
fn qr_check_reply_not_json() {
    let e = finish_qr_check(jar(&[]), Err("bad".to_string())).err().unwrap();
    assert_eq!(e.code, ErrorCode::UpstreamRequestFailed);
    assert_eq!(e.message, "parse qr check: bad");
}

#[test]
fn token_refresh_reply() {
    let e = finish_refresh(jar(&[]), 500, "  oops ").err().unwrap();
    assert_eq!(e.code, ErrorCode::UpstreamLoginFailed);
    assert_eq!(e.message, "token refresh status 500: oops");
    let e = finish_refresh(jar(&[]), 200, "<html>").err().unwrap();
    assert_eq!(e.code, ErrorCode::UpstreamLoginFailed);
    assert_eq!(e.message, "parse token: expected value at line 1 column 1");
    let r = finish_refresh(jar(&[("token", "t2")]), 204, "{}").ok().unwrap();
    assert_eq!(r.cookies.get("token"), Some("t2"));
}

#[test]
fn token_refresh_outcome_given_parse_result() {
    let e = refresh_outcome(jar(&[]), 200, "<html>", Some("expected value".to_string())).err().unwrap();
    assert_eq!(e.code, ErrorCode::UpstreamLoginFailed);
    assert_eq!(e.message, "parse token: expected value");
    let e = refresh_outcome(jar(&[]), 502, "bad gateway", None).err().unwrap();
    assert_eq!(e.message, "token refresh status 502: bad gateway");
    let r = refresh_outcome(jar(&[("a", "1")]), 200, "{}", None).ok().unwrap();
    assert_eq!(r.cookies.to_cookie_header(), "a=1");
}

fn vip_data(vip_type: Option<i64>, is_vip: Option<i64>, music: Option<i64>, busi: Vec<(Option<&str>, Option<i64>)>) -> VipDetailData {
    VipDetailData {
        vip_type,
        is_vip,
        is_music_vip: music,
        busi_vip: busi
            .into_iter()
            .map(|(t, v)| VipBusinessEntry { busi_type: t.map(|s| s.to_string()), is_vip: v })
            .collect(),
    }
}

#[test]
fn vip_reply_top_level_flags() {
    let r = finish_vip(jar(&[]), 200, "{}", Ok(Some(vip_data(Some(7), Some(1), None, vec![])))).ok().unwrap();
    assert!(r.vip_active);
    assert_eq!(r.vip_type, 7);
    let r = finish_vip(jar(&[]), 200, "{}", Ok(Some(vip_data(None, Some(0), Some(1), vec![])))).ok().unwrap();
    assert!(r.vip_active);
    assert_eq!(r.vip_type, 0);
    let r = finish_vip(jar(&[]), 200, "{}", Ok(Some(vip_data(Some(3), Some(2), Some(0), vec![])))).ok().unwrap();
    assert!(!r.vip_active);
    assert_eq!(r.vip_type, 3);
}

#[test]
fn vip_reply_concept_membership() {
    let d = vip_data(None, None, None, vec![(Some("svip"), Some(1)), (Some("CoNcEpT"), Some(1))]);
    let r = finish_vip(jar(&[]), 200, "{}", Ok(Some(d))).ok().unwrap();
    assert!(r.vip_active);
    let d = vip_data(None, None, None, vec![(Some("concept"), Some(0)), (None, Some(1))]);
    let r = finish_vip(jar(&[]), 200, "{}", Ok(Some(d))).ok().unwrap();
    assert!(!r.vip_active);
}

#[test]
fn vip_reply_type_truncates_to_i32() {
    let r = finish_vip(jar(&[]), 200, "{}", Ok(Some(vip_data(Some(4_294_967_297), None, None, vec![]))))
        .ok()
        .unwrap();
    assert_eq!(r.vip_type, 1);
}

#[test]
fn vip_reply_without_data_or_with_errors() {
    let r = finish_vip(jar(&[("x", "1")]), 200, "{}", Ok(None)).ok().unwrap();
    assert!(!r.vip_active);
    assert_eq!(r.vip_type, 0);
    assert_eq!(r.cookies.get("x"), Some("1"));
    let e = finish_vip(jar(&[]), 403, "denied", Ok(None)).err().unwrap();
    assert_eq!(e.code, ErrorCode::UpstreamVipCheckFailed);
    assert_eq!(e.message, "vip detail status 403: denied");
    let e = finish_vip(jar(&[]), 200, "x", Err("bad".to_string())).err().unwrap();
    assert_eq!(e.code, ErrorCode::UpstreamVipCheckFailed);
    assert_eq!(e.message, "parse vip: bad");
}

#[test]
fn play_url_reply() {
    let f = SongUrlFields {
        data_url: Some(StringOrStrings::Strings(vec![String::new(), "http://u1".to_string()])),
        url: Some(StringOrStrings::String("http://top".to_string())),
    };
    let r = finish_music_url(jar(&[]), 200, "{}", Ok(f)).ok().unwrap();
    assert_eq!(r.url, "http://u1");
    assert_eq!(r.status_code, 200);
    assert!(!r.auth_failed);

    let f = SongUrlFields { data_url: None, url: Some(StringOrStrings::String("http://top".to_string())) };
    let r = finish_music_url(jar(&[]), 200, "{}", Ok(f)).ok().unwrap();
    assert_eq!(r.url, "http://top");

    // `data.url` present but empty: the top-level URL is not consulted.
    let f = SongUrlFields {
        data_url: Some(StringOrStrings::String(String::new())),
        url: Some(StringOrStrings::String("http://top".to_string())),
    };
    let r = finish_music_url(jar(&[]), 200, r#"{"error":"token invalid"}"#, Ok(f)).ok().unwrap();
    assert_eq!(r.url, "");
    assert!(r.auth_failed);

    let e = finish_music_url(jar(&[]), 200, "x", Err("bad".to_string())).err().unwrap();
    assert_eq!(e.code, ErrorCode::UpstreamRequestFailed);
    assert_eq!(e.message, "parse song url: bad");
}

#[test]
fn text_around_a_body_keeps_an_auth_failure() {
    let body = r#"{"code":301}"#;
    assert!(is_auth_failure(200, body));
    assert!(is_auth_failure(200, &format!("prefix {} suffix", body)));
    assert!(is_auth_failure(200, &format!("xx{}", "TOKEN")));
}

//! The logic of the Kugou Lite upstream API: the URLs it is called at, how its
//! replies are read, and the results handed back. The HTTP exchange itself is
//! done by the caller, which hands over the status, the `Set-Cookie` header
//! values, the body and the fields parsed from it.
use vstd::prelude::*;

use crate::domain::cookie_store::{
    merge_pairs_map, merge_set_cookies_map, sorted_names, CookieStore,
};
use crate::error::AppError;
use crate::text::{views, 
    byte_len, char_count_at_byte, occurs_at, chars_of, concat2, concat3, contains, contains_seq, decimal,
    decimal_seq, eq_ignore_ascii_case, lower_seq, signed_decimal, signed_decimal_seq, split_seq,
    string_of_range, to_ascii_lowercase, trim, trim_end_char_seq, trim_end_matches_char, trim_seq,
    utf8_len, boundary_at,
};

verus! {

// ---------------------------------------------------------------------------
// Loosely typed fields of the upstream JSON
// ---------------------------------------------------------------------------

/// A field that the upstream sends as a string or as a number.
#[derive(Debug)]
pub enum StringOrInt {
    String(String),
    Int(i64),
    Uint(u64),
}

/// The text of such a field.
pub open spec fn string_or_int_text(v: StringOrInt) -> Seq<char> {
    match v {
        StringOrInt::String(s) => s@,
        StringOrInt::Int(n) => signed_decimal_seq(n as int),
        StringOrInt::Uint(n) => decimal_seq(n as nat),
    }
}

impl StringOrInt {
    /// The field as text: a string as it is, a number in decimal.
    pub fn to_string_value(&self) -> (r: String)
        ensures
            r@ == string_or_int_text(*self),
    {
        match self {
            StringOrInt::String(value) => value.clone(),
            StringOrInt::Int(value) => signed_decimal(*value),
            StringOrInt::Uint(value) => decimal(*value as u128),
        }
    }
}

/// A field that the upstream sends as one string or as a list of strings.
#[derive(Debug)]
pub enum StringOrStrings {
    String(String),
    Strings(Vec<String>),
}

/// The first non-empty string of a list.
pub open spec fn first_non_empty_of(v: Seq<Seq<char>>) -> Option<Seq<char>>
    decreases v.len(),
{
    if v.len() == 0 {
        None
    } else if v[0].len() > 0 {
        Some(v[0])
    } else {
        first_non_empty_of(v.drop_first())
    }
}

/// The first non-empty string of such a field.
pub open spec fn first_non_empty_seq(v: StringOrStrings) -> Option<Seq<char>> {
    match v {
        StringOrStrings::String(s) => if s@.len() > 0 {
            Some(s@)
        } else {
            None
        },
        StringOrStrings::Strings(vs) => first_non_empty_of(views(vs@)),
    }
}

impl StringOrStrings {
    /// The first non-empty string, if any.
    pub fn first_non_empty(self) -> (r: Option<String>)
        ensures
            match r {
                Some(s) => first_non_empty_seq(self) == Some(s@),
                None => first_non_empty_seq(self) is None,
            },
    {
        match self {
            StringOrStrings::String(value) => {
                if !value.as_str().is_empty() {
                    Some(value)
                } else {
                    None
                }
            },
            StringOrStrings::Strings(values) => {
                let ghost all = views(values@);
                let mut i: usize = 0;
                proof {
                    assert(all.skip(0) =~= all);
                }
                while i < values.len()
                    invariant
                        all == views(values@),
                        self == StringOrStrings::Strings(values),
                        0 <= i <= values.len(),
                        first_non_empty_of(all) == first_non_empty_of(all.skip(i as int)),
                    decreases values.len() - i,
                {
                    proof {
                        assert(all.skip(i as int).drop_first() =~= all.skip(i + 1));
                        assert(all.skip(i as int)[0] == values@[i as int]@);
                    }
                    if !values[i].as_str().is_empty() {
                        proof {
                            assert(first_non_empty_of(all.skip(i as int)) == Some(values@[i as int]@));
                        }
                        return Some(values[i].clone());
                    }
                    i += 1;
                }
                None
            },
        }
    }
}

// ---------------------------------------------------------------------------
// Results handed back to the services
// ---------------------------------------------------------------------------

pub struct QrKeyResult {
    pub qr_key: String,
    pub cookies: CookieStore,
}

pub struct QrCreateResult {
    pub qr_url: String,
    pub qr_base64: Option<String>,
    pub cookies: CookieStore,
}

pub struct QrPollResult {
    pub cookies: CookieStore,
    pub status_code: i64,
    pub message: Option<String>,
}

pub struct RefreshResult {
    pub cookies: CookieStore,
}

pub struct VipStatusResult {
    pub vip_type: i32,
    pub vip_active: bool,
    pub cookies: CookieStore,
}

pub struct MusicUrlRequest {
    pub hash: String,
    pub album_audio_id: Option<String>,
    pub quality: String,
}

pub struct MusicUrlResult {
    pub url: String,
    pub cookies: CookieStore,
    pub status_code: u16,
    pub auth_failed: bool,
}

// ---------------------------------------------------------------------------
// Small rules
// ---------------------------------------------------------------------------

/// The upstream's name for an LX quality.
pub open spec fn quality_param(q: Seq<char>) -> Seq<char> {
    if q == "128k"@ {
        "128"@
    } else if q == "320k"@ {
        "320"@
    } else if q == "flac"@ {
        "flac"@
    } else if q == "flac24bit"@ {
        "high"@
    } else {
        "128"@
    }
}

/// The upstream's name for an LX quality, `"128"` for any other.
pub fn map_quality(quality: &str) -> (r: &'static str)
    ensures
        r@ == quality_param(quality@),
{
    if crate::text::str_eq(quality, "128k") {
        "128"
    } else if crate::text::str_eq(quality, "320k") {
        "320"
    } else if crate::text::str_eq(quality, "flac") {
        "flac"
    } else if crate::text::str_eq(quality, "flac24bit") {
        "high"
    } else {
        "128"
    }
}

/// Whether an upstream reply says that the session needs a new login.
pub open spec fn auth_failure(status_code: u16, body: Seq<char>) -> bool {
    ||| status_code == 401
    ||| status_code == 403
    ||| contains_seq(body, "\"code\":301"@)
    ||| contains_seq(body, "\"code\":302"@)
    ||| contains_seq(lower_seq(body), "token"@)
    ||| contains_seq(lower_seq(body), "dfid"@)
    ||| contains_seq(body, "\u{672c}\u{6b21}\u{8bf7}\u{6c42}\u{9700}\u{8981}\u{9a8c}\u{8bc1}"@)
    ||| contains_seq(body, "\u{9700}\u{8981}\u{9a8c}\u{8bc1}"@)
}

/// Whether a reply asks for a new login: status 401 or 403, an upstream code 301 or 302, a mention
/// of `token` or `dfid` in any case, or a request for verification.
pub fn is_auth_failure(status_code: u16, body: &str) -> (r: bool)
    ensures
        r == auth_failure(status_code, body@),
{
    if status_code == 401 || status_code == 403 {
        return true;
    }
    let body_lower = to_ascii_lowercase(body);
    contains(body, "\"code\":301") || contains(body, "\"code\":302") || contains(
        body_lower.as_str(),
        "token",
    ) || contains(body_lower.as_str(), "dfid") || contains(
        body,
        "\u{672c}\u{6b21}\u{8bf7}\u{6c42}\u{9700}\u{8981}\u{9a8c}\u{8bc1}",
    ) || contains(body, "\u{9700}\u{8981}\u{9a8c}\u{8bc1}")
}

/// A pattern found in `s` is found in `s` with text around it.
proof fn lemma_contains_in_context(s: Seq<char>, p: Seq<char>, before: Seq<char>, after: Seq<char>)
    requires
        contains_seq(s, p),
    ensures
        contains_seq(before + s + after, p),
{
    let i = choose|i: int| #[trigger] occurs_at(s, p, i);
    let t = before + s + after;
    let j = i + before.len();
    assert(t.subrange(j, j + p.len()) =~= s.subrange(i, i + p.len()));
    assert(occurs_at(t, p, j));
}

/// Text added around a body never turns an auth failure into a success: a
/// reply that asks for a new login still does with any text before and after.
pub proof fn law_auth_failure_kept_in_context(status: u16, body: Seq<char>, before: Seq<char>, after: Seq<char>)
    requires
        auth_failure(status, body),
    ensures
        auth_failure(status, before + body + after),
{
    let t = before + body + after;
    assert(lower_seq(t) =~= lower_seq(before) + lower_seq(body) + lower_seq(after));
    if contains_seq(body, "\"code\":301"@) {
        lemma_contains_in_context(body, "\"code\":301"@, before, after);
    }
    if contains_seq(body, "\"code\":302"@) {
        lemma_contains_in_context(body, "\"code\":302"@, before, after);
    }
    if contains_seq(lower_seq(body), "token"@) {
        lemma_contains_in_context(lower_seq(body), "token"@, lower_seq(before), lower_seq(after));
    }
    if contains_seq(lower_seq(body), "dfid"@) {
        lemma_contains_in_context(lower_seq(body), "dfid"@, lower_seq(before), lower_seq(after));
    }
    if contains_seq(body, "\u{672c}\u{6b21}\u{8bf7}\u{6c42}\u{9700}\u{8981}\u{9a8c}\u{8bc1}"@) {
        lemma_contains_in_context(body, "\u{672c}\u{6b21}\u{8bf7}\u{6c42}\u{9700}\u{8981}\u{9a8c}\u{8bc1}"@, before, after);
    }
    if contains_seq(body, "\u{9700}\u{8981}\u{9a8c}\u{8bc1}"@) {
        lemma_contains_in_context(body, "\u{9700}\u{8981}\u{9a8c}\u{8bc1}"@, before, after);
    }
}

/// The longest body summary, in bytes.
pub const SUMMARY_MAX_LEN: usize = 200;

/// The body can be summarised: its trimmed text is short, or byte 200 of it falls
/// between two characters.
pub open spec fn summary_defined(body: Seq<char>) -> bool {
    let t = trim_seq(body);
    utf8_len(t) <= 200 || exists|k: int| #[trigger] boundary_at(t, 200, k)
}

/// A summary of a body: the trimmed text, cut after 200 bytes with `"..."`.
pub open spec fn summary_seq(body: Seq<char>) -> Seq<char> {
    let t = trim_seq(body);
    if utf8_len(t) <= 200 {
        t
    } else {
        t.take(choose|k: int| #[trigger] boundary_at(t, 200, k)) + "..."@
    }
}

/// A summary of a body for an error message: the trimmed body, cut after 200 bytes with `"..."`.
pub fn summarize_upstream_body(body: &str) -> (r: String)
    requires
        summary_defined(body@),
    ensures
        r@ == summary_seq(body@),
{
    let trimmed = trim(body);
    let v = chars_of(trimmed.as_str());
    let n = byte_len(&v);
    if n <= SUMMARY_MAX_LEN {
        trimmed
    } else {
        match char_count_at_byte(&v, SUMMARY_MAX_LEN) {
            Some(k) => {
                let head = string_of_range(&v, 0, k);
                proof {
                    let t = trim_seq(body@);
                    let c = choose|j: int| #[trigger] boundary_at(t, 200, j);
                    if c < k {
                        crate::text::lemma_utf8_len_take_increasing(t, c, k as int);
                    } else if k < c {
                        crate::text::lemma_utf8_len_take_increasing(t, k as int, c);
                    }
                    assert(head@ =~= t.take(k as int));
                }
                concat2(head.as_str(), "...")
            },
            None => {
                // Unreachable under the precondition.
                trimmed
            },
        }
    }
}

/// Whether a body can be summarised (`summary_defined`): cutting it at byte 200
/// would otherwise fall inside a character, where slicing panics.
pub fn is_summarizable(body: &str) -> (r: bool)
    ensures
        r == summary_defined(body@),
{
    let trimmed = trim(body);
    let v = chars_of(trimmed.as_str());
    let n = byte_len(&v);
    if n <= SUMMARY_MAX_LEN {
        true
    } else {
        match char_count_at_byte(&v, SUMMARY_MAX_LEN) {
            Some(_) => true,
            None => false,
        }
    }
}

// ---------------------------------------------------------------------------
// URLs
// ---------------------------------------------------------------------------

/// The base URL without trailing slashes (`trim_end_matches('/')`).
pub fn normalize_base_url(url: &str) -> (r: String)
    ensures
        r@ == trim_end_char_seq(url@, '/'),
{
    trim_end_matches_char(url, '/')
}

/// Milliseconds since the Unix epoch, for cache-busting query parameters.
pub fn timestamp_ms() -> u128 {
    crate::clock::unix_millis()
}

/// `{base}/login/qr/key?timestamp={ts}`.
pub fn qr_key_url_at(base: &str, ts: u128) -> (r: String)
    ensures
        r@ == base@ + "/login/qr/key?timestamp="@ + decimal_seq(ts as nat),
{
    let t = decimal(ts);
    concat3(base, "/login/qr/key?timestamp=", t.as_str())
}

/// The QR key URL at the current time.
pub fn qr_key_url(base: &str) -> (r: String)
    ensures
        exists|ts: u128| r@ == base@ + "/login/qr/key?timestamp="@ + decimal_seq(ts as nat),
{
    qr_key_url_at(base, timestamp_ms())
}

/// `{base}/login/qr/create?key={key}&qrimg=1&timestamp={ts}`.
pub fn qr_create_url_at(base: &str, key: &str, ts: u128) -> (r: String)
    ensures
        r@ == base@ + "/login/qr/create?key="@ + key@ + "&qrimg=1&timestamp="@ + decimal_seq(ts as nat),
{
    let head = concat3(base, "/login/qr/create?key=", key);
    let t = decimal(ts);
    concat3(head.as_str(), "&qrimg=1&timestamp=", t.as_str())
}

/// The QR image URL at the current time.
pub fn qr_create_url(base: &str, key: &str) -> (r: String)
    ensures
        exists|ts: u128|
            r@ == base@ + "/login/qr/create?key="@ + key@ + "&qrimg=1&timestamp="@ + decimal_seq(
                ts as nat,
            ),
{
    qr_create_url_at(base, key, timestamp_ms())
}

/// `{base}/login/qr/check?key={key}&timestamp={ts}`.
pub fn qr_check_url_at(base: &str, key: &str, ts: u128) -> (r: String)
    ensures
        r@ == base@ + "/login/qr/check?key="@ + key@ + "&timestamp="@ + decimal_seq(ts as nat),
{
    let head = concat3(base, "/login/qr/check?key=", key);
    let t = decimal(ts);
    concat3(head.as_str(), "&timestamp=", t.as_str())
}

/// The QR status URL at the current time.
pub fn qr_check_url(base: &str, key: &str) -> (r: String)
    ensures
        exists|ts: u128|
            r@ == base@ + "/login/qr/check?key="@ + key@ + "&timestamp="@ + decimal_seq(ts as nat),
{
    qr_check_url_at(base, key, timestamp_ms())
}

/// `{base}/login/token`.
pub fn token_url(base: &str) -> (r: String)
    ensures
        r@ == base@ + "/login/token"@,
{
    concat2(base, "/login/token")
}

/// `{base}/register/dev`.
pub fn register_dev_url(base: &str) -> (r: String)
    ensures
        r@ == base@ + "/register/dev"@,
{
    concat2(base, "/register/dev")
}

/// `{base}/user/vip/detail`.
pub fn vip_detail_url(base: &str) -> (r: String)
    ensures
        r@ == base@ + "/user/vip/detail"@,
{
    concat2(base, "/user/vip/detail")
}

/// The play URL request: `{base}/song/url?hash={hash}&quality={q}`, then
/// `&album_audio_id={id}` when there is one.
pub open spec fn song_url_seq(base: Seq<char>, req: MusicUrlRequest) -> Seq<char> {
    let head = base + "/song/url?hash="@ + req.hash@ + "&quality="@ + quality_param(req.quality@);
    match req.album_audio_id {
        Some(id) => head + "&album_audio_id="@ + id@,
        None => head,
    }
}

pub fn song_url(base: &str, req: &MusicUrlRequest) -> (r: String)
    ensures
        r@ == song_url_seq(base@, *req),
{
    let q = map_quality(req.quality.as_str());
    let a = concat3(base, "/song/url?hash=", req.hash.as_str());
    let url = concat3(a.as_str(), "&quality=", q);
    match &req.album_audio_id {
        Some(id) => concat3(url.as_str(), "&album_audio_id=", id.as_str()),
        None => url,
    }
}

// ---------------------------------------------------------------------------
// Reading replies
// ---------------------------------------------------------------------------

/// The cookies after a reply: those sent, then each `Set-Cookie` header, then the
/// pairs of the body's `cookie` field.
pub open spec fn absorbed_map(
    sent: Map<Seq<char>, Seq<char>>,
    set_cookie: Seq<Seq<char>>,
    body_cookie: Option<Seq<char>>,
) -> Map<Seq<char>, Seq<char>> {
    let m = merge_set_cookies_map(sent, set_cookie);
    match body_cookie {
        Some(c) => merge_pairs_map(m, split_seq(c, ';')),
        None => m,
    }
}


/// The view of an optional string.
pub open spec fn opt_seq(o: Option<String>) -> Option<Seq<char>> {
    match o {
        Some(s) => Some(s@),
        None => None,
    }
}

/// The cookies sent, merged with what a reply sets: its `Set-Cookie` header
/// values in order, then the `;`-separated pairs of its body's `cookie` member
/// (`body_cookie`, as read from the body), and kept in name order.
pub fn absorb_cookies(sent: &CookieStore, set_cookie: &Vec<String>, body_cookie: &Option<String>) -> (r: CookieStore)
    ensures
        r@ == absorbed_map(sent@, views(set_cookie@), opt_seq(*body_cookie)),
        sorted_names(r.entries()),
{
    let mut merged = sent.clone();
    merged.merge_set_cookies(set_cookie);
    match body_cookie {
        Some(c) => merged.merge_cookies_from_body_if_present(Some(c.as_str())),
        None => merged.merge_cookies_from_body_if_present(None),
    }
    merged
}

/// `AppError::upstream_request_failed` with `"{context}: {detail}"`.
pub fn request_failed(context: &str, detail: &str) -> (r: AppError)
    ensures
        r.code == crate::error::ErrorCode::UpstreamRequestFailed,
        r.message@ == context@ + ": "@ + detail@,
        r.status == 502,
        r.is_admin,
{
    let m = concat3(context, ": ", detail);
    AppError::upstream_request_failed(m.as_str())
}

/// `AppError::upstream_login_failed` with `"{context}: {detail}"`.
pub fn login_failed(context: &str, detail: &str) -> (r: AppError)
    ensures
        r.code == crate::error::ErrorCode::UpstreamLoginFailed,
        r.message@ == context@ + ": "@ + detail@,
        r.status == 502,
        r.is_admin,
{
    let m = concat3(context, ": ", detail);
    AppError::upstream_login_failed(m.as_str())
}

/// `AppError::upstream_vip_check_failed` with `"{context}: {detail}"`.
pub fn vip_check_failed(context: &str, detail: &str) -> (r: AppError)
    ensures
        r.code == crate::error::ErrorCode::UpstreamVipCheckFailed,
        r.message@ == context@ + ": "@ + detail@,
        r.status == 502,
        r.is_admin,
{
    let m = concat3(context, ": ", detail);
    AppError::upstream_vip_check_failed(m.as_str())
}

/// The reply to a QR key request. `parsed` is the `data.key` (or `data.qrcode`)
/// field of the body, or the parser's message when the body is not such JSON.
pub fn finish_qr_key(merged: CookieStore, parsed: Result<Option<String>, String>) -> (r: Result<
    QrKeyResult,
    AppError,
>)
    ensures
        match parsed {
            Err(msg) => r matches Err(e) && e.code == crate::error::ErrorCode::UpstreamRequestFailed
                && e.message@ == "parse qr key"@ + ": "@ + msg@,
            Ok(None) => r matches Err(e) && e.code == crate::error::ErrorCode::UpstreamLoginFailed
                && e.message@ == "no qr key in response"@,
            Ok(Some(k)) => r matches Ok(q) && q.qr_key == k && q.cookies@ == merged@,
        },
{
    match parsed {
        Err(msg) => Err(request_failed("parse qr key", msg.as_str())),
        Ok(None) => Err(AppError::upstream_login_failed("no qr key in response")),
        Ok(Some(qr_key)) => Ok(QrKeyResult { qr_key, cookies: merged }),
    }
}

/// The QR image fields of a reply: the URL (`data.qrurl` or `data.url`) and the
/// image (`data.qrimg` or `data.base64`).
pub struct QrCreateData {
    pub qrurl: Option<String>,
    pub qrimg: Option<String>,
}

/// The reply to a QR image request. `parsed` is the `data` object of the body,
/// or the parser's message.
pub fn finish_qr_create(merged: CookieStore, parsed: Result<Option<QrCreateData>, String>) -> (r:
    Result<QrCreateResult, AppError>)
    ensures
        match parsed {
            Err(msg) => r matches Err(e) && e.code == crate::error::ErrorCode::UpstreamRequestFailed
                && e.message@ == "parse qr create"@ + ": "@ + msg@,
            Ok(None) => r matches Err(e) && e.code == crate::error::ErrorCode::UpstreamLoginFailed
                && e.message@ == "no qr create data"@,
            Ok(Some(d)) => r matches Ok(q) && q.qr_url@ == (match d.qrurl {
                Some(u) => u@,
                None => Seq::<char>::empty(),
            }) && q.qr_base64 == d.qrimg && q.cookies@ == merged@,
        },
{
    match parsed {
        Err(msg) => Err(request_failed("parse qr create", msg.as_str())),
        Ok(None) => Err(AppError::upstream_login_failed("no qr create data")),
        Ok(Some(data)) => {
            let qr_url = match data.qrurl {
                Some(u) => u,
                None => String::new(),
            };
            Ok(QrCreateResult { qr_url, qr_base64: data.qrimg, cookies: merged })
        },
    }
}

/// The `data` object of a QR status reply.
pub struct QrCheckData {
    pub status: Option<i64>,
    pub token: Option<StringOrInt>,
    pub userid: Option<StringOrInt>,
}

/// The fields of a QR status reply.
pub struct QrCheckFields {
    pub data: Option<QrCheckData>,
    pub message: Option<String>,
    pub token: Option<StringOrInt>,
    pub userid: Option<StringOrInt>,
}

/// A field taken from `data`, else from the top level, as text, kept only when
/// it is not empty.
pub open spec fn pick_field(inner: Option<StringOrInt>, outer: Option<StringOrInt>) -> Option<
    Seq<char>,
> {
    let chosen = match inner {
        Some(v) => Some(string_or_int_text(v)),
        None => match outer {
            Some(v) => Some(string_or_int_text(v)),
            None => None,
        },
    };
    match chosen {
        Some(t) => if t.len() > 0 {
            Some(t)
        } else {
            None
        },
        None => None,
    }
}

fn pick_field_exec(inner: &Option<StringOrInt>, outer: &Option<StringOrInt>) -> (r: Option<String>)
    ensures
        opt_seq(r) == pick_field(*inner, *outer),
{
    let chosen = match inner {
        Some(v) => Some(v.to_string_value()),
        None => match outer {
            Some(v) => Some(v.to_string_value()),
            None => None,
        },
    };
    match chosen {
        Some(t) => if !t.as_str().is_empty() {
            Some(t)
        } else {
            None
        },
        None => None,
    }
}

/// The cookies after a QR status reply: `userid`, then `token`, set when found.
pub open spec fn qr_check_map(merged: Map<Seq<char>, Seq<char>>, f: QrCheckFields) -> Map<
    Seq<char>,
    Seq<char>,
> {
    let (du, dt) = match f.data {
        Some(d) => (d.userid, d.token),
        None => (None, None),
    };
    let m1 = match pick_field(du, f.userid) {
        Some(u) => merged.insert("userid"@, u),
        None => merged,
    };
    match pick_field(dt, f.token) {
        Some(t) => m1.insert("token"@, t),
        None => m1,
    }
}

/// The reply to a QR status request: the status code (`data.status`, else -1),
/// the message, and the cookies with the user id and token of the reply.
pub fn finish_qr_check(merged: CookieStore, parsed: Result<QrCheckFields, String>) -> (r: Result<
    QrPollResult,
    AppError,
>)
    ensures
        match parsed {
            Err(msg) => r matches Err(e) && e.code == crate::error::ErrorCode::UpstreamRequestFailed
                && e.message@ == "parse qr check"@ + ": "@ + msg@,
            Ok(f) => r matches Ok(p) && p.status_code == (match f.data {
                Some(d) => match d.status {
                    Some(s) => s,
                    None => -1i64,
                },
                None => -1i64,
            }) && p.message == f.message && p.cookies@ == qr_check_map(merged@, f),
        },
{
    match parsed {
        Err(msg) => Err(request_failed("parse qr check", msg.as_str())),
        Ok(f) => {
            let mut cookies = merged;
            let none_a: Option<StringOrInt> = None;
            let none_b: Option<StringOrInt> = None;
            let (status, userid, token) = match &f.data {
                Some(d) => (
                    match d.status {
                        Some(s) => s,
                        None => -1,
                    },
                    pick_field_exec(&d.userid, &f.userid),
                    pick_field_exec(&d.token, &f.token),
                ),
                None => (-1, pick_field_exec(&none_a, &f.userid), pick_field_exec(&none_b, &f.token)),
            };
            if let Some(u) = &userid {
                cookies.insert("userid", u.as_str());
            }
            if let Some(t) = &token {
                cookies.insert("token", t.as_str());
            }
            Ok(QrPollResult { cookies, status_code: status, message: f.message })
        },
    }
}

/// The error for a reply whose status is not 2xx: `"{context} status {status}: {summary}"`.
pub open spec fn status_error_message(context: Seq<char>, status: u16, body: Seq<char>) -> Seq<char> {
    context + " status "@ + decimal_seq(status as nat) + ": "@ + summary_seq(body)
}

fn status_message(context: &str, status: u16, body: &str) -> (r: String)
    requires
        summary_defined(body@),
    ensures
        r@ == status_error_message(context@, status, body@),
{
    let s = decimal(status as u128);
    let a = concat3(context, " status ", s.as_str());
    let sum = summarize_upstream_body(body);
    concat3(a.as_str(), ": ", sum.as_str())
}

/// What `serde_json` reports on reading a body as JSON: `None` when the body
/// is JSON, the parser's message when it is not.
pub uninterp spec fn json_error_text(body: Seq<char>) -> Option<Seq<char>>;

/// Parses the body with `serde_json::from_str` into a `serde_json::Value` and
/// hands back the error's text, if any. Claimed: the result is
/// `json_error_text` of the body; which bodies are JSON, and the wording of the
/// message, are left to that name.
#[verifier::external_body]
fn json_error(body: &str) -> (r: Option<String>)
    ensures
        opt_seq(r) == json_error_text(body@),
{
    match serde_json::from_str::<serde_json::Value>(body) {
        Ok(_) => None,
        Err(e) => Some(e.to_string()),
    }
}

/// The reply to a token refresh, given what reading its body as JSON gave
/// (`parse_error`, the parser's message when the body is not JSON). A body
/// that must be summarised must be summarisable (`summary_defined`): cutting it
/// elsewhere panics.
pub fn refresh_outcome(merged: CookieStore, status: u16, body: &str, parse_error: Option<String>) -> (r:
    Result<RefreshResult, AppError>)
    requires
        !(200 <= status < 300) ==> summary_defined(body@),
    ensures
        !(200 <= status < 300) ==> (r matches Err(e) && e.code
            == crate::error::ErrorCode::UpstreamLoginFailed && e.message@
            == status_error_message("token refresh"@, status, body@)),
        200 <= status < 300 ==> match parse_error {
            Some(msg) => r matches Err(e) && e.code == crate::error::ErrorCode::UpstreamLoginFailed
                && e.message@ == "parse token"@ + ": "@ + msg@,
            None => r matches Ok(x) && x.cookies@ == merged@,
        },
{
    if !(200 <= status && status < 300) {
        let m = status_message("token refresh", status, body);
        return Err(AppError::upstream_login_failed(m.as_str()));
    }
    match parse_error {
        Some(msg) => Err(login_failed("parse token", msg.as_str())),
        None => Ok(RefreshResult { cookies: merged }),
    }
}

/// The reply to a token refresh: a status outside 2xx is refused with the
/// summarised body; a 2xx body that is not JSON is refused with the parser's
/// message; otherwise the merged cookies are the result.
pub fn finish_refresh(merged: CookieStore, status: u16, body: &str) -> (r: Result<RefreshResult, AppError>)
    requires
        !(200 <= status < 300) ==> summary_defined(body@),
    ensures
        !(200 <= status < 300) ==> (r matches Err(e) && e.code
            == crate::error::ErrorCode::UpstreamLoginFailed && e.message@
            == status_error_message("token refresh"@, status, body@)),
        200 <= status < 300 ==> match json_error_text(body@) {
            Some(m) => r matches Err(e) && e.code == crate::error::ErrorCode::UpstreamLoginFailed
                && e.message@ == "parse token"@ + ": "@ + m,
            None => r matches Ok(x) && x.cookies@ == merged@,
        },
{
    if !(200 <= status && status < 300) {
        return refresh_outcome(merged, status, body, None);
    }
    let parse_error = json_error(body);
    refresh_outcome(merged, status, body, parse_error)
}

/// One membership of the VIP reply.
pub struct VipBusinessEntry {
    pub busi_type: Option<String>,
    pub is_vip: Option<i64>,
}

/// The `data` object of the VIP reply.
pub struct VipDetailData {
    pub vip_type: Option<i64>,
    pub is_vip: Option<i64>,
    pub is_music_vip: Option<i64>,
    pub busi_vip: Vec<VipBusinessEntry>,
}

pub open spec fn flag_set(v: Option<i64>) -> bool {
    match v {
        Some(x) => x == 1,
        None => false,
    }
}

/// A membership entry counts when it is active and its type is `concept` in any case.
pub open spec fn concept_entry(e: VipBusinessEntry) -> bool {
    flag_set(e.is_vip) && match e.busi_type {
        Some(t) => lower_seq(t@) == lower_seq("concept"@),
        None => false,
    }
}

/// VIP is active when the top-level VIP or music VIP flag is 1, or a concept
/// membership is active.
pub open spec fn vip_active_of(d: Option<VipDetailData>) -> bool {
    match d {
        Some(d) => flag_set(d.is_vip) || flag_set(d.is_music_vip) || exists|i: int|
            0 <= i < d.busi_vip@.len() && concept_entry(#[trigger] d.busi_vip@[i]),
        None => false,
    }
}

/// The VIP type: `data.vip_type`, else 0, as `i32` (`as` truncates).
pub open spec fn vip_type_of(d: Option<VipDetailData>) -> i32 {
    match d {
        Some(d) => match d.vip_type {
            Some(t) => t as i32,
            None => 0,
        },
        None => 0,
    }
}

fn flag_set_exec(v: Option<i64>) -> (r: bool)
    ensures
        r == flag_set(v),
{
    match v {
        Some(x) => x == 1,
        None => false,
    }
}

/// The reply to a VIP detail request. `parsed` is the `data` object of the body
/// (`None` when absent), or the parser's message. A body that must be summarised
/// must be summarisable.
pub fn finish_vip(merged: CookieStore, status: u16, body: &str, parsed: Result<Option<VipDetailData>, String>) -> (r:
    Result<VipStatusResult, AppError>)
    requires
        !(200 <= status < 300) ==> summary_defined(body@),
    ensures
        !(200 <= status < 300) ==> (r matches Err(e) && e.code
            == crate::error::ErrorCode::UpstreamVipCheckFailed && e.message@
            == status_error_message("vip detail"@, status, body@)),
        200 <= status < 300 ==> match parsed {
            Err(msg) => r matches Err(e) && e.code == crate::error::ErrorCode::UpstreamVipCheckFailed
                && e.message@ == "parse vip"@ + ": "@ + msg@,
            Ok(d) => r matches Ok(v) && v.cookies@ == merged@ && v.vip_active == vip_active_of(d)
                && v.vip_type == vip_type_of(d),
        },
{
    if !(200 <= status && status < 300) {
        let m = status_message("vip detail", status, body);
        return Err(AppError::upstream_vip_check_failed(m.as_str()));
    }
    match parsed {
        Err(msg) => Err(vip_check_failed("parse vip", msg.as_str())),
        Ok(None) => Ok(VipStatusResult { vip_type: 0, vip_active: false, cookies: merged }),
        Ok(Some(d)) => {
            let top_level_vip = flag_set_exec(d.is_vip) || flag_set_exec(d.is_music_vip);
            let mut concept_vip = false;
            let mut i: usize = 0;
            while i < d.busi_vip.len()
                invariant
                    0 <= i <= d.busi_vip.len(),
                    concept_vip == exists|j: int| 0 <= j < i && concept_entry(#[trigger] d.busi_vip@[j]),
                decreases d.busi_vip.len() - i,
            {
                let e = &d.busi_vip[i];
                let hit = flag_set_exec(e.is_vip) && match &e.busi_type {
                    Some(t) => eq_ignore_ascii_case(t.as_str(), "concept"),
                    None => false,
                };
                proof {
                    assert(hit == concept_entry(d.busi_vip@[i as int]));
                }
                concept_vip = concept_vip || hit;
                i += 1;
            }
            let vip_type: i32 = match d.vip_type {
                Some(t) => t as i32,
                None => 0,
            };
            Ok(VipStatusResult { vip_type, vip_active: top_level_vip || concept_vip, cookies: merged })
        },
    }
}

/// `concept` in lower case is itself.
proof fn lemma_concept_lower()
    ensures
        lower_seq("concept"@) == "concept"@,
{
    reveal_strlit("concept");
    assert(lower_seq("concept"@) =~= "concept"@);
}

/// An active `concept` membership (its type `concept` in any ASCII case, its
/// flag 1) makes the VIP active, wherever it stands among the memberships.
pub proof fn law_concept_membership_counts(d: VipDetailData, i: int)
    requires
        0 <= i < d.busi_vip@.len(),
        d.busi_vip@[i].is_vip == Some(1i64),
        d.busi_vip@[i].busi_type matches Some(t) && lower_seq(t@) == "concept"@,
    ensures
        vip_active_of(Some(d)),
{
    lemma_concept_lower();
    assert(concept_entry(d.busi_vip@[i]));
}

/// A top-level VIP flag or music VIP flag of 1 makes the VIP active, whatever
/// the memberships say.
pub proof fn law_top_level_flag_counts(d: VipDetailData)
    requires
        d.is_vip == Some(1i64) || d.is_music_vip == Some(1i64),
    ensures
        vip_active_of(Some(d)),
{
}

/// More memberships never take VIP away: when every membership of `d1` is also
/// one of `d2` (in any order, among any others) and the top-level flags agree,
/// VIP active for `d1` is VIP active for `d2`.
pub proof fn law_more_memberships_keep_vip(d1: VipDetailData, d2: VipDetailData)
    requires
        d1.is_vip == d2.is_vip,
        d1.is_music_vip == d2.is_music_vip,
        forall|i: int| 0 <= i < d1.busi_vip@.len() ==> exists|j: int| 0 <= j < d2.busi_vip@.len()
            && #[trigger] d1.busi_vip@[i] == d2.busi_vip@[j],
        vip_active_of(Some(d1)),
    ensures
        vip_active_of(Some(d2)),
{
    if !flag_set(d1.is_vip) && !flag_set(d1.is_music_vip) {
        let i = choose|i: int| 0 <= i < d1.busi_vip@.len() && concept_entry(#[trigger] d1.busi_vip@[i]);
        let j = choose|j: int| 0 <= j < d2.busi_vip@.len() && d1.busi_vip@[i] == d2.busi_vip@[j];
        assert(concept_entry(d2.busi_vip@[j]));
    }
}

/// Without a top-level VIP or music VIP flag of 1 and without an active
/// `concept` membership, VIP is not active.
pub proof fn law_no_membership_no_vip(d: VipDetailData)
    requires
        d.is_vip != Some(1i64),
        d.is_music_vip != Some(1i64),
        forall|i: int| 0 <= i < d.busi_vip@.len() && #[trigger] d.busi_vip@[i].is_vip == Some(1i64)
            ==> !(d.busi_vip@[i].busi_type matches Some(t) && lower_seq(t@) == "concept"@),
    ensures
        !vip_active_of(Some(d)),
{
    lemma_concept_lower();
    assert forall|i: int| 0 <= i < d.busi_vip@.len() implies !concept_entry(#[trigger] d.busi_vip@[i]) by {
        if d.busi_vip@[i].is_vip == Some(1i64) {
        }
    }
}

/// The URL fields of a play URL reply: `data.url` and the top-level `url`.
pub struct SongUrlFields {
    pub data_url: Option<StringOrStrings>,
    pub url: Option<StringOrStrings>,
}

/// The play URL of a reply: `data.url` if present, else the top-level `url`, as
/// its first non-empty string.
pub open spec fn play_url_of(f: SongUrlFields) -> Option<Seq<char>> {
    let chosen = match f.data_url {
        Some(u) => Some(u),
        None => f.url,
    };
    match chosen {
        Some(u) => first_non_empty_seq(u),
        None => None,
    }
}

/// The reply to a play URL request: the URL (empty when there is none), the
/// status, whether the reply says the login must be renewed, and the cookies.
/// `parsed` holds the URL fields of the body, or the parser's message.
pub fn finish_music_url(merged: CookieStore, status: u16, body: &str, parsed: Result<SongUrlFields, String>) -> (r:
    Result<MusicUrlResult, AppError>)
    ensures
        match parsed {
            Err(msg) => r matches Err(e) && e.code == crate::error::ErrorCode::UpstreamRequestFailed
                && e.message@ == "parse song url"@ + ": "@ + msg@,
            Ok(f) => r matches Ok(m) && m.url@ == (match play_url_of(f) {
                Some(u) => u,
                None => Seq::<char>::empty(),
            }) && m.status_code == status && m.auth_failed == auth_failure(status, body@)
                && m.cookies@ == merged@,
        },
{
    match parsed {
        Err(msg) => Err(request_failed("parse song url", msg.as_str())),
        Ok(f) => {
            let auth_failed = is_auth_failure(status, body);
            let ghost g = f;
            let chosen = match f.data_url {
                Some(u) => Some(u),
                None => f.url,
            };
            let play_url = match chosen {
                Some(u) => u.first_non_empty(),
                None => None,
            };
            let url = match play_url {
                Some(u) => u,
                None => String::new(),
            };
            Ok(MusicUrlResult { url, cookies: merged, status_code: status, auth_failed })
        },
    }
}

} // verus!

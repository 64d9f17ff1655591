//! The rules of the runtime API: the caller's token and the request's fields.
use vstd::prelude::*;

use crate::error::{AppError, ErrorCode};
use crate::routes::admin::{bearer_of, bearer_token};
use crate::services::kugou_lite_client::opt_seq;
use crate::services::runtime::RuntimeMusicUrlRequest;
use crate::text::str_eq;

verus! {

/// The runtime token is the non-empty bearer token of the
/// `Authorization` header.
pub fn verify_runtime(auth: Option<&str>) -> (r: Result<String, AppError>)
    ensures
        ({
            let t = bearer_token(
                match auth {
                    Some(a) => Some(a@),
                    None => None,
                },
            );
            match r {
                Ok(s) => t.len() > 0 && s@ == t,
                Err(e) => t.len() == 0 && e.code == ErrorCode::AdminUnauthorized && e.status == 401,
            }
        }),
{
    let token = bearer_of(auth);
    if token.as_str().is_empty() {
        return Err(AppError::admin_unauthorized());
    }
    Ok(token)
}

/// The script sends its runtime token as `Bearer {token}`; the runtime route
/// reads that same token back.
pub proof fn law_runtime_bearer_round_trip(token: Seq<char>)
    ensures
        bearer_token(Some("Bearer "@ + token)) == token,
{
    reveal_strlit("Bearer ");
    let h = "Bearer "@ + token;
    assert(h.take(7) =~= "Bearer "@);
    assert(h.skip(7) =~= token);
}

/// The qualities that LX Music may ask for.
pub open spec fn supported_quality(q: Seq<char>) -> bool {
    q == "128k"@ || q == "320k"@ || q == "flac"@ || q == "flac24bit"@
}

/// The fields of a play URL request, checked: a hash, then a supported quality.
pub fn validate_music_url_request(req: &RuntimeMusicUrlRequest) -> (r: Result<(), AppError>)
    ensures
        r is Ok <==> req.hash@.len() > 0 && supported_quality(req.quality@),
        r matches Err(e) ==> e.code == ErrorCode::InvalidRequest && e.status == 400 && (if req.hash@.len() == 0 {
            e.message@ == "hash is required"@
        } else {
            e.message@ == "invalid quality"@
        }),
{
    if req.hash.as_str().is_empty() {
        return Err(AppError::invalid_request("hash is required"));
    }
    let q = req.quality.as_str();
    if str_eq(q, "128k") || str_eq(q, "320k") || str_eq(q, "flac") || str_eq(q, "flac24bit") {
        Ok(())
    } else {
        Err(AppError::invalid_request("invalid quality"))
    }
}

/// What `serde_json` reads from a request body: `None` when the bytes are not
/// JSON, `Some(Some(s))` when they are a JSON string with text `s`, and
/// `Some(None)` for any other JSON value.
pub uninterp spec fn json_body_shape(body: Seq<u8>) -> Option<Option<Seq<char>>>;

/// The view of a body's shape.
pub open spec fn shape_view(r: Option<Option<String>>) -> Option<Option<Seq<char>>> {
    match r {
        None => None,
        Some(x) => Some(opt_seq(x)),
    }
}

/// Parses the body with `serde_json::from_slice` into a `serde_json::Value`
/// and tells apart a parse error, a JSON string (whose text it hands back) and
/// any other value. Claimed: the result is `json_body_shape` of the bytes; what
/// `serde_json` accepts as JSON is left to that name.
#[verifier::external_body]
fn read_json_body_shape(body: &[u8]) -> (r: Option<Option<String>>)
    ensures
        shape_view(r) == json_body_shape(body@),
{
    match serde_json::from_slice::<serde_json::Value>(body) {
        Err(_) => None,
        Ok(serde_json::Value::String(s)) => Some(Some(s)),
        Ok(_) => Some(None),
    }
}

/// The first step of reading a play URL request body, given its shape: bytes
/// that are not JSON are refused as `invalid json`; a JSON string (which
/// lx-music-mobile sends, wrapping the JSON body) hands back its text, to be
/// read as the body; any other JSON value is the body itself (`None`).
pub fn request_json(shape: Option<Option<String>>) -> (r: Result<Option<String>, AppError>)
    ensures
        match shape {
            None => r matches Err(e) && e.code == ErrorCode::InvalidRequest && e.status == 400
                && e.message@ == "invalid json"@,
            Some(x) => r == Ok::<Option<String>, AppError>(x),
        },
{
    match shape {
        None => Err(AppError::invalid_request("invalid json")),
        Some(x) => Ok(x),
    }
}

/// Reads a play URL request body: `Err(invalid json)` when it is not JSON,
/// `Ok(Some(text))` when it is a JSON string whose text holds the body, and
/// `Ok(None)` when the body is any other JSON value.
pub fn read_music_url_body(body: &[u8]) -> (r: Result<Option<String>, AppError>)
    ensures
        match json_body_shape(body@) {
            None => r matches Err(e) && e.code == ErrorCode::InvalidRequest && e.status == 400
                && e.message@ == "invalid json"@,
            Some(x) => r matches Ok(v) && opt_seq(v) == x,
        },
{
    let shape = read_json_body_shape(body);
    request_json(shape)
}

} // verus!

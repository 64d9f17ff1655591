//! The rule of the script route.
use vstd::prelude::*;

use crate::error::{AppError, ErrorCode};
use crate::text::{ends_with_seq, strip_suffix};

verus! {

/// The script token of a script path `{token}.js`.
pub fn script_token_from_path(script_path: &str) -> (r: Result<String, AppError>)
    ensures
        r is Ok <==> ends_with_seq(script_path@, ".js"@),
        r matches Ok(t) ==> t@ == script_path@.take(script_path@.len() - ".js"@.len()),
        r matches Err(e) ==> e.code == ErrorCode::InvalidRequest && e.message@
            == "script path must end with .js"@,
{
    match strip_suffix(script_path, ".js") {
        Some(t) => Ok(t),
        None => Err(AppError::invalid_request("script path must end with .js")),
    }
}

} // verus!

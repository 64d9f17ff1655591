//! The rules of the admin API: who may call it, and how log listings are asked for.
use vstd::prelude::*;

use crate::domain::runtime_log::RuntimeLogView;
use crate::error::{AppError, ErrorCode};
use crate::text::{parse_unsigned, parse_unsigned_seq, starts_with_seq, str_eq, strip_prefix};

verus! {

/// The token of an `Authorization` header: what follows `"Bearer "`, or nothing
/// when the header is missing or has another form.
pub open spec fn bearer_token(auth: Option<Seq<char>>) -> Seq<char> {
    match auth {
        Some(a) => if starts_with_seq(a, "Bearer "@) {
            a.skip("Bearer "@.len() as int)
        } else {
            Seq::empty()
        },
        None => Seq::empty(),
    }
}

/// The token that an `Authorization` header value carries.
pub fn bearer_of(auth: Option<&str>) -> (r: String)
    ensures
        r@ == bearer_token(match auth {
            Some(a) => Some(a@),
            None => None,
        }),
{
    match auth {
        Some(a) => match strip_prefix(a, "Bearer ") {
            Some(t) => t,
            None => String::new(),
        },
        None => String::new(),
    }
}

/// The caller is admitted exactly when the bearer token of its
/// `Authorization` header (empty when missing) equals the admin token.
pub fn verify_admin(auth: Option<&str>, token: &str) -> (r: Result<(), AppError>)
    ensures
        r is Ok <==> bearer_token(
            match auth {
                Some(a) => Some(a@),
                None => None,
            },
        ) == token@,
        r matches Err(e) ==> e.code == ErrorCode::AdminUnauthorized && e.status == 401,
{
    let bearer = bearer_of(auth);
    if str_eq(bearer.as_str(), token) {
        Ok(())
    } else {
        Err(AppError::admin_unauthorized())
    }
}

/// The page size of a log listing: 20 when not given, else a number from 1 to 100.
pub open spec fn limit_param(limit: Option<Seq<char>>) -> Option<nat> {
    match limit {
        None => Some(20),
        Some(s) => match parse_unsigned_seq(s, usize::MAX as nat) {
            Some(n) => if 1 <= n <= 100 {
                Some(n)
            } else {
                None
            },
            None => None,
        },
    }
}

/// The view of a log listing: all entries when not given or `all`, errors for `errors`.
pub open spec fn view_param(view: Option<Seq<char>>) -> Option<RuntimeLogView> {
    match view {
        None => Some(RuntimeLogView::All),
        Some(v) => if v == "all"@ {
            Some(RuntimeLogView::All)
        } else if v == "errors"@ {
            Some(RuntimeLogView::Errors)
        } else {
            None
        },
    }
}

/// What reading the log query parameters gives: the limit (20 when absent,
/// else a number from 1 to 100) and the view (`all` when absent, else `all` or
/// `errors`), or `invalid_request` naming the first parameter that is wrong.
pub open spec fn list_logs_outcome(
    limit: Option<Seq<char>>,
    view: Option<Seq<char>>,
    r: Result<(usize, RuntimeLogView), AppError>,
) -> bool {
    let l = limit_param(limit);
    let v = view_param(view);
    match r {
        Ok((n, w)) => l == Some(n as nat) && v == Some(w),
        Err(e) => e.code == ErrorCode::InvalidRequest && e.status == 400 && (if l is None {
            e.message@ == "invalid limit"@
        } else {
            v is None && e.message@ == "invalid view"@
        }),
    }
}

/// The query parameters of a log listing, checked: the limit first, then the view.
pub fn parse_list_logs_params(limit: Option<&str>, view: Option<&str>) -> (r: Result<
    (usize, RuntimeLogView),
    AppError,
>)
    ensures
        list_logs_outcome(
            match limit {
                Some(s) => Some(s@),
                None => None,
            },
            match view {
                Some(s) => Some(s@),
                None => None,
            },
            r,
        ),
{
    let n: usize = match limit {
        None => 20,
        Some(s) => match parse_unsigned(s, usize::MAX as u128) {
            Some(n) => {
                if 1 <= n && n <= 100 {
                    n as usize
                } else {
                    return Err(AppError::invalid_request("invalid limit"));
                }
            },
            None => {
                return Err(AppError::invalid_request("invalid limit"));
            },
        },
    };
    let w = match view {
        None => RuntimeLogView::All,
        Some(v) => {
            if str_eq(v, "all") {
                RuntimeLogView::All
            } else if str_eq(v, "errors") {
                RuntimeLogView::Errors
            } else {
                return Err(AppError::invalid_request("invalid view"));
            }
        },
    };
    Ok((n, w))
}

/// The query parameters of a log listing, as the request gives them.
pub struct ListLogsParams {
    pub limit: Option<String>,
    pub view: Option<String>,
}

impl ListLogsParams {
    /// The limit and view that these parameters ask for, or `invalid_request`.
    pub fn parse(&self) -> (r: Result<(usize, RuntimeLogView), AppError>)
        ensures
            list_logs_outcome(
                match self.limit {
                    Some(s) => Some(s@),
                    None => None,
                },
                match self.view {
                    Some(s) => Some(s@),
                    None => None,
                },
                r,
            ),
    {
        let limit = match &self.limit {
            Some(s) => Some(s.as_str()),
            None => None,
        };
        let view = match &self.view {
            Some(s) => Some(s.as_str()),
            None => None,
        };
        parse_list_logs_params(limit, view)
    }
}

} // verus!

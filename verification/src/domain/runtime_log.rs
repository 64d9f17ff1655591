//! The log of runtime (play URL) requests.
use vstd::prelude::*;

use crate::domain::provider::ProviderKind;
use crate::text::clone_opt;

verus! {

/// The step of a runtime request at which a log entry was written.
#[derive(Debug, Clone, Copy, PartialEq, Eq, Structural)]
pub enum RuntimeLogStage {
    Precheck,
    EnsureDfid,
    RefreshLogin,
    FetchMusicUrl,
}

/// One runtime request, as logged.
#[derive(Debug)]
pub struct RuntimeLog {
    pub log_id: String,
    pub source_id: String,
    pub account_id: String,
    pub provider: ProviderKind,
    pub action: String,
    pub track_title: Option<String>,
    pub artist_name: Option<String>,
    pub album_name: Option<String>,
    pub request_hash: String,
    pub album_audio_id: Option<String>,
    pub requested_quality: String,
    pub upstream_endpoint: String,
    pub stage: RuntimeLogStage,
    pub refresh_attempted: bool,
    pub retry_count: u8,
    pub ok: bool,
    pub status_code: Option<u16>,
    pub error_code: Option<String>,
    pub latency_ms: u128,
    pub error: Option<String>,
    pub created_at: i64,
}

impl Clone for RuntimeLog {
    fn clone(&self) -> (r: Self)
        ensures
            r == *self,
    {
        RuntimeLog {
            log_id: self.log_id.clone(),
            source_id: self.source_id.clone(),
            account_id: self.account_id.clone(),
            provider: self.provider,
            action: self.action.clone(),
            track_title: clone_opt(&self.track_title),
            artist_name: clone_opt(&self.artist_name),
            album_name: clone_opt(&self.album_name),
            request_hash: self.request_hash.clone(),
            album_audio_id: clone_opt(&self.album_audio_id),
            requested_quality: self.requested_quality.clone(),
            upstream_endpoint: self.upstream_endpoint.clone(),
            stage: self.stage,
            refresh_attempted: self.refresh_attempted,
            retry_count: self.retry_count,
            ok: self.ok,
            status_code: self.status_code,
            error_code: clone_opt(&self.error_code),
            latency_ms: self.latency_ms,
            error: clone_opt(&self.error),
            created_at: self.created_at,
        }
    }
}

/// The stage of entries written before the stage was recorded.
pub fn default_runtime_log_stage() -> (r: RuntimeLogStage)
    ensures
        r == RuntimeLogStage::FetchMusicUrl,
{
    RuntimeLogStage::FetchMusicUrl
}

/// What a log keeps of an error: a fixed `"upstream error"` in place of any text.
pub open spec fn sanitized_error(error: Option<Seq<char>>) -> Option<Seq<char>> {
    match error {
        Some(_) => Some("upstream error"@),
        None => None,
    }
}

/// The view of an optional string.
pub open spec fn opt_view(o: Option<String>) -> Option<Seq<char>> {
    match o {
        Some(s) => Some(s@),
        None => None,
    }
}

/// Replaces any error text by `"upstream error"`.
pub fn sanitize_runtime_log_error(error: Option<&str>) -> (r: Option<String>)
    ensures
        opt_view(r) == sanitized_error(
            match error {
                Some(e) => Some(e@),
                None => None,
            },
        ),
{
    match error {
        Some(_) => Some(String::from_str("upstream error")),
        None => None,
    }
}

impl RuntimeLog {
    /// The entry with its error text replaced by `"upstream error"`.
    pub fn sanitized(self) -> (r: Self)
        ensures
            opt_view(r.error) == sanitized_error(opt_view(self.error)),
            r == (RuntimeLog { error: r.error, ..self }),
    {
        let mut s = self;
        s.error = match &s.error {
            Some(_) => Some(String::from_str("upstream error")),
            None => None,
        };
        s
    }
}

/// Which entries a log listing shows.
#[derive(Debug, Clone, Copy, PartialEq, Eq, Structural)]
pub enum RuntimeLogView {
    All,
    Errors,
}

/// A request for the latest log entries of a source.
#[derive(Debug)]
pub struct ListRuntimeLogsQuery {
    pub source_id: String,
    pub limit: usize,
    pub view: RuntimeLogView,
}

} // verus!

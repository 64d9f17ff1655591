//! The service's settings.
use vstd::prelude::*;

use crate::text::parse_unsigned;

verus! {

/// The service's settings, read from the environment.
#[derive(Debug)]
pub struct Config {
    pub listen_addr: String,
    pub public_base_url: String,
    pub admin_token: String,
    pub kugou_api_base_url: String,
    pub data_dir: String,
    pub upstream_timeout_ms: u64,
    pub source_name_prefix: String,
    pub refresh_interval_secs: u64,
    /// The directory of the admin UI's static files, when they are served.
    pub web_dist_dir: Option<String>,
}

/// A number setting: its value when it reads as a `u64`, else the default.
pub open spec fn number_setting(v: Option<Seq<char>>, default: u64) -> u64 {
    match v {
        Some(s) => match crate::text::parse_unsigned_seq(s, u64::MAX as nat) {
            Some(n) => n as u64,
            None => default,
        },
        None => default,
    }
}

/// A text setting: its value when set, else the default.
pub open spec fn text_setting(v: Option<Seq<char>>, default: Seq<char>) -> Seq<char> {
    match v {
        Some(s) => s,
        None => default,
    }
}

fn number_or(v: &Option<String>, default: u64) -> (r: u64)
    ensures
        r == number_setting(crate::domain::runtime_log::opt_view(*v), default),
{
    match v {
        Some(s) => match parse_unsigned(s.as_str(), u64::MAX as u128) {
            Some(n) => n as u64,
            None => default,
        },
        None => default,
    }
}

fn text_or(v: Option<String>, default: &str) -> (r: String)
    ensures
        r@ == text_setting(crate::domain::runtime_log::opt_view(v), default@),
{
    match v {
        Some(s) => s,
        None => String::from_str(default),
    }
}

impl Config {
    /// The settings from the values of the environment variables `LISTEN_ADDR`,
    /// `PUBLIC_BASE_URL`, `ADMIN_TOKEN`, `KUGOU_API_BASE_URL`, `DATA_DIR`,
    /// `UPSTREAM_TIMEOUT_MS`, `SOURCE_NAME_PREFIX`, `REFRESH_INTERVAL_SECS` and
    /// `WEB_DIST_DIR`, with the defaults of the optional ones.
    pub fn from_env_values(
        listen_addr: Option<String>,
        public_base_url: String,
        admin_token: String,
        kugou_api_base_url: String,
        data_dir: Option<String>,
        upstream_timeout_ms: Option<String>,
        source_name_prefix: Option<String>,
        refresh_interval_secs: Option<String>,
        web_dist_dir: Option<String>,
    ) -> (r: Config)
        ensures
            r.listen_addr@ == text_setting(
                crate::domain::runtime_log::opt_view(listen_addr),
                "127.0.0.1:8787"@,
            ),
            r.public_base_url == public_base_url,
            r.admin_token == admin_token,
            r.kugou_api_base_url == kugou_api_base_url,
            r.data_dir@ == text_setting(crate::domain::runtime_log::opt_view(data_dir), "./data"@),
            r.upstream_timeout_ms == number_setting(
                crate::domain::runtime_log::opt_view(upstream_timeout_ms),
                10000,
            ),
            r.source_name_prefix@ == text_setting(
                crate::domain::runtime_log::opt_view(source_name_prefix),
                "Kugou Concept VIP"@,
            ),
            r.refresh_interval_secs == number_setting(
                crate::domain::runtime_log::opt_view(refresh_interval_secs),
                21600,
            ),
            r.web_dist_dir == web_dist_dir,
    {
        let upstream_timeout_ms = number_or(&upstream_timeout_ms, 10000);
        let refresh_interval_secs = number_or(&refresh_interval_secs, 6 * 3600);
        Config {
            listen_addr: text_or(listen_addr, "127.0.0.1:8787"),
            public_base_url,
            admin_token,
            kugou_api_base_url,
            data_dir: text_or(data_dir, "./data"),
            upstream_timeout_ms,
            source_name_prefix: text_or(source_name_prefix, "Kugou Concept VIP"),
            refresh_interval_secs,
            web_dist_dir,
        }
    }
}

} // verus!

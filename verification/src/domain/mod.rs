pub mod account;
pub mod cookie_store;
pub mod login_session;
pub mod provider;
pub mod runtime_log;
pub mod source;

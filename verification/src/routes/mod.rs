pub mod admin;
pub mod runtime;
pub mod script;
pub mod static_fs;

pub mod kugou_lite_client;
pub mod runtime;
pub mod script;
pub mod source;
pub mod login;

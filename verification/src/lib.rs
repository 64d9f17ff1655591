//! Library of the Kugou Lite to LX Music source bridge: cookie handling,
//! upstream request and response logic, the login and playback flows, and the
//! rules of the HTTP surface, each stated and proved.
pub mod clock;
pub mod domain;
pub mod error;
pub mod ids;
pub mod text;
pub mod services;
pub mod config;
pub mod routes;
pub mod repos;

//! A small static file server's decision logic: which port to listen on,
//! what an access-log line looks like, and what the start-up banners say.
//!
//! The functions here take and return plain values. Binding sockets and
//! speaking HTTP are the caller's business: the port search is handed a probe,
//! and the log is handed what it should record of a request.

pub mod access_log;
pub mod banner;
pub mod config;
pub mod port;
pub mod status;
pub mod text;

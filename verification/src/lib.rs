//! A small HTTP reverse proxy: round-robin backend selection, per-connection
//! read deadlines, the settings a TLS acceptor is built from, configuration
//! validation and the request/response exchange logic, each stated as a
//! contract and proved. Whether OpenSSL accepts those settings is its own.

pub mod address;
pub mod cluster;
pub mod config;
pub mod inbound;
pub mod io;
mod openssl_calls;
pub mod proxy;
pub mod text;
pub mod timeout;
pub mod tls;

//! Startup validation and serving pipeline for a jail metrics exporter.
//!
//! The library validates operator-supplied configuration (listen address,
//! telemetry path, optional output file path), gates startup on process
//! privilege and on the host's resource-accounting state, and provides the
//! pure decision logic of the HTTP server: the builder, the rendered index
//! page and the per-request replies.

pub mod cli;
pub mod errors;
pub mod httpd;
pub mod preflight;
pub mod sockaddr;

//! Connection-establishment planning for a TLS HTTP client.
//!
//! Given an authority (hostname, port), this library decides how a working,
//! secured transport is dialed: which candidate addresses are tried (resolved
//! addresses, a static fallback table, or both), in what order or race they
//! are tried, which Server Name Indication value goes on the wire, and how
//! per-stage failures (resolution, TCP connect, TLS handshake, each with its
//! own timeout) are classified and aggregated. Every decision is a verified
//! function from plain values to plain values; the sockets, timers and TLS
//! sessions themselves are driven by an unverified shell around the library.

pub mod authority;
pub mod candidate;
pub mod config;
pub mod connector;
pub mod dial;
pub mod error;
pub mod resolve;
pub mod schedule;

pub use authority::Authority;
pub use candidate::Candidate;
pub use candidate::FallbackTable;
pub use config::ConnectorConfig;
pub use connector::Connector;
pub use error::ConnectError;
pub use error::StageError;

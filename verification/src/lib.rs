//! Maintenance records of a Sigma Racer motorcycle and the relay that ships them.
//!
//! The bike keeps its maintenance log, its error history and its provisioned
//! metadata in a SQLite database ([`db`]). A shop tool pulls that database with a
//! single `DatabaseQuery` line ([`protocol`], [`client`]), which a relay tells
//! apart from telemetry subscribers and forwards to the bike ([`relay`]), which in
//! turn answers it ([`query`]). To the subscribers the relay hands on the lines of the
//! bike's telemetry ([`source`]). The domain types that both ends share are in
//! [`maintenance`].
//!
//! The crate holds the decisions; sockets, TLS, threads, files and the
//! environment are its callers' business.

pub mod anomaly;
pub mod client;
pub mod clock;
pub mod control_line;
pub mod db;
pub mod io;
pub mod json;
pub mod maintenance;
pub mod port;
pub mod protocol;
pub mod query;
pub mod relay;
pub mod source;
pub mod sql;
pub mod text;

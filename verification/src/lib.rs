//! Polls GitHub repository discussions and picks out the ones worth a chat
//! notification: discussions that nobody has commented on yet, created within
//! a lookback window ending today.
//!
//! The crate covers the computing side of one polling run: building the
//! GraphQL query and the HTTP request for it, resolving configuration values
//! with their defaults, filtering the parsed response, and formatting one
//! message per selected discussion. Sending the request and delivering the
//! messages are left to the embedding program.

pub mod config;
pub mod filter;
pub mod notify;
pub mod query;
pub mod response;
pub mod time;

pub use config::Config;
pub use query::GraphQlRequest;
pub use query::HttpRequestParts;
pub use response::Data;
pub use response::Notification;
pub use response::Response;

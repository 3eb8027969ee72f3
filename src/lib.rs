//! Device-side transport to a cloud message hub: a token cache that mints
//! and refreshes short-lived authorization tokens, and an HTTPS transport
//! that turns telemetry into authenticated requests.
pub mod error;
pub mod https;
pub mod message;
pub mod token;

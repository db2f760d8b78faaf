//! Runs a blocking-style TLS session engine inside a poll-based, non-blocking
//! runtime: drives the handshake through repeated attempts, translates between
//! readiness and the engine's "would block" sentinel, and shuts the encrypted
//! stream down with a single close-notify record.
pub mod readiness;
pub mod handshake;
pub mod stream;

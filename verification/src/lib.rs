//! Verified core of the `commut` terminal server.
//!
//! The crate holds the server's wire format ([`contract`]), its
//! cryptography boundary ([`crypto`]), its one-shot stores ([`state`]), the
//! decisions of the handshake endpoints ([`routes`]) and of an established
//! session ([`session`]), the shell launch contract ([`pty`]) and the
//! runtime configuration rules ([`runtime`]). The HTTP/WebSocket plumbing,
//! the PTY process and the environment belong to the executable around it.

pub mod app;
pub mod build_info;
pub mod contract;
pub mod crypto;
pub mod error;
pub mod pty;
pub mod routes;
pub mod runtime;
pub mod session;
pub mod state;

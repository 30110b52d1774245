//! Configuration of the server as a whole.

use vstd::prelude::*;

verus! {

/// What the application needs to start: the authorized public key PEM.
#[derive(Debug, Clone)]
pub struct AppConfig {
    pub authorized_public_key_pem: String,
}

/// Where the server listens.
#[derive(Debug, Clone, PartialEq, Eq)]
pub struct RuntimeConfig {
    pub host: String,
    pub port: u16,
}

} // verus!

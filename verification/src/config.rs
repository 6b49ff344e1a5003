//! The settings of the status page server.

use vstd::prelude::*;

verus! {

/// The page server's settings.
pub struct Config {
    /// The SQLite file of the history.
    pub db: String,
    /// Seconds between samples, also the ping timeout.
    pub interval: u64,
    /// The monitored server.
    pub mc: ServerConfig,
    /// Where the page is served.
    pub web: WebConfig,
}

/// The monitored server.
pub struct ServerConfig {
    /// Whether it is a Java server (else Bedrock).
    pub java: bool,
    /// Its address and optional port.
    pub addr: String,
}

/// Where the page is served.
pub struct WebConfig {
    pub addr: String,
    pub port: u16,
}

} // verus!

//! The page server's collector: how it pings its one server.

use vstd::prelude::*;
use crate::config::ServerConfig;
use crate::sampler::Edition;

verus! {

/// How the page server's collector pings.
pub struct PingRequest {
    pub address: String,
    pub edition: Edition,
    /// Seconds before a ping is given up.
    pub timeout_secs: u64,
    /// Pings at most this many servers at once.
    pub max_parallel: usize,
}

/// The page server's collector pings the configured server as the
/// configured edition, giving up after one interval, with up to sixteen pings
/// at once.
pub fn ping_request(conf: &ServerConfig, interval: u64) -> (req: PingRequest)
    ensures
        req.address@ == conf.addr@,
        req.edition == (if conf.java { Edition::Java } else { Edition::Bedrock }),
        req.timeout_secs == interval,
        req.max_parallel == 16,
{
    PingRequest {
        address: conf.addr.clone(),
        edition: if conf.java { Edition::Java } else { Edition::Bedrock },
        timeout_secs: interval,
        max_parallel: 16,
    }
}

/// The statement that stores one sample of the page server's collector, with
/// the timestamp, latency and player count bound to `?1` to `?3`.
pub open spec fn sample_insert_sql() -> Seq<char> {
    "INSERT INTO mcserver (timestamp, latency, players) VALUES (?1, ?2, ?3)"@
}

/// The statement that stores one sample.
pub fn insert_sql() -> (sql: &'static str)
    ensures
        sql@ == sample_insert_sql(),
{
    "INSERT INTO mcserver (timestamp, latency, players) VALUES (?1, ?2, ?3)"
}

/// One turn of the page server's collector at second `now`: a ping that was
/// answered with a latency and a player count is stored as the row
/// `(now, latency, players)`, a failed ping stores nothing; either way the
/// collector then waits one interval (in seconds).
pub fn collect_step(ping: Option<(u64, i64)>, now: i64, interval: u64) -> (step: (Option<(i64, u64, i64)>, u64))
    ensures
        step.0 == (match ping {
            Some((latency, players)) => Some((now, latency, players)),
            None => None,
        }),
        step.1 == interval,
{
    let row = match ping {
        Some((latency, players)) => Some((now, latency, players)),
        None => None,
    };
    (row, interval)
}

} // verus!

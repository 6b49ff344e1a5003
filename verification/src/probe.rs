//! The single-server prober: one Java server sampled every five seconds into
//! the `mcserver` table.

use vstd::prelude::*;
use crate::sampler::PingOutcome;
use crate::text::{push_signed_decimal, signed_decimal};

verus! {

/// Seconds between samples.
pub const PROBE_INTERVAL: u32 = 5;

/// The latency and player count the prober stores for a Java ping: both
/// -1 when the server did not answer, and a player count of -1 when a
/// Bedrock server answered.
pub open spec fn probe_values(o: PingOutcome) -> (int, int) {
    match o {
        PingOutcome::Unreachable => (-1, -1),
        PingOutcome::Java { latency, online, .. } => (latency as int, (online as i32) as int),
        PingOutcome::Bedrock { latency, .. } => (latency as int, -1),
    }
}

/// The latency and player count to store for what a ping brought back.
pub fn get_data(outcome: &PingOutcome) -> (v: (i32, i32))
    ensures
        (v.0 as int, v.1 as int) == probe_values(*outcome),
{
    match outcome {
        PingOutcome::Unreachable => (-1, -1),
        PingOutcome::Java { latency, online, .. } => (*latency, *online as i32),
        PingOutcome::Bedrock { latency, .. } => (*latency, -1),
    }
}

/// The statement that stores one sample, its values written in decimal.
pub open spec fn probe_insert_sql(ts: int, latency: int, players: int) -> Seq<char> {
    "INSERT INTO mcserver (timestamp, latency, players)
    VALUES ("@ + signed_decimal(ts) + ","@ + signed_decimal(latency) + ","@ + signed_decimal(players) + ")"@
}

/// Builds the statement that stores one sample.
pub fn record(ts: i64, latency: i32, players: i32) -> (sql: String)
    ensures
        sql@ == probe_insert_sql(ts as int, latency as int, players as int),
{
    let mut sql = String::from_str("INSERT INTO mcserver (timestamp, latency, players)
    VALUES (");
    push_signed_decimal(&mut sql, ts);
    sql.append(",");
    push_signed_decimal(&mut sql, latency as i64);
    sql.append(",");
    push_signed_decimal(&mut sql, players as i64);
    sql.append(")");
    assert(sql@ =~= probe_insert_sql(ts as int, latency as int, players as int));
    sql
}

} // verus!

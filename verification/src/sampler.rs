//! The collector: when it samples, how a ping becomes a sample, and which
//! rows one round of samples writes.

use vstd::prelude::*;
use crate::deps::{json_of_strings, json_string_array};
use crate::model::{clone_strings, ResultData, SingleServerConfig, StoredRow};

verus! {

/// The Minecraft edition to ping a server as.
#[derive(Clone, Copy, Debug, PartialEq, Eq)]
pub enum Edition {
    Java,
    Bedrock,
}

/// What a ping brought back, in plain values: nothing, or the status of a
/// Java or a Bedrock server with its latency in whole milliseconds.
#[derive(Clone, Debug)]
pub enum PingOutcome {
    Unreachable,
    Java { latency: i32, online: i64, sample: Option<Vec<String>> },
    Bedrock { latency: i32, online_players: u32 },
}

/// One server's sample: latency, player count and the names of the players
/// the server listed.
#[derive(Clone, Debug)]
pub struct ServerSample {
    pub latency: i32,
    pub players: i32,
    pub names: Vec<String>,
}

/// A name the collector accepts as a table name: lower-case ASCII letters only.
pub open spec fn is_lowercase_name(s: Seq<char>) -> bool {
    forall|i: int| 0 <= i < s.len() ==> 'a' <= #[trigger] s[i] && s[i] <= 'z'
}

/// Whether a name is made of lower-case ASCII letters only.
pub fn is_lowercase_ascii(s: &str) -> (b: bool)
    ensures
        b == is_lowercase_name(s@),
{
    let n = s.unicode_len();
    let mut i: usize = 0;
    while i < n
        invariant
            i <= n,
            n == s@.len(),
            forall|j: int| 0 <= j < i ==> 'a' <= #[trigger] s@[j] && s@[j] <= 'z',
        decreases n - i,
    {
        let c = s.get_char(i);
        if !('a' <= c && c <= 'z') {
            return false;
        }
        i = i + 1;
    }
    true
}

/// The first configured name that is not a lower-case ASCII name, if any;
/// the collector refuses to start with one.
pub fn first_invalid_backend_name(servers: &Vec<SingleServerConfig>) -> (bad: Option<String>)
    ensures
        bad is None <==> forall|i: int| 0 <= i < servers@.len() ==> is_lowercase_name(#[trigger] servers@[i].name@),
        bad matches Some(n) ==> exists|i: int| 0 <= i < servers@.len() && #[trigger] servers@[i].name@ == n@
            && !is_lowercase_name(n@)
            && forall|j: int| 0 <= j < i ==> is_lowercase_name(#[trigger] servers@[j].name@),
{
    let mut i: usize = 0;
    while i < servers.len()
        invariant
            i <= servers.len(),
            forall|j: int| 0 <= j < i ==> is_lowercase_name(#[trigger] servers@[j].name@),
        decreases servers.len() - i,
    {
        if !is_lowercase_ascii(servers[i].name.as_str()) {
            let n = servers[i].name.clone();
            assert(servers@[i as int].name@ == n@);
            return Some(n);
        }
        i = i + 1;
    }
    None
}

/// Whether the collector samples at second `now`: at every multiple of the
/// interval.
pub fn should_sample(now: i64, interval: u32) -> (b: bool)
    requires
        interval > 0,
    ensures
        b == ((now as int) % (interval as int) == 0),
{
    if now >= 0 {
        (now as u64) % (interval as u64) == 0
    } else {
        let magnitude: u64 = (0i128 - now as i128) as u64;
        let r = magnitude % (interval as u64);
        proof {
            lemma_divisible_negation(now as int, interval as int);
        }
        r == 0
    }
}

/// What a collector does on one tick of its loop: whether it samples, how
/// long it pauses after a round of samples, and how long it pauses before the
/// next tick.
pub struct TickPlan {
    pub sample: bool,
    pub pause_after_round_ms: u64,
    pub pause_ms: u64,
}

/// The collector's tick at second `now`: it samples at every multiple of the
/// interval and then rests a second, so that one second is sampled once; every
/// tick ends with half a second's pause.
pub fn tick_plan(now: i64, interval: u32) -> (plan: TickPlan)
    requires
        interval > 0,
    ensures
        plan.sample == ((now as int) % (interval as int) == 0),
        plan.pause_after_round_ms == (if plan.sample { 1000u64 } else { 0u64 }),
        plan.pause_ms == 500,
{
    let sample = should_sample(now, interval);
    TickPlan { sample, pause_after_round_ms: if sample { 1000 } else { 0 }, pause_ms: 500 }
}

/// A number and its negation are divisible by the same numbers.
proof fn lemma_divisible_negation(n: int, d: int)
    requires
        d > 0,
    ensures
        (n % d == 0) == ((-n) % d == 0),
{
    if n % d == 0 {
        let q = n / d;
        vstd::arithmetic::div_mod::lemma_fundamental_div_mod(n, d);
        assert(-n == (-q) * d) by (nonlinear_arith)
            requires n == d * q;
        vstd::arithmetic::div_mod::lemma_mod_multiples_basic(-q, d);
    }
    if (-n) % d == 0 {
        let q = (-n) / d;
        vstd::arithmetic::div_mod::lemma_fundamental_div_mod(-n, d);
        assert(n == (-q) * d) by (nonlinear_arith)
            requires -n == d * q;
        vstd::arithmetic::div_mod::lemma_mod_multiples_basic(-q, d);
    }
}

/// The edition a server's type asks for: 1 is Java, 0 is Bedrock, any other
/// type is not pinged.
pub open spec fn edition_of(stype: i8) -> Option<Edition> {
    if stype == 1 {
        Some(Edition::Java)
    } else if stype == 0 {
        Some(Edition::Bedrock)
    } else {
        None
    }
}

/// The edition to ping a server as, if any.
pub fn requested_edition(stype: i8) -> (e: Option<Edition>)
    ensures
        e == edition_of(stype),
{
    if stype == 1 {
        Some(Edition::Java)
    } else if stype == 0 {
        Some(Edition::Bedrock)
    } else {
        None
    }
}

/// A Bedrock player count that the collector can store.
pub open spec fn outcome_fits(o: Option<PingOutcome>) -> bool {
    o matches Some(PingOutcome::Bedrock { online_players, .. }) ==> online_players <= i32::MAX
}

/// The sample of a server of type `stype` for what its ping brought back
/// (`None` when it was not pinged): latency, player count and listed names.
/// A Java status counts its online players when it lists a sample of them and
/// counts 0 when it does not; a Bedrock status counts only when Bedrock was
/// asked for; everything else is `(-1, -1)` with no names.
pub open spec fn sample_of(stype: i8, o: Option<PingOutcome>) -> (int, int, Seq<String>) {
    match (edition_of(stype), o) {
        (Some(_), Some(PingOutcome::Java { latency, online, sample })) => match sample {
            Some(names) => (latency as int, (online as i32) as int, names@),
            None => (latency as int, 0, Seq::empty()),
        },
        (Some(Edition::Bedrock), Some(PingOutcome::Bedrock { latency, online_players })) =>
            (latency as int, online_players as int, Seq::empty()),
        _ => (-1, -1, Seq::empty()),
    }
}

/// Turns what one ping brought back into a sample.
pub fn sample_from_ping(stype: i8, outcome: &Option<PingOutcome>) -> (s: ServerSample)
    requires
        outcome_fits(*outcome),
    ensures
        (s.latency as int, s.players as int, s.names@) == sample_of(stype, *outcome),
{
    let edition = requested_edition(stype);
    match (edition, outcome) {
        (Some(_), Some(PingOutcome::Java { latency, online, sample })) => match sample {
            Some(names) => ServerSample { latency: *latency, players: *online as i32, names: clone_strings(names) },
            None => ServerSample { latency: *latency, players: 0, names: Vec::new() },
        },
        (Some(Edition::Bedrock), Some(PingOutcome::Bedrock { latency, online_players })) =>
            ServerSample { latency: *latency, players: *online_players as i32, names: Vec::new() },
        _ => ServerSample { latency: -1, players: -1, names: Vec::new() },
    }
}

/// One round of samples: for each server in order, the sample of what its
/// ping brought back.
pub fn get_data(servers: &Vec<SingleServerConfig>, outcomes: &Vec<Option<PingOutcome>>) -> (rd: ResultData)
    requires
        outcomes.len() == servers.len(),
        forall|i: int| 0 <= i < outcomes@.len() ==> outcome_fits(#[trigger] outcomes@[i]),
    ensures
        rd.latencies@.len() == servers.len(),
        rd.players@.len() == servers.len(),
        rd.playerlists@.len() == servers.len(),
        forall|i: int| 0 <= i < servers@.len() ==>
            (#[trigger] rd.latencies@[i] as int, rd.players@[i] as int, rd.playerlists@[i]@)
                == sample_of(servers@[i].stype, outcomes@[i]),
{
    let mut latencies: Vec<i32> = Vec::new();
    let mut players: Vec<i32> = Vec::new();
    let mut playerlists: Vec<Vec<String>> = Vec::new();
    let mut i: usize = 0;
    while i < servers.len()
        invariant
            i <= servers.len(),
            outcomes.len() == servers.len(),
            forall|k: int| 0 <= k < outcomes@.len() ==> outcome_fits(#[trigger] outcomes@[k]),
            latencies@.len() == i,
            players@.len() == i,
            playerlists@.len() == i,
            forall|k: int| 0 <= k < i ==>
                (#[trigger] latencies@[k] as int, players@[k] as int, playerlists@[k]@)
                    == sample_of(servers@[k].stype, outcomes@[k]),
        decreases servers.len() - i,
    {
        let s = sample_from_ping(servers[i].stype, &outcomes[i]);
        latencies.push(s.latency);
        players.push(s.players);
        playerlists.push(s.names);
        i = i + 1;
    }
    ResultData { latencies, players, playerlists }
}

/// The statement that creates a server's history table when it is missing.
pub open spec fn create_table_sql(table: Seq<char>) -> Seq<char> {
    "CREATE TABLE IF NOT EXISTS "@ + table + " (
                timestamp INTEGER PRIMARY KEY,
                type INTEGER NOT NULL,
                latency INTEGER NOT NULL,
                players INTEGER NOT NULL,
                playerlist TEXT NOT NULL
                )"@
}

/// The statement that stores one sample in a server's history table, with
/// the row's five values bound to `?1` to `?5`.
pub open spec fn insert_row_sql(table: Seq<char>) -> Seq<char> {
    "INSERT INTO "@ + table + " (timestamp, type, latency, players, playerlist)
                VALUES (?1,?2,?3,?4,?5)"@
}

/// What one round writes for one server: the table, made sure of, and the row.
pub struct RecordStep {
    pub create_sql: String,
    pub insert_sql: String,
    pub row: StoredRow,
}

/// Whether `row` is the row that a round at `ts` stores for server `i`.
pub open spec fn is_row_written(row: StoredRow, ts: i64, rd: ResultData, servers: Seq<SingleServerConfig>, i: int) -> bool {
    &&& row.timestamp == ts
    &&& row.stype == servers[i].stype
    &&& row.latency == rd.latencies@[i]
    &&& row.players == rd.players@[i]
    &&& row.playerlist@ == json_string_array(rd.playerlists@[i]@.map_values(|s: String| s@))
}

/// What one round at second `ts` writes, server by server in order: the
/// statement that makes sure of the server's table, and the row of its
/// sample, the player names stored as a JSON array.
pub fn record(ts: i64, rd: &ResultData, servers: &Vec<SingleServerConfig>) -> (steps: Vec<RecordStep>)
    requires
        rd.latencies.len() >= servers.len(),
        rd.players.len() >= servers.len(),
        rd.playerlists.len() >= servers.len(),
    ensures
        steps@.len() == servers@.len(),
        forall|i: int| 0 <= i < servers@.len() ==> {
            &&& (#[trigger] steps@[i]).create_sql@ == create_table_sql(servers@[i].name@)
            &&& steps@[i].insert_sql@ == insert_row_sql(servers@[i].name@)
            &&& is_row_written(steps@[i].row, ts, *rd, servers@, i)
        },
{
    let mut steps: Vec<RecordStep> = Vec::new();
    let mut i: usize = 0;
    while i < servers.len()
        invariant
            i <= servers.len(),
            rd.latencies.len() >= servers.len(),
            rd.players.len() >= servers.len(),
            rd.playerlists.len() >= servers.len(),
            steps@.len() == i,
            forall|k: int| 0 <= k < i ==> {
                &&& (#[trigger] steps@[k]).create_sql@ == create_table_sql(servers@[k].name@)
                &&& steps@[k].insert_sql@ == insert_row_sql(servers@[k].name@)
                &&& is_row_written(steps@[k].row, ts, *rd, servers@, k)
            },
        decreases servers.len() - i,
    {
        let name = servers[i].name.as_str();
        let mut create_sql = String::from_str("CREATE TABLE IF NOT EXISTS ");
        create_sql.append(name);
        create_sql.append(" (
                timestamp INTEGER PRIMARY KEY,
                type INTEGER NOT NULL,
                latency INTEGER NOT NULL,
                players INTEGER NOT NULL,
                playerlist TEXT NOT NULL
                )");
        let mut insert_sql = String::from_str("INSERT INTO ");
        insert_sql.append(name);
        insert_sql.append(" (timestamp, type, latency, players, playerlist)
                VALUES (?1,?2,?3,?4,?5)");
        let playerlist = match json_of_strings(&rd.playerlists[i]) {
            Ok(t) => t,
            Err(_) => String::new(),
        };
        let row = StoredRow {
            timestamp: ts,
            stype: servers[i].stype,
            latency: rd.latencies[i],
            players: rd.players[i],
            playerlist,
        };
        assert(create_sql@ =~= create_table_sql(servers@[i as int].name@));
        assert(insert_sql@ =~= insert_row_sql(servers@[i as int].name@));
        steps.push(RecordStep { create_sql, insert_sql, row });
        i = i + 1;
    }
    steps
}

} // verus!

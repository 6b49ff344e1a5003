//! The HTTP API: which history a request reads, and how the rows it reads
//! become the answer.

use vstd::prelude::*;
use crate::deps::{is_word, local_datetime_text, local_time_text, regex_is_match, word_pattern};
use crate::model::{
    ConfigFile, ResponseData, ResponseList, SingleServerConfig, SingleServerData,
    StoredRow,
};
use crate::text::{dec_digits, push_decimal};

verus! {

/// Checks a server name against the word pattern `^[A-Za-z0-9_]+$` with the
/// `regex` crate. The pattern always compiles, so the answer is `Ok` of
/// whether the name is a non-empty run of ASCII letters, digits and
/// underscores.
pub fn is_valid_string(s: &str) -> (res: Result<bool, String>)
    ensures
        res is Ok,
        res matches Ok(b) ==> b == is_word(s@),
{
    let pattern = "^[A-Za-z0-9_]+$";
    assert(pattern@ == word_pattern());
    regex_is_match(pattern, s)
}

/// Checks every configured name in order, as the API server does before it
/// starts; the first name whose check fails is given back with the message.
/// The check fails only when the pattern cannot be compiled, and it always
/// compiles, so every list of names passes; whether a name is a word does
/// not stop the start.
pub fn check_server_names(servers: &Vec<SingleServerConfig>) -> (res: Result<(), (String, String)>)
    ensures
        res is Ok,
        res matches Err((name, _)) ==> exists|i: int| 0 <= i < servers@.len() && #[trigger] servers@[i].name@ == name@,
{
    let mut i: usize = 0;
    while i < servers.len()
        invariant
            i <= servers.len(),
        decreases servers.len() - i,
    {
        match is_valid_string(servers[i].name.as_str()) {
            Ok(_) => {},
            Err(e) => {
                let name = servers[i].name.clone();
                assert(servers@[i as int].name@ == name@);
                return Err((name, e));
            },
        }
        i = i + 1;
    }
    Ok(())
}

/// Finds the first server with the given name.
pub fn find_server(servers: &Vec<SingleServerConfig>, name: &str) -> (found: Option<usize>)
    ensures
        found matches Some(i) ==> i < servers.len() && servers@[i as int].name@ == name@
            && forall|j: int| 0 <= j < i ==> #[trigger] servers@[j].name@ != name@,
        found is None ==> forall|j: int| 0 <= j < servers@.len() ==> #[trigger] servers@[j].name@ != name@,
{
    let wanted = String::from_str(name);
    let mut i: usize = 0;
    while i < servers.len()
        invariant
            i <= servers.len(),
            wanted@ == name@,
            forall|j: int| 0 <= j < i ==> #[trigger] servers@[j].name@ != name@,
        decreases servers.len() - i,
    {
        if servers[i].name == wanted {
            return Some(i);
        }
        i = i + 1;
    }
    None
}

/// The statement that reads the latest `length` rows of a history table,
/// newest first.
pub open spec fn latest_rows_sql(table: Seq<char>, length: nat) -> Seq<char> {
    "SELECT * FROM "@ + table + " ORDER BY timestamp DESC LIMIT "@ + dec_digits(length)
}

/// Builds the statement that reads the latest `length` rows of a table.
pub fn select_latest_query(table: &str, length: u32) -> (sql: String)
    ensures
        sql@ == latest_rows_sql(table@, length as nat),
{
    let mut sql = String::from_str("SELECT * FROM ");
    sql.append(table);
    sql.append(" ORDER BY timestamp DESC LIMIT ");
    push_decimal(&mut sql, length as u64);
    assert(sql@ =~= latest_rows_sql(table@, length as nat));
    sql
}

/// What a request for a server's history reads: the server's label and the
/// statement for its table.
pub struct RecordQuery {
    pub label: String,
    pub sql: String,
}

/// The message for a name that no server has.
pub open spec fn invalid_name_message(name: Seq<char>) -> Seq<char> {
    "Invalid server name: "@ + name
}

/// `i` is the first server with the name.
pub open spec fn is_first_named(servers: Seq<SingleServerConfig>, name: Seq<char>, i: int) -> bool {
    &&& 0 <= i < servers.len()
    &&& servers[i].name@ == name
    &&& forall|j: int| 0 <= j < i ==> #[trigger] servers[j].name@ != name
}

/// `q` reads the latest `length` rows of the table named `name`, under the
/// label of the first server with that name.
pub open spec fn reads_first_named(servers: Seq<SingleServerConfig>, name: Seq<char>, q: RecordQuery, length: nat) -> bool {
    &&& q.sql@ == latest_rows_sql(name, length)
    &&& exists|i: int| #[trigger] is_first_named(servers, name, i) && q.label@ == servers[i].label@
}

/// The history read for `servername`: the latest `length` rows of the table
/// of the first server with that name, or an error naming it when no server
/// has it.
pub fn record_query(servername: &str, servers: &Vec<SingleServerConfig>, length: u32) -> (res: Result<RecordQuery, String>)
    ensures
        res is Err <==> forall|j: int| 0 <= j < servers@.len() ==> #[trigger] servers@[j].name@ != servername@,
        res matches Err(msg) ==> msg@ == invalid_name_message(servername@),
        res matches Ok(q) ==> reads_first_named(servers@, servername@, q, length as nat),
{
    match find_server(servers, servername) {
        Some(i) => {
            let label = servers[i].label.clone();
            let sql = select_latest_query(servers[i].name.as_str(), length);
            assert(servers@[i as int].label@ == label@);
            assert(is_first_named(servers@, servername@, i as int));
            Ok(RecordQuery { label, sql })
        },
        None => {
            let mut msg = String::from_str("Invalid server name: ");
            msg.append(servername);
            Err(msg)
        },
    }
}

/// The timestamps that rows are shown for: chrono's calendar, from
/// -262143-01-01 00:00:00 to 262142-12-31 23:59:59 UTC.
pub open spec fn timestamp_in_range(t: i64) -> bool {
    -8_334_601_228_800 <= t <= 8_210_266_876_799
}

/// `text` renders the moment `ts` on a local clock: the clock reads `ts`
/// plus some offset from UTC of less than a day, and the text gives that
/// reading with that offset.
pub open spec fn shows_local_time(text: Seq<char>, ts: int) -> bool {
    exists|local: int, off: int|
        local == ts + off && -86400 < off < 86400 && text == #[trigger] local_datetime_text(local, off)
}

/// A stored row as the API shows it: every field kept, the timestamp
/// rendered in the machine's local time.
pub open spec fn shows_row(d: SingleServerData, row: StoredRow) -> bool {
    &&& d.stype == row.stype
    &&& d.latency == row.latency
    &&& d.player == row.players
    &&& d.playerlist@ == row.playerlist@
}

/// Shows one stored row with its timestamp already rendered as `time_text`.
pub fn row_shown_at(row: &StoredRow, time_text: String) -> (d: SingleServerData)
    ensures
        shows_row(d, *row),
        d.timestamp@ == time_text@,
{
    SingleServerData {
        timestamp: time_text,
        stype: row.stype,
        latency: row.latency,
        player: row.players,
        playerlist: row.playerlist.clone(),
    }
}

/// Shows one stored row, its timestamp rendered in the machine's local time
/// zone.
pub fn server_data_from_row(row: &StoredRow) -> (d: SingleServerData)
    requires
        timestamp_in_range(row.timestamp),
    ensures
        shows_row(d, *row),
        shows_local_time(d.timestamp@, row.timestamp as int),
{
    let (text, offset) = local_time_text(row.timestamp);
    let d = row_shown_at(row, text);
    assert(d.timestamp@ == local_datetime_text(row.timestamp + offset, offset as int));
    d
}

/// The answer for a server: its label and its rows, in the order read.
pub fn build_response(label: &str, rows: &Vec<StoredRow>) -> (resp: ResponseData)
    requires
        forall|i: int| 0 <= i < rows@.len() ==> timestamp_in_range(#[trigger] rows@[i].timestamp),
    ensures
        resp.label@ == label@,
        resp.data@.len() == rows@.len(),
        forall|i: int| 0 <= i < rows@.len() ==> shows_row(#[trigger] resp.data@[i], rows@[i]),
        forall|i: int| 0 <= i < rows@.len() ==> shows_local_time(#[trigger] resp.data@[i].timestamp@, rows@[i].timestamp as int),
{
    let mut data: Vec<SingleServerData> = Vec::new();
    let mut i: usize = 0;
    while i < rows.len()
        invariant
            i <= rows.len(),
            data@.len() == i,
            forall|k: int| 0 <= k < rows@.len() ==> timestamp_in_range(#[trigger] rows@[k].timestamp),
            forall|k: int| 0 <= k < i ==> shows_row(#[trigger] data@[k], rows@[k]),
            forall|k: int| 0 <= k < i ==> shows_local_time(#[trigger] data@[k].timestamp@, rows@[k].timestamp as int),
        decreases rows.len() - i,
    {
        let d = server_data_from_row(&rows[i]);
        data.push(d);
        i = i + 1;
    }
    ResponseData { label: String::from_str(label), data }
}

/// The answer for a failed request: labelled "Error", with one default
/// sample that carries the message as its player list.
pub fn error_response(message: String) -> (resp: ResponseData)
    ensures
        resp.label@ == "Error"@,
        resp.data@.len() == 1,
        resp.data@[0].timestamp@ == "None"@,
        resp.data@[0].stype == -1,
        resp.data@[0].latency == -1,
        resp.data@[0].player == -1,
        resp.data@[0].playerlist@ == message@,
{
    let mut data: Vec<SingleServerData> = Vec::new();
    data.push(SingleServerData {
        playerlist: message,
        ..Default::default()
    });
    ResponseData { label: String::from_str("Error"), data }
}

/// The answer of a history request: the record when it was read, else the
/// error answer for the message.
pub fn api_response(record: Result<ResponseData, String>) -> (resp: ResponseData)
    ensures
        record matches Ok(r) ==> resp == r,
        record matches Err(m) ==> resp.label@ == "Error"@ && resp.data@.len() == 1
            && resp.data@[0].playerlist@ == m@
            && resp.data@[0].timestamp@ == "None"@
            && resp.data@[0].stype == -1
            && resp.data@[0].latency == -1
            && resp.data@[0].player == -1,
{
    match record {
        Ok(r) => r,
        Err(m) => error_response(m),
    }
}

/// `/api/servers/<name>`: reads the configured number of latest rows of the
/// named server.
pub fn index_api_servers_servername(servername: &str, conf: &ConfigFile) -> (res: Result<RecordQuery, String>)
    ensures
        res is Err <==> forall|j: int| 0 <= j < conf.servers@.len() ==> #[trigger] conf.servers@[j].name@ != servername@,
        res matches Err(msg) ==> msg@ == invalid_name_message(servername@),
        res matches Ok(q) ==> reads_first_named(conf.servers@, servername@, q, conf.length as nat),
{
    record_query(servername, &conf.servers, conf.length)
}

/// `/api/serverod/<name>`: reads only the latest row of the named server.
pub fn index_api_serverod_servername(servername: &str, conf: &ConfigFile) -> (res: Result<RecordQuery, String>)
    ensures
        res is Err <==> forall|j: int| 0 <= j < conf.servers@.len() ==> #[trigger] conf.servers@[j].name@ != servername@,
        res matches Err(msg) ==> msg@ == invalid_name_message(servername@),
        res matches Ok(q) ==> reads_first_named(conf.servers@, servername@, q, 1),
{
    record_query(servername, &conf.servers, 1)
}

/// `/api/list`: the edition, name and label of every server, in the
/// configured order.
pub fn index_api_list(conf: &ConfigFile) -> (list: ResponseList)
    ensures
        list.typelist@.len() == conf.servers@.len(),
        list.namelist@.len() == conf.servers@.len(),
        list.labellist@.len() == conf.servers@.len(),
        forall|i: int| 0 <= i < conf.servers@.len() ==> {
            &&& #[trigger] list.typelist@[i] == conf.servers@[i].stype
            &&& list.namelist@[i]@ == conf.servers@[i].name@
            &&& list.labellist@[i]@ == conf.servers@[i].label@
        },
{
    let mut typelist: Vec<i8> = Vec::new();
    let mut namelist: Vec<String> = Vec::new();
    let mut labellist: Vec<String> = Vec::new();
    let mut i: usize = 0;
    while i < conf.servers.len()
        invariant
            i <= conf.servers.len(),
            typelist@.len() == i,
            namelist@.len() == i,
            labellist@.len() == i,
            forall|k: int| 0 <= k < i ==> {
                &&& #[trigger] typelist@[k] == conf.servers@[k].stype
                &&& namelist@[k]@ == conf.servers@[k].name@
                &&& labellist@[k]@ == conf.servers@[k].label@
            },
        decreases conf.servers.len() - i,
    {
        typelist.push(conf.servers[i].stype);
        namelist.push(conf.servers[i].name.clone());
        labellist.push(conf.servers[i].label.clone());
        i = i + 1;
    }
    ResponseList { typelist, namelist, labellist }
}

} // verus!

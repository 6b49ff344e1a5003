use mcsrvmonitor::api::{
    api_response, build_response, check_server_names, error_response, find_server,
    index_api_list, index_api_serverod_servername, index_api_servers_servername,
    is_valid_string, record_query, row_shown_at, select_latest_query, server_data_from_row,
};
use chrono::DateTime;
use mcsrvmonitor::collector::{collect_step, insert_sql, ping_request};
use mcsrvmonitor::config::ServerConfig;
use mcsrvmonitor::model::{
    complete_config, complete_server, config_entry, database_path, BackendConfig, ConfigEntry, ConfigFile,
    ResultData, ServerEntry, SingleServerConfig, SingleServerData, StoredRow,
};
use mcsrvmonitor::probe;
use mcsrvmonitor::sampler::{
    first_invalid_backend_name, get_data, tick_plan, is_lowercase_ascii, record, requested_edition,
    sample_from_ping, should_sample, Edition, PingOutcome,
};

fn server(name: &str, label: &str, stype: i8) -> SingleServerConfig {
    SingleServerConfig {
        name: name.to_string(),
        label: label.to_string(),
        addr: "example.org".to_string(),
        stype,
    }
}

fn conf() -> ConfigFile {
    ConfigFile {
        addr: "0.0.0.0".to_string(),
        port: 8003,
        length: 250,
        backend: BackendConfig { interval: 15, dbfile: "history.db".to_string() },
        servers: vec![server("fts", "[Java] FTS", 1), server("ftsb", "[Bedrock] FTS", 0)],
    }
}

fn row(ts: i64, latency: i32) -> StoredRow {
    StoredRow { timestamp: ts, stype: 1, latency, players: 2, playerlist: "[\"a\"]".to_string() }
}

#[test]
fn word_check() {
    assert_eq!(is_valid_string("fts_427"), Ok(true));
    assert_eq!(is_valid_string("Server1"), Ok(true));
    assert_eq!(is_valid_string("a-b"), Ok(false));
    assert_eq!(is_valid_string("a b"), Ok(false));
    assert_eq!(is_valid_string(""), Ok(false));
    assert_eq!(is_valid_string("drop;table"), Ok(false));
    assert_eq!(is_valid_string("é"), Ok(false));
}

#[test]
fn startup_name_check_passes_valid_and_invalid_names() {
    // the check only fails when the pattern cannot be compiled
    assert!(check_server_names(&conf().servers).is_ok());
    assert!(check_server_names(&vec![server("a b", "x", 1)]).is_ok());
}

#[test]
fn first_server_with_name() {
    let servers = vec![server("a", "first", 1), server("b", "second", 0), server("a", "third", 0)];
    assert_eq!(find_server(&servers, "a"), Some(0));
    assert_eq!(find_server(&servers, "b"), Some(1));
    assert_eq!(find_server(&servers, "c"), None);
    assert_eq!(find_server(&vec![], "a"), None);
}

#[test]
fn latest_rows_statement() {
    assert_eq!(select_latest_query("fts", 250), "SELECT * FROM fts ORDER BY timestamp DESC LIMIT 250");
    assert_eq!(select_latest_query("mcserver", 0), "SELECT * FROM mcserver ORDER BY timestamp DESC LIMIT 0");
}

#[test]
fn record_query_found_and_missing() {
    let servers = conf().servers;
    let q = record_query("ftsb", &servers, 7).ok().unwrap();
    assert_eq!(q.label, "[Bedrock] FTS");
    assert_eq!(q.sql, "SELECT * FROM ftsb ORDER BY timestamp DESC LIMIT 7");
    let e = record_query("nope", &servers, 7).err().unwrap();
    assert_eq!(e, "Invalid server name: nope");
}

#[test]
fn handlers_choose_length() {
    let c = conf();
    let q = index_api_servers_servername("fts", &c).ok().unwrap();
    assert_eq!(q.sql, "SELECT * FROM fts ORDER BY timestamp DESC LIMIT 250");
    assert_eq!(q.label, "[Java] FTS");
    let q = index_api_serverod_servername("fts", &c).ok().unwrap();
    assert_eq!(q.sql, "SELECT * FROM fts ORDER BY timestamp DESC LIMIT 1");
    assert_eq!(index_api_servers_servername("x", &c).err().unwrap(), "Invalid server name: x");
    assert_eq!(index_api_serverod_servername("x", &c).err().unwrap(), "Invalid server name: x");
}

#[test]
fn rows_become_response() {
    let d = row_shown_at(&row(100, 33), "then".to_string());
    assert_eq!(d.timestamp, "then");
    assert_eq!(d.latency, 33);
    assert_eq!(d.player, 2);
    assert_eq!(d.stype, 1);
    assert_eq!(d.playerlist, "[\"a\"]");
    let d = server_data_from_row(&row(0, 5));
    assert!(!d.timestamp.is_empty());
    assert_eq!(d.latency, 5);
    let resp = build_response("[Java] FTS", &vec![row(200, 1), row(100, -1)]);
    assert_eq!(resp.label, "[Java] FTS");
    assert_eq!(resp.data.len(), 2);
    assert_eq!(resp.data[0].latency, 1);
    assert_eq!(resp.data[1].latency, -1);
}

#[test]
fn error_answer() {
    let r = error_response("Invalid server name: x".to_string());
    assert_eq!(r.label, "Error");
    assert_eq!(r.data.len(), 1);
    assert_eq!(r.data[0].playerlist, "Invalid server name: x");
    assert_eq!(r.data[0].timestamp, "None");
    assert_eq!(r.data[0].stype, -1);
    assert_eq!(r.data[0].latency, -1);
    assert_eq!(r.data[0].player, -1);
    let r = api_response(Err("Invalid server name: nosuch".to_string()));
    assert_eq!(r.label, "Error");
    assert_eq!(r.data.len(), 1);
    assert_eq!(r.data[0].playerlist, "Invalid server name: nosuch");
    assert_eq!(r.data[0].timestamp, "None");
    assert_eq!((r.data[0].stype, r.data[0].latency, r.data[0].player), (-1, -1, -1));
    let ok = build_response("L", &vec![]);
    let r = api_response(Ok(ok));
    assert_eq!(r.label, "L");
    assert!(r.data.is_empty());
}

#[test]
fn server_list_columns() {
    let l = index_api_list(&conf());
    assert_eq!(l.typelist, vec![1, 0]);
    assert_eq!(l.namelist, vec!["fts".to_string(), "ftsb".to_string()]);
    assert_eq!(l.labellist, vec!["[Java] FTS".to_string(), "[Bedrock] FTS".to_string()]);
    let empty = ConfigFile { servers: vec![], ..conf() };
    assert!(index_api_list(&empty).typelist.is_empty());
}

#[test]
fn defaults() {
    let c = ConfigFile::default();
    assert_eq!(c.addr, "0.0.0.0");
    assert_eq!(c.port, 9010);
    assert_eq!(c.length, 100);
    assert_eq!(c.backend.interval, 1);
    assert_eq!(c.servers.len(), 1);
    assert_eq!(c.servers[0].name, "server");
    assert_eq!(c.servers[0].label, "Server1");
    assert_eq!(c.servers[0].addr, "127.0.0.1");
    assert_eq!(c.servers[0].stype, 1);
    let c = ConfigFile::collector_default();
    assert_eq!(c.addr, "127.0.0.1");
    assert_eq!(c.servers[0].name, "server");
    let d = SingleServerData::default();
    assert_eq!(d.timestamp, "None");
    assert_eq!(d.playerlist, "");
    assert_eq!((d.stype, d.latency, d.player), (-1, -1, -1));
}

#[test]
fn default_config_names_pass_both_checks() {
    for c in [ConfigFile::default(), ConfigFile::collector_default()] {
        assert!(first_invalid_backend_name(&c.servers).is_none());
        for s in &c.servers {
            assert_eq!(is_valid_string(&s.name), Ok(true));
        }
    }
}

#[test]
fn collector_name_check() {
    assert!(is_lowercase_ascii("fts"));
    assert!(is_lowercase_ascii(""));
    assert!(!is_lowercase_ascii("Fts"));
    assert!(!is_lowercase_ascii("f1"));
    assert_eq!(first_invalid_backend_name(&conf().servers), None);
    let servers = vec![server("ok", "", 1), server("Bad", "", 1), server("no_", "", 1)];
    assert_eq!(first_invalid_backend_name(&servers), Some("Bad".to_string()));
}

#[test]
fn sampling_ticks() {
    assert!(should_sample(30, 15));
    assert!(!should_sample(31, 15));
    assert!(should_sample(0, 1));
    assert!(should_sample(-30, 15));
    assert!(!should_sample(-31, 15));
    assert!(should_sample(i64::MIN, 2));
    assert!(!should_sample(i64::MAX, 2));
}

#[test]
fn editions() {
    assert_eq!(requested_edition(1), Some(Edition::Java));
    assert_eq!(requested_edition(0), Some(Edition::Bedrock));
    assert_eq!(requested_edition(2), None);
    assert_eq!(requested_edition(-1), None);
}

fn java(latency: i32, online: i64, names: Option<Vec<&str>>) -> Option<PingOutcome> {
    Some(PingOutcome::Java {
        latency,
        online,
        sample: names.map(|v| v.into_iter().map(|s| s.to_string()).collect()),
    })
}

#[test]
fn samples_from_pings() {
    let s = sample_from_ping(1, &java(40, 3, Some(vec!["a", "b"])));
    assert_eq!((s.latency, s.players), (40, 3));
    assert_eq!(s.names, vec!["a".to_string(), "b".to_string()]);
    let s = sample_from_ping(1, &java(40, 3, None));
    assert_eq!((s.latency, s.players), (40, 0));
    assert!(s.names.is_empty());
    let s = sample_from_ping(1, &Some(PingOutcome::Bedrock { latency: 9, online_players: 4 }));
    assert_eq!((s.latency, s.players), (-1, -1));
    let s = sample_from_ping(0, &Some(PingOutcome::Bedrock { latency: 9, online_players: 4 }));
    assert_eq!((s.latency, s.players), (9, 4));
    let s = sample_from_ping(0, &java(12, 7, Some(vec![])));
    assert_eq!((s.latency, s.players), (12, 7));
    let s = sample_from_ping(0, &Some(PingOutcome::Unreachable));
    assert_eq!((s.latency, s.players), (-1, -1));
    let s = sample_from_ping(5, &java(12, 7, Some(vec![])));
    assert_eq!((s.latency, s.players), (-1, -1));
    let s = sample_from_ping(5, &None);
    assert_eq!((s.latency, s.players), (-1, -1));
    // the player count is cut to 32 bits as the collector stores it
    let s = sample_from_ping(1, &java(1, (1i64 << 32) + 5, Some(vec![])));
    assert_eq!(s.players, 5);
}

#[test]
fn one_round_of_samples() {
    let servers = conf().servers;
    let outcomes = vec![java(30, 2, Some(vec!["x", "y"])), Some(PingOutcome::Unreachable)];
    let rd = get_data(&servers, &outcomes);
    assert_eq!(rd.latencies, vec![30, -1]);
    assert_eq!(rd.players, vec![2, -1]);
    assert_eq!(rd.playerlists, vec![vec!["x".to_string(), "y".to_string()], vec![]]);
}

#[test]
fn rows_written_by_a_round() {
    let servers = conf().servers;
    let rd = ResultData {
        latencies: vec![30, -1],
        players: vec![2, -1],
        playerlists: vec![vec!["x".to_string(), "q\"uote".to_string()], vec![]],
    };
    let steps = record(1700000000, &rd, &servers);
    assert_eq!(steps.len(), 2);
    assert!(steps[0].create_sql.starts_with("CREATE TABLE IF NOT EXISTS fts (\n"));
    assert!(steps[0].create_sql.contains("playerlist TEXT NOT NULL"));
    assert!(steps[1].create_sql.starts_with("CREATE TABLE IF NOT EXISTS ftsb ("));
    assert!(steps[0].insert_sql.starts_with("INSERT INTO fts (timestamp, type, latency, players, playerlist)"));
    assert!(steps[0].insert_sql.ends_with("VALUES (?1,?2,?3,?4,?5)"));
    assert_eq!(steps[0].row.timestamp, 1700000000);
    assert_eq!(steps[0].row.stype, 1);
    assert_eq!(steps[0].row.latency, 30);
    assert_eq!(steps[0].row.players, 2);
    assert_eq!(steps[0].row.playerlist, r#"["x","q\"uote"]"#);
    assert_eq!(steps[1].row.stype, 0);
    assert_eq!(steps[1].row.playerlist, "[]");
}

#[test]
fn what_is_written_is_read_back() {
    let servers = conf().servers;
    let rd = ResultData { latencies: vec![55, 7], players: vec![3, 1], playerlists: vec![vec!["p".to_string()], vec![]] };
    let steps = record(1000, &rd, &servers);
    let rows: Vec<StoredRow> = steps.iter().map(|s| s.row.clone()).collect();
    let resp = build_response("x", &rows);
    for i in 0..2 {
        assert_eq!(resp.data[i].latency, rd.latencies[i]);
        assert_eq!(resp.data[i].player, rd.players[i]);
        assert_eq!(resp.data[i].stype, servers[i].stype);
    }
    assert_eq!(resp.data[0].playerlist, "[\"p\"]");
}

#[test]
fn single_server_prober() {
    assert_eq!(probe::get_data(&PingOutcome::Unreachable), (-1, -1));
    assert_eq!(probe::get_data(&PingOutcome::Java { latency: 8, online: 3, sample: None }), (8, 3));
    assert_eq!(probe::get_data(&PingOutcome::Bedrock { latency: 8, online_players: 3 }), (8, -1));
    assert_eq!(probe::record(1700000000, -1, 12), "INSERT INTO mcserver (timestamp, latency, players)\n    VALUES (1700000000,-1,12)");
    assert_eq!(probe::PROBE_INTERVAL, 5);
}

#[test]
fn page_collector_ping() {
    let r = ping_request(&ServerConfig { java: false, addr: "mc.example:19132".to_string() }, 15);
    assert_eq!(r.address, "mc.example:19132");
    assert_eq!(r.edition, Edition::Bedrock);
    assert_eq!(r.timeout_secs, 15);
    assert_eq!(r.max_parallel, 16);
    let r = ping_request(&ServerConfig { java: true, addr: "a".to_string() }, 1);
    assert_eq!(r.edition, Edition::Java);
}

#[test]
fn unknown_name_on_default_config_is_an_error_answer() {
    let c = ConfigFile::default();
    let e = index_api_servers_servername("Fts", &c).err().unwrap();
    let r = api_response(Err(e));
    assert_eq!(r.label, "Error");
    assert_eq!(r.data[0].playerlist, "Invalid server name: Fts");
    assert_eq!(r.data[0].timestamp, "None");
    assert_eq!((r.data[0].stype, r.data[0].latency, r.data[0].player), (-1, -1, -1));
}

#[test]
fn player_names_json() {
    let servers = vec![server("a", "", 1)];
    let rd = |names: Vec<&str>| ResultData {
        latencies: vec![1],
        players: vec![1],
        playerlists: vec![names.into_iter().map(|s| s.to_string()).collect()],
    };
    let steps = record(1, &rd(vec!["Steve", "Alex"]), &servers);
    assert_eq!(steps[0].row.playerlist, r#"["Steve","Alex"]"#);
    let steps = record(1, &rd(vec!["a\\b", "t\tn\nr\r", "\u{8}\u{c}", "\u{1}\u{1f}\u{7f}", "é"]), &servers);
    assert_eq!(steps[0].row.playerlist, "[\"a\\\\b\",\"t\\tn\\nr\\r\",\"\\b\\f\",\"\\u0001\\u001f\u{7f}\",\"é\"]");
}

#[test]
fn database_file_from_config() {
    assert_eq!(database_path(&ConfigFile::default()), "./data/history.db");
    let mut c = conf();
    c.backend.dbfile = "other.db".to_string();
    assert_eq!(database_path(&c), "./data/other.db");
}

#[test]
fn partial_configuration_is_completed() {
    let s = complete_server(&ServerEntry { name: "fts".to_string(), label: None, addr: "server.fts427.top".to_string(), stype: None });
    assert_eq!(s.label, "fts");
    assert_eq!(s.stype, 1);
    assert_eq!(s.addr, "server.fts427.top");
    let s = complete_server(&ServerEntry { name: "b".to_string(), label: Some("[Bedrock] B".to_string()), addr: "x:19132".to_string(), stype: Some(0) });
    assert_eq!(s.label, "[Bedrock] B");
    assert_eq!(s.stype, 0);
    let c = complete_config(&ConfigEntry {
        addr: None,
        port: 18650,
        length: 8640,
        interval: 1,
        dbfile: Some("history.db".to_string()),
        servers: vec![
            ServerEntry { name: "fts".to_string(), label: None, addr: "server.fts427.top".to_string(), stype: None },
            ServerEntry { name: "local".to_string(), label: None, addr: "server.fts427.top".to_string(), stype: None },
        ],
    });
    assert_eq!(c.addr, "0.0.0.0");
    assert_eq!(c.port, 18650);
    assert_eq!(c.length, 8640);
    assert_eq!(c.backend.interval, 1);
    assert_eq!(c.backend.dbfile, "history.db");
    assert_eq!(c.servers.len(), 2);
    assert_eq!(c.servers[1].name, "local");
    assert_eq!(c.servers[1].label, "local");
    let c = complete_config(&ConfigEntry { addr: Some("127.0.0.1".to_string()), port: 1, length: 2, interval: 3, dbfile: None, servers: vec![] });
    assert_eq!(c.addr, "127.0.0.1");
    assert_eq!(c.backend.dbfile, "history.db");
}

#[test]
fn timestamps_far_out_are_shown() {
    let d = server_data_from_row(&row(8_210_266_876_799, 1));
    assert!(!d.timestamp.is_empty());
    let d = server_data_from_row(&row(-8_334_601_228_800, 1));
    assert!(!d.timestamp.is_empty());
}

#[test]
fn shown_time_is_the_row_time() {
    let a = server_data_from_row(&row(0, 1));
    assert!(a.timestamp.starts_with("1970-01-01") || a.timestamp.starts_with("1969-12-31"));
    let b = server_data_from_row(&row(1_700_000_000, 1));
    assert!(b.timestamp.starts_with("2023-11-1"));
    assert_ne!(a.timestamp, b.timestamp);
}

#[test]
fn collector_ticks() {
    let p = tick_plan(30, 15);
    assert!(p.sample);
    assert_eq!((p.pause_after_round_ms, p.pause_ms), (1000, 500));
    let p = tick_plan(31, 15);
    assert!(!p.sample);
    assert_eq!((p.pause_after_round_ms, p.pause_ms), (0, 500));
    assert!(tick_plan(-10, 5).sample);
}

#[test]
fn configuration_written_and_read_back_is_unchanged() {
    let c = conf();
    let back = complete_config(&config_entry(&c));
    assert_eq!(back.addr, c.addr);
    assert_eq!((back.port, back.length, back.backend.interval), (c.port, c.length, c.backend.interval));
    assert_eq!(back.backend.dbfile, c.backend.dbfile);
    assert_eq!(back.servers.len(), c.servers.len());
    for (x, y) in back.servers.iter().zip(c.servers.iter()) {
        assert_eq!((&x.name, &x.label, &x.addr, x.stype), (&y.name, &y.label, &y.addr, y.stype));
    }
    let e = config_entry(&ConfigFile::default());
    assert_eq!(e.addr.as_deref(), Some("0.0.0.0"));
    assert_eq!(e.dbfile.as_deref(), Some("history.db"));
    assert_eq!(e.servers[0].label.as_deref(), Some("Server1"));
    assert_eq!(e.servers[0].stype, Some(1));
}

#[test]
fn page_collector_steps() {
    assert_eq!(collect_step(Some((42, 3)), 1000, 15), (Some((1000, 42, 3)), 15));
    assert_eq!(collect_step(None, 1000, 15), (None, 15));
    assert_eq!(insert_sql(), "INSERT INTO mcserver (timestamp, latency, players) VALUES (?1, ?2, ?3)");
}

#[test]
fn shown_range_is_chronos_calendar() {
    assert!(DateTime::from_timestamp(-8_334_601_228_800, 0).is_some());
    assert!(DateTime::from_timestamp(-8_334_601_228_801, 0).is_none());
    assert!(DateTime::from_timestamp(-8_334_601_315_200, 0).is_none());
    assert!(DateTime::from_timestamp(8_210_266_876_799, 0).is_some());
    assert!(DateTime::from_timestamp(8_210_266_876_800, 0).is_none());
}

//! The monitor's configuration file and the records that its collector
//! writes and its API answers with.

use vstd::prelude::*;

verus! {

/// How the collector samples and where it stores the history.
#[derive(Clone, Debug)]
pub struct BackendConfig {
    /// Seconds between samples.
    pub interval: u32,
    /// The history database's file name, inside the data directory.
    pub dbfile: String,
}

/// One monitored Minecraft server.
#[derive(Clone, Debug)]
pub struct SingleServerConfig {
    /// Internal identifier, also the name of its history table.
    pub name: String,
    /// Display name.
    pub label: String,
    /// Address and optional port.
    pub addr: String,
    /// Edition: 1 for Java, 0 for Bedrock.
    pub stype: i8,
}

/// The whole configuration file.
#[derive(Clone, Debug)]
pub struct ConfigFile {
    pub addr: String,
    pub port: u16,
    pub length: u32,
    pub backend: BackendConfig,
    pub servers: Vec<SingleServerConfig>,
}

/// One sample of one server, as the API shows it.
#[derive(Clone, Debug)]
pub struct SingleServerData {
    pub timestamp: String,
    pub stype: i8,
    pub latency: i32,
    pub player: i32,
    pub playerlist: String,
}

/// The API's answer for one server: its label and its latest samples.
#[derive(Clone, Debug)]
pub struct ResponseData {
    pub label: String,
    pub data: Vec<SingleServerData>,
}

/// The API's list of monitored servers, as three aligned columns.
#[derive(Clone, Debug)]
pub struct ResponseList {
    pub typelist: Vec<i8>,
    pub namelist: Vec<String>,
    pub labellist: Vec<String>,
}

/// One round of samples, aligned with the configured servers.
#[derive(Clone, Debug)]
pub struct ResultData {
    pub latencies: Vec<i32>,
    pub players: Vec<i32>,
    pub playerlists: Vec<Vec<String>>,
}

/// One row of a server's history table.
#[derive(Clone, Debug)]
pub struct StoredRow {
    pub timestamp: i64,
    pub stype: i8,
    pub latency: i32,
    pub players: i32,
    pub playerlist: String,
}

/// The column a history row holds at position `k` (from 0) when it is read
/// back with `SELECT *`: the fields of `StoredRow` in their order, so the
/// reader takes the timestamp at 0, the type at 1, the latency at 2, the
/// player count at 3 and the player list at 4.
pub open spec fn stored_row_column(k: int) -> Seq<char> {
    if k == 0 {
        "timestamp"@
    } else if k == 1 {
        "type"@
    } else if k == 2 {
        "latency"@
    } else if k == 3 {
        "players"@
    } else {
        "playerlist"@
    }
}

impl Default for BackendConfig {
    fn default() -> (c: Self)
        ensures
            c.interval == 1,
            c.dbfile@ == "history.db"@,
    {
        BackendConfig { interval: 1, dbfile: String::from_str("history.db") }
    }
}

impl Default for SingleServerConfig {
    fn default() -> (c: Self)
        ensures
            c.name@ == "server"@,
            c.label@ == "Server1"@,
            c.addr@ == "127.0.0.1"@,
            c.stype == 1,
    {
        SingleServerConfig {
            name: String::from_str("server"),
            label: String::from_str("Server1"),
            addr: String::from_str("127.0.0.1"),
            stype: 1,
        }
    }
}

impl Default for SingleServerData {
    fn default() -> (d: Self)
        ensures
            d.timestamp@ == "None"@,
            d.stype == -1,
            d.latency == -1,
            d.player == -1,
            d.playerlist@ == Seq::<char>::empty(),
    {
        SingleServerData {
            timestamp: String::from_str("None"),
            stype: -1,
            latency: -1,
            player: -1,
            playerlist: String::new(),
        }
    }
}

/// The configuration written when none can be read: one Java server.
pub open spec fn is_default_config(c: ConfigFile, addr: Seq<char>) -> bool {
    &&& c.addr@ == addr
    &&& c.port == 9010
    &&& c.length == 100
    &&& c.backend.interval == 1
    &&& c.backend.dbfile@ == "history.db"@
    &&& c.servers@.len() == 1
    &&& c.servers@[0].name@ == "server"@
    &&& c.servers@[0].label@ == "Server1"@
    &&& c.servers@[0].addr@ == "127.0.0.1"@
    &&& c.servers@[0].stype == 1
}

impl Default for ConfigFile {
    /// The API server's default, listening on every interface.
    fn default() -> (c: Self)
        ensures
            is_default_config(c, "0.0.0.0"@),
    {
        let mut servers = Vec::new();
        servers.push(SingleServerConfig::default());
        ConfigFile {
            addr: String::from_str("0.0.0.0"),
            port: 9010,
            length: 100,
            backend: BackendConfig::default(),
            servers,
        }
    }
}

impl ConfigFile {
    /// The collector's default, listening on the loopback interface only.
    pub fn collector_default() -> (c: Self)
        ensures
            is_default_config(c, "127.0.0.1"@),
    {
        let mut servers = Vec::new();
        servers.push(SingleServerConfig::default());
        ConfigFile {
            addr: String::from_str("127.0.0.1"),
            port: 9010,
            length: 100,
            backend: BackendConfig::default(),
            servers,
        }
    }
}

/// A copy of a list of strings.
pub fn clone_strings(v: &Vec<String>) -> (r: Vec<String>)
    ensures
        r@ == v@,
{
    let mut r: Vec<String> = Vec::new();
    let mut i: usize = 0;
    while i < v.len()
        invariant
            i <= v.len(),
            r@ == v@.take(i as int),
        decreases v.len() - i,
    {
        r.push(v[i].clone());
        assert(r@ =~= v@.take(i + 1));
        i = i + 1;
    }
    assert(v@.take(v.len() as int) =~= v@);
    r
}

/// The data directory that holds the configuration and the history.
pub open spec fn data_dir() -> Seq<char> {
    "./data/"@
}

/// The path of the history database: the configured file name inside the
/// data directory.
pub fn database_path(conf: &ConfigFile) -> (path: String)
    ensures
        path@ == data_dir() + conf.backend.dbfile@,
{
    let mut path = String::from_str("./data/");
    path.append(conf.backend.dbfile.as_str());
    path
}

/// A server entry as a configuration file may give it: the label and the
/// type may be left out.
pub struct ServerEntry {
    pub name: String,
    pub label: Option<String>,
    pub addr: String,
    pub stype: Option<i8>,
}

/// A configuration file as it may be given: the listening address, the
/// database file name, and each server's label and type may be left out.
pub struct ConfigEntry {
    pub addr: Option<String>,
    pub port: u16,
    pub length: u32,
    pub interval: u32,
    pub dbfile: Option<String>,
    pub servers: Vec<ServerEntry>,
}

/// The server that an entry configures: a left-out label is the server's
/// name (its display name), a left-out type is Java (1).
pub open spec fn completes_server(s: SingleServerConfig, e: ServerEntry) -> bool {
    &&& s.name@ == e.name@
    &&& s.addr@ == e.addr@
    &&& s.label@ == (match e.label { Some(l) => l@, None => e.name@ })
    &&& s.stype == (match e.stype { Some(t) => t, None => 1i8 })
}

/// Fills in what a server entry leaves out.
pub fn complete_server(e: &ServerEntry) -> (s: SingleServerConfig)
    ensures
        completes_server(s, *e),
{
    let label = match &e.label {
        Some(l) => l.clone(),
        None => e.name.clone(),
    };
    let stype = match e.stype {
        Some(t) => t,
        None => 1,
    };
    SingleServerConfig { name: e.name.clone(), label, addr: e.addr.clone(), stype }
}

/// The configuration that an entry gives: what it leaves out filled in with
/// the address every interface (`0.0.0.0`), the database `history.db`, and
/// each server's label and type.
pub open spec fn completes_config(c: ConfigFile, e: ConfigEntry) -> bool {
    &&& c.addr@ == (match e.addr { Some(a) => a@, None => "0.0.0.0"@ })
    &&& c.port == e.port
    &&& c.length == e.length
    &&& c.backend.interval == e.interval
    &&& c.backend.dbfile@ == (match e.dbfile { Some(d) => d@, None => "history.db"@ })
    &&& c.servers@.len() == e.servers@.len()
    &&& forall|i: int| 0 <= i < e.servers@.len() ==> completes_server(#[trigger] c.servers@[i], e.servers@[i])
}

/// Fills in what a configuration leaves out.
pub fn complete_config(e: &ConfigEntry) -> (c: ConfigFile)
    ensures
        completes_config(c, *e),
{
    let addr = match &e.addr {
        Some(a) => a.clone(),
        None => String::from_str("0.0.0.0"),
    };
    let dbfile = match &e.dbfile {
        Some(d) => d.clone(),
        None => String::from_str("history.db"),
    };
    let mut servers: Vec<SingleServerConfig> = Vec::new();
    let mut i: usize = 0;
    while i < e.servers.len()
        invariant
            i <= e.servers.len(),
            servers@.len() == i,
            forall|k: int| 0 <= k < i ==> completes_server(#[trigger] servers@[k], e.servers@[k]),
        decreases e.servers.len() - i,
    {
        servers.push(complete_server(&e.servers[i]));
        i = i + 1;
    }
    ConfigFile {
        addr,
        port: e.port,
        length: e.length,
        backend: BackendConfig { interval: e.interval, dbfile },
        servers,
    }
}

/// The entry that writes a configuration out in full: nothing left out.
pub open spec fn is_entry_of(e: ConfigEntry, c: ConfigFile) -> bool {
    &&& e.addr matches Some(a) && a@ == c.addr@
    &&& e.port == c.port
    &&& e.length == c.length
    &&& e.interval == c.backend.interval
    &&& e.dbfile matches Some(d) && d@ == c.backend.dbfile@
    &&& e.servers@.len() == c.servers@.len()
    &&& forall|i: int| 0 <= i < c.servers@.len() ==> {
        let s = #[trigger] c.servers@[i];
        let se = e.servers@[i];
        &&& se.name@ == s.name@
        &&& se.label matches Some(l) && l@ == s.label@
        &&& se.addr@ == s.addr@
        &&& se.stype == Some(s.stype)
    }
}

/// The entry that writes a configuration out in full.
pub fn config_entry(c: &ConfigFile) -> (e: ConfigEntry)
    ensures
        is_entry_of(e, *c),
{
    let mut servers: Vec<ServerEntry> = Vec::new();
    let mut i: usize = 0;
    while i < c.servers.len()
        invariant
            i <= c.servers.len(),
            servers@.len() == i,
            forall|k: int| 0 <= k < i ==> {
                let s = #[trigger] c.servers@[k];
                let se = servers@[k];
                &&& se.name@ == s.name@
                &&& se.label matches Some(l) && l@ == s.label@
                &&& se.addr@ == s.addr@
                &&& se.stype == Some(s.stype)
            },
        decreases c.servers.len() - i,
    {
        let s = &c.servers[i];
        servers.push(ServerEntry {
            name: s.name.clone(),
            label: Some(s.label.clone()),
            addr: s.addr.clone(),
            stype: Some(s.stype),
        });
        i = i + 1;
    }
    ConfigEntry {
        addr: Some(c.addr.clone()),
        port: c.port,
        length: c.length,
        interval: c.backend.interval,
        dbfile: Some(c.backend.dbfile.clone()),
        servers,
    }
}

/// Two configurations say the same thing, field by field.
pub open spec fn same_config(a: ConfigFile, b: ConfigFile) -> bool {
    &&& a.addr@ == b.addr@
    &&& a.port == b.port
    &&& a.length == b.length
    &&& a.backend.interval == b.backend.interval
    &&& a.backend.dbfile@ == b.backend.dbfile@
    &&& a.servers@.len() == b.servers@.len()
    &&& forall|i: int| 0 <= i < a.servers@.len() ==> {
        &&& (#[trigger] a.servers@[i]).name@ == b.servers@[i].name@
        &&& a.servers@[i].label@ == b.servers@[i].label@
        &&& a.servers@[i].addr@ == b.servers@[i].addr@
        &&& a.servers@[i].stype == b.servers@[i].stype
    }
}

} // verus!

//! What holds across the monitor's parts: what the API reads back of what the
//! collector wrote, how the page's parts agree, and what the numbers written
//! as text and the samples taken of a ping stand for.

use vstd::prelude::*;
use crate::api::{is_first_named, reads_first_named, shows_row, RecordQuery};
use crate::deps::{is_word, json_string_array};
use crate::model::{completes_config, is_default_config, is_entry_of, same_config, ConfigEntry, ConfigFile, ResultData, SingleServerConfig, SingleServerData, StoredRow, stored_row_column};
use crate::sampler::{create_table_sql, edition_of, insert_row_sql, is_lowercase_name, is_row_written, sample_of, PingOutcome};
use crate::probe::probe_values;
use crate::text::{all_digits, decimal_value, digit_char, fraction_text, lemma_dec_digits_read_back, lemma_decimal_value_push, lemma_digit_char_value, signed_decimal, thousandths_text};
use crate::status::{block_html, blocks_html, lemma_blocks_concat, rate_color, status_color, status_of, LatencyStatus};
use crate::server::online_count;
use crate::web::{seq_sum, window_rate_milli, LENGTH};

verus! {

/// What the API shows of a row that the collector wrote for server `i` is
/// that server's sample: its type, the sampled latency and player count, and
/// the JSON of the listed player names.
pub proof fn lemma_read_back_sample(
    shown: SingleServerData,
    row: StoredRow,
    ts: i64,
    rd: ResultData,
    servers: Seq<SingleServerConfig>,
    i: int,
)
    requires
        0 <= i < servers.len(),
        is_row_written(row, ts, rd, servers, i),
        shows_row(shown, row),
    ensures
        shown.stype == servers[i].stype,
        shown.latency == rd.latencies@[i],
        shown.player == rd.players@[i],
        shown.playerlist@ == json_string_array(rd.playerlists@[i]@.map_values(|s: String| s@)),
{
}

/// The configuration written when none can be read names only servers that
/// the collector accepts and that pass the API server's word check.
pub proof fn lemma_default_config_names_accepted(c: ConfigFile, addr: Seq<char>)
    requires
        is_default_config(c, addr),
    ensures
        forall|i: int| 0 <= i < c.servers@.len() ==> is_lowercase_name(#[trigger] c.servers@[i].name@),
        forall|i: int| 0 <= i < c.servers@.len() ==> is_word(#[trigger] c.servers@[i].name@),
{
    reveal_strlit("server");
    assert forall|i: int| 0 <= i < c.servers@.len() implies is_lowercase_name(#[trigger] c.servers@[i].name@) by {
        assert(i == 0);
        let n = c.servers@[0].name@;
        assert forall|k: int| 0 <= k < n.len() implies 'a' <= #[trigger] n[k] && n[k] <= 'z' by {}
    }
    assert forall|i: int| 0 <= i < c.servers@.len() implies is_word(#[trigger] c.servers@[i].name@) by {
        lemma_collector_names_are_words(c.servers@[i].name@);
    }
}

/// A name that the collector accepts and that is not empty is accepted by
/// the API server's word check too.
pub proof fn lemma_collector_names_are_words(name: Seq<char>)
    requires
        is_lowercase_name(name),
        name.len() > 0,
    ensures
        is_word(name),
{
    assert forall|i: int| 0 <= i < name.len() implies crate::deps::is_word_char(#[trigger] name[i]) by {
        assert('a' <= name[i] && name[i] <= 'z');
    }
}

/// The history blocks begin with the block of the newest sample, so the
/// colour of the page's current status is the colour of its first block.
pub proof fn lemma_first_block_is_current(latencies: Seq<i32>, block: Seq<char>)
    requires
        latencies.len() >= 1,
    ensures
        blocks_html(latencies, block) == block_html(status_color(status_of(latencies[0] as int)), block)
            + blocks_html(latencies.drop_first(), block),
{
    let first = seq![latencies[0]];
    assert(first + latencies.drop_first() =~= latencies);
    lemma_blocks_concat(first, latencies.drop_first(), block);
    assert(first.drop_last() =~= Seq::<i32>::empty());
    assert(blocks_html(Seq::<i32>::empty(), block) =~= Seq::<char>::empty());
    assert(blocks_html(first, block) =~= block_html(status_color(status_of(latencies[0] as int)), block));
}

/// The history endpoint and the latest-sample endpoint read the same server
/// for a name: the same label and the same table, the one reading the latest
/// `length` rows and the other the latest row only.
pub proof fn lemma_both_endpoints_read_one_server(
    servers: Seq<SingleServerConfig>,
    name: Seq<char>,
    history: RecordQuery,
    latest: RecordQuery,
    length: nat,
)
    requires
        reads_first_named(servers, name, history, length),
        reads_first_named(servers, name, latest, 1),
    ensures
        history.label@ == latest.label@,
        history.sql@ == crate::api::latest_rows_sql(name, length),
        latest.sql@ == crate::api::latest_rows_sql(name, 1),
{
    let i = choose|i: int| #[trigger] is_first_named(servers, name, i) && history.label@ == servers[i].label@;
    let j = choose|j: int| #[trigger] is_first_named(servers, name, j) && latest.label@ == servers[j].label@;
    if i < j {
        assert(servers[i].name@ != name);
    } else if j < i {
        assert(servers[j].name@ != name);
    }
}

/// Every row that a round taken on a sampling tick writes carries a
/// timestamp that is a multiple of the interval.
pub proof fn lemma_rows_written_on_ticks(
    row: StoredRow,
    ts: i64,
    rd: ResultData,
    servers: Seq<SingleServerConfig>,
    i: int,
    interval: u32,
)
    requires
        interval > 0,
        (ts as int) % (interval as int) == 0,
        is_row_written(row, ts, rd, servers, i),
    ensures
        (row.timestamp as int) % (interval as int) == 0,
{
}

/// A configuration written out in full and read back is the same
/// configuration: completing its entry fills in nothing.
pub proof fn lemma_config_round_trip(c: ConfigFile, e: ConfigEntry, back: ConfigFile)
    requires
        is_entry_of(e, c),
        completes_config(back, e),
    ensures
        same_config(back, c),
{
    assert forall|i: int| 0 <= i < back.servers@.len() implies {
        &&& (#[trigger] back.servers@[i]).name@ == c.servers@[i].name@
        &&& back.servers@[i].label@ == c.servers@[i].label@
        &&& back.servers@[i].addr@ == c.servers@[i].addr@
        &&& back.servers@[i].stype == c.servers@[i].stype
    } by {
        let se = e.servers@[i];
        assert(crate::model::completes_server(back.servers@[i], se));
    }
}

/// The history table is created with its columns in the order in which the
/// reader takes them by position: timestamp first, then the type, the
/// latency, the player count and the player list, so that a row read back
/// with `SELECT *` shows each value in its own place.
pub proof fn lemma_create_declares_reader_columns(table: Seq<char>)
    ensures
        create_table_sql(table) == "CREATE TABLE IF NOT EXISTS "@ + table + " (\n                "@
            + stored_row_column(0) + " INTEGER PRIMARY KEY,\n                "@
            + stored_row_column(1) + " INTEGER NOT NULL,\n                "@
            + stored_row_column(2) + " INTEGER NOT NULL,\n                "@
            + stored_row_column(3) + " INTEGER NOT NULL,\n                "@
            + stored_row_column(4) + " TEXT NOT NULL\n                )"@,
{
    reveal_strlit("timestamp");
    reveal_strlit("type");
    reveal_strlit("latency");
    reveal_strlit("players");
    reveal_strlit("playerlist");
    reveal_strlit("CREATE TABLE IF NOT EXISTS ");
    reveal_strlit(" (\n                ");
    reveal_strlit(" INTEGER PRIMARY KEY,\n                ");
    reveal_strlit(" INTEGER NOT NULL,\n                ");
    reveal_strlit(" TEXT NOT NULL\n                )");
    reveal_strlit(" (
                timestamp INTEGER PRIMARY KEY,
                type INTEGER NOT NULL,
                latency INTEGER NOT NULL,
                players INTEGER NOT NULL,
                playerlist TEXT NOT NULL
                )");
    assert(create_table_sql(table) =~= "CREATE TABLE IF NOT EXISTS "@ + table + " (\n                "@
            + stored_row_column(0) + " INTEGER PRIMARY KEY,\n                "@
            + stored_row_column(1) + " INTEGER NOT NULL,\n                "@
            + stored_row_column(2) + " INTEGER NOT NULL,\n                "@
            + stored_row_column(3) + " INTEGER NOT NULL,\n                "@
            + stored_row_column(4) + " TEXT NOT NULL\n                )"@);
}

/// The insert statement names the history columns in the order of the
/// reader's positions, so the value bound to `?k` is the one the reader takes
/// at position `k - 1`.
pub proof fn lemma_insert_names_reader_columns(table: Seq<char>)
    ensures
        insert_row_sql(table) == "INSERT INTO "@ + table + " ("@
            + stored_row_column(0) + ", "@ + stored_row_column(1) + ", "@ + stored_row_column(2) + ", "@
            + stored_row_column(3) + ", "@ + stored_row_column(4)
            + ")\n                VALUES (?1,?2,?3,?4,?5)"@,
{
    reveal_strlit("timestamp");
    reveal_strlit("type");
    reveal_strlit("latency");
    reveal_strlit("players");
    reveal_strlit("playerlist");
    reveal_strlit("INSERT INTO ");
    reveal_strlit(" (");
    reveal_strlit(", ");
    reveal_strlit(")\n                VALUES (?1,?2,?3,?4,?5)");
    reveal_strlit(" (timestamp, type, latency, players, playerlist)
                VALUES (?1,?2,?3,?4,?5)");
    assert(insert_row_sql(table) =~= "INSERT INTO "@ + table + " ("@
            + stored_row_column(0) + ", "@ + stored_row_column(1) + ", "@ + stored_row_column(2) + ", "@
            + stored_row_column(3) + ", "@ + stored_row_column(4)
            + ")\n                VALUES (?1,?2,?3,?4,?5)"@);
}

/// A ping that was not answered, or a server that is not pinged at all,
/// gives the sample (-1, -1) with no names, whatever the server's type.
pub proof fn lemma_failed_ping_sample(stype: i8)
    ensures
        sample_of(stype, None) == (-1int, -1int, Seq::<String>::empty()),
        sample_of(stype, Some(PingOutcome::Unreachable)) == (-1int, -1int, Seq::<String>::empty()),
        forall|o: Option<PingOutcome>| edition_of(stype) is None
            ==> #[trigger] sample_of(stype, o) == (-1int, -1int, Seq::<String>::empty()),
{
}

/// An answered ping gives the latency the server answered in; a Java answer
/// that lists players gives the server's reported online count (cut to 32
/// bits) and the listed names, whatever names are listed, and one that lists
/// none gives 0 players. A Bedrock answer counts only for a Bedrock server.
pub proof fn lemma_answered_ping_sample(stype: i8, latency: i32, online: i64, names: Vec<String>, online_players: u32)
    ensures
        stype == 0 || stype == 1 ==> {
            &&& sample_of(stype, Some(PingOutcome::Java { latency, online, sample: Some(names) }))
                == (latency as int, (online as i32) as int, names@)
            &&& sample_of(stype, Some(PingOutcome::Java { latency, online, sample: None }))
                == (latency as int, 0int, Seq::<String>::empty())
        },
        stype == 0 ==> sample_of(stype, Some(PingOutcome::Bedrock { latency, online_players }))
            == (latency as int, online_players as int, Seq::<String>::empty()),
        stype != 0 ==> sample_of(stype, Some(PingOutcome::Bedrock { latency, online_players }))
            == (-1int, -1int, Seq::<String>::empty()),
        0 <= online <= i32::MAX ==> sample_of(1, Some(PingOutcome::Java { latency, online, sample: Some(names) })).1 == online,
{
}

/// The prober stores the latency a server answered in and, for a Java
/// answer, the online count the server reports (cut to 32 bits), whatever
/// player sample the answer lists or omits; a failed ping is stored as
/// (-1, -1) and a Bedrock answer with a player count of -1.
pub proof fn lemma_probe_stores_online_count(latency: i32, online: i64, sample: Option<Vec<String>>, other: Option<Vec<String>>, online_players: u32)
    ensures
        probe_values(PingOutcome::Java { latency, online, sample }) == (latency as int, (online as i32) as int),
        probe_values(PingOutcome::Java { latency, online, sample })
            == probe_values(PingOutcome::Java { latency, online, sample: other }),
        0 <= online <= i32::MAX ==> probe_values(PingOutcome::Java { latency, online, sample }).1 == online,
        probe_values(PingOutcome::Unreachable) == (-1int, -1int),
        probe_values(PingOutcome::Bedrock { latency, online_players }) == (latency as int, -1int),
{
}

/// A name is accepted exactly when each of its characters is one of the 26
/// ASCII lower-case letters, code points 0x61 ('a') to 0x7A ('z') inclusive.
pub proof fn lemma_lowercase_name_is_ascii_range(s: Seq<char>)
    ensures
        is_lowercase_name(s) <==> forall|i: int| 0 <= i < s.len() ==> 0x61 <= (#[trigger] s[i] as int) && (s[i] as int) <= 0x7A,
{
}

/// The history query asks for the latest rows up to a limit written in
/// decimal that reads back as the requested length itself, for every length.
pub proof fn lemma_history_limit_is_length(table: Seq<char>, length: nat)
    ensures
        exists|digits: Seq<char>| {
            &&& crate::api::latest_rows_sql(table, length)
                == "SELECT * FROM "@ + table + " ORDER BY timestamp DESC LIMIT "@ + digits
            &&& digits.len() >= 1
            &&& all_digits(digits)
            &&& #[trigger] decimal_value(digits) == length
            &&& (digits[0] == '0' ==> digits.len() == 1)
        },
{
    let digits = crate::text::dec_digits(length);
    lemma_dec_digits_read_back(length);
    if digits[0] == '0' {
        assert(length == 0);
        assert(digits.len() == 1);
    }
    assert(decimal_value(digits) == length);
}

/// The decimal text of an integer is a '-' exactly when it is negative,
/// followed by digits without a leading zero that read back as its magnitude.
pub proof fn lemma_signed_decimal_read_back(i: int)
    ensures
        exists|digits: Seq<char>| {
            &&& signed_decimal(i) == (if i < 0 { seq!['-'] } else { Seq::<char>::empty() }) + digits
            &&& digits.len() >= 1
            &&& all_digits(digits)
            &&& #[trigger] decimal_value(digits) == (if i < 0 { -i } else { i })
            &&& (digits[0] == '0' ==> digits.len() == 1)
        },
{
    let a: nat = (if i < 0 { -i } else { i }) as nat;
    let digits = crate::text::dec_digits(a);
    lemma_dec_digits_read_back(a);
    assert(signed_decimal(i) =~= (if i < 0 { seq!['-'] } else { Seq::<char>::empty() }) + digits);
    assert(decimal_value(digits) == (if i < 0 { -i } else { i }));
}

/// The text of a number of thousandths `m` is its exact value `m / 1000`: a
/// '-' exactly when it is negative, the whole part in digits without a
/// leading zero, and, when the value is not whole, a '.' and at most three
/// fractional digits, the last of them not a zero.
pub proof fn lemma_thousandths_read_back(m: int)
    ensures
        exists|whole: Seq<char>, frac: Seq<char>| {
            &&& thousandths_text(m) == (if m < 0 { seq!['-'] } else { Seq::<char>::empty() }) + whole
                + (if frac.len() == 0 { Seq::<char>::empty() } else { seq!['.'] + frac })
            &&& whole.len() >= 1
            &&& all_digits(whole)
            &&& (whole[0] == '0' ==> whole.len() == 1)
            &&& frac.len() <= 3
            &&& all_digits(frac)
            &&& (frac.len() > 0 ==> frac.last() != '0')
            &&& #[trigger] decimal_value(whole) * 1000 + #[trigger] decimal_value(frac)
                * (if frac.len() == 1 { 100int } else if frac.len() == 2 { 10int } else { 1int })
                == (if m < 0 { -m } else { m })
        },
{
    let a: int = if m < 0 { -m } else { m };
    let whole = crate::text::dec_digits((a / 1000) as nat);
    lemma_dec_digits_read_back((a / 1000) as nat);
    let f = a % 1000;
    let e = Seq::<char>::empty();
    let d1 = digit_char(f / 100);
    let d2 = digit_char((f / 10) % 10);
    let d3 = digit_char(f % 10);
    lemma_digit_char_value(f / 100);
    lemma_digit_char_value((f / 10) % 10);
    lemma_digit_char_value(f % 10);
    assert(decimal_value(e) == 0);
    lemma_decimal_value_push(e, d1);
    lemma_decimal_value_push(e.push(d1), d2);
    lemma_decimal_value_push(e.push(d1).push(d2), d3);
    assert(a == (a / 1000) * 1000 + f);
    let frac = if f == 0 {
        e
    } else if f % 100 == 0 {
        e.push(d1)
    } else if f % 10 == 0 {
        e.push(d1).push(d2)
    } else {
        e.push(d1).push(d2).push(d3)
    };
    assert(fraction_text(f) =~= (if frac.len() == 0 { Seq::<char>::empty() } else { seq!['.'] + frac }));
    assert(thousandths_text(m) =~= (if m < 0 { seq!['-'] } else { Seq::<char>::empty() }) + whole
        + (if frac.len() == 0 { Seq::<char>::empty() } else { seq!['.'] + frac }));
    assert forall|k: int| 0 <= k < frac.len() implies '0' <= #[trigger] frac[k] && frac[k] <= '9' by {}
    assert(decimal_value(whole) * 1000 + decimal_value(frac)
        * (if frac.len() == 1 { 100int } else if frac.len() == 2 { 10int } else { 1int })
        == a);
}

/// The count of answered samples adds up over a run split in two, and a
/// single sample counts once exactly when its latency is 0 or more; so a run
/// counts its full length exactly when every sample answered, and nothing
/// exactly when none did.
pub proof fn lemma_online_count_counts_answers(a: Seq<i32>, b: Seq<i32>, x: i32)
    ensures
        online_count(a + b) == online_count(a) + online_count(b),
        online_count(seq![x]) == (if x >= 0 { 1nat } else { 0nat }),
        (online_count(a) == a.len()) == (forall|j: int| 0 <= j < a.len() ==> #[trigger] a[j] >= 0),
        (online_count(a) == 0) == (forall|j: int| 0 <= j < a.len() ==> #[trigger] a[j] < 0),
    decreases b.len(),
{
    assert(seq![x].drop_last() =~= Seq::<i32>::empty());
    assert(online_count(Seq::<i32>::empty()) == 0);
    assert(seq![x].last() == x);
    assert(online_count(seq![x]) == online_count(seq![x].drop_last()) + if seq![x].last() >= 0 { 1nat } else { 0nat });
    if b.len() > 0 {
        lemma_online_count_counts_answers(a, b.drop_last(), x);
        assert((a + b).drop_last() =~= a + b.drop_last());
        assert((a + b).last() == b.last());
    } else {
        assert(a + b =~= a);
    }
    lemma_online_count_full_or_none(a);
}

/// A run counts its full length exactly when every sample answered, and
/// nothing exactly when none did.
proof fn lemma_online_count_full_or_none(a: Seq<i32>)
    ensures
        online_count(a) <= a.len(),
        (online_count(a) == a.len()) == (forall|j: int| 0 <= j < a.len() ==> #[trigger] a[j] >= 0),
        (online_count(a) == 0) == (forall|j: int| 0 <= j < a.len() ==> #[trigger] a[j] < 0),
    decreases a.len(),
{
    if a.len() > 0 {
        let p = a.drop_last();
        lemma_online_count_full_or_none(p);
        assert forall|j: int| 0 <= j < p.len() implies #[trigger] p[j] == a[j] by {}
        assert(a.last() == a[a.len() - 1]);
        if forall|j: int| 0 <= j < a.len() ==> #[trigger] a[j] >= 0 {
            assert forall|j: int| 0 <= j < p.len() implies #[trigger] p[j] >= 0 by {
                assert(a[j] >= 0);
            }
        }
        if forall|j: int| 0 <= j < a.len() ==> #[trigger] a[j] < 0 {
            assert forall|j: int| 0 <= j < p.len() implies #[trigger] p[j] < 0 by {
                assert(a[j] < 0);
            }
        }
        if forall|j: int| 0 <= j < p.len() ==> #[trigger] p[j] >= 0 {
            if a.last() >= 0 {
                assert forall|j: int| 0 <= j < a.len() implies #[trigger] a[j] >= 0 by {
                    if j < p.len() {
                        assert(p[j] >= 0);
                    }
                }
            }
        }
        if forall|j: int| 0 <= j < p.len() ==> #[trigger] p[j] < 0 {
            if a.last() < 0 {
                assert forall|j: int| 0 <= j < a.len() implies #[trigger] a[j] < 0 by {
                    if j < p.len() {
                        assert(p[j] < 0);
                    }
                }
            }
        }
    }
}

/// The colour of an availability rate (in thousandths of a percent point) is
/// the colour of an online sample from 90 up, that of a slow sample from 50
/// up to below 90, and that of a failed sample below 50.
pub proof fn lemma_rate_color_thresholds(rate_milli: int)
    ensures
        rate_milli >= 90000 ==> rate_color(rate_milli) == status_color(LatencyStatus::Online),
        50000 <= rate_milli < 90000 ==> rate_color(rate_milli) == status_color(LatencyStatus::HighLatency),
        rate_milli < 50000 ==> rate_color(rate_milli) == status_color(LatencyStatus::Offline),
        rate_color(rate_milli) == "#90ee90"@ <==> rate_milli >= 90000,
        rate_color(rate_milli) == "#ff0000"@ <==> rate_milli < 50000,
{
    reveal_strlit("#90ee90");
    reveal_strlit("#ffff00");
    reveal_strlit("#ff0000");
    assert("#90ee90"@[1] != "#ffff00"@[1]);
    assert("#90ee90"@[1] != "#ff0000"@[1]);
    assert("#ffff00"@[3] != "#ff0000"@[3]);
}

/// The page's rate is the mean of its hundred latencies, the sum taken in
/// 32 bits, given exactly in thousandths.
pub proof fn lemma_window_rate_is_mean(latencies: Seq<i32>)
    ensures
        window_rate_milli(latencies) * (LENGTH as int) == 1000 * ((seq_sum(latencies) as i32) as int),
{
}

/// The API server's word check accepts exactly the non-empty names whose
/// characters are ASCII digits (0x30 to 0x39), upper-case letters (0x41 to
/// 0x5A), the underscore (0x5F) or lower-case letters (0x61 to 0x7A).
pub proof fn lemma_word_is_ascii_ranges(s: Seq<char>)
    ensures
        is_word(s) <==> s.len() > 0 && forall|i: int| 0 <= i < s.len() ==> {
            let c = #[trigger] s[i] as int;
            (0x30 <= c <= 0x39) || (0x41 <= c <= 0x5A) || c == 0x5F || (0x61 <= c <= 0x7A)
        },
{
}

} // verus!

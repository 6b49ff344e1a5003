//! The status page of one monitored server: the latest hundred samples,
//! judged and summed up.

use vstd::prelude::*;
use crate::status::{
    blocks_html, classify, color_of, color_of_rate, label_of, rate_color, render_blocks,
    status_color, status_label, status_of, LangText,
};
use crate::text::{push_thousandths, thousandths_text};

verus! {

/// How many samples the page shows.
pub const LENGTH: usize = 100;

/// One stored sample: when it was taken, the latency and the player count.
#[derive(Clone, Copy, Debug, PartialEq, Eq)]
pub struct HistorySample {
    pub timestamp: i64,
    pub latency: i32,
    pub players: i32,
}

/// `s` padded with `zero` up to `n` entries.
pub open spec fn padded<T>(s: Seq<T>, n: nat, zero: T) -> Seq<T> {
    Seq::new(n, |i: int| if i < s.len() { s[i] } else { zero })
}

/// The sum of a run of samples.
pub open spec fn seq_sum(s: Seq<i32>) -> int
    decreases s.len(),
{
    if s.len() == 0 {
        0
    } else {
        seq_sum(s.drop_last()) + s.last()
    }
}

/// The three columns of the latest samples, newest first, each padded with
/// zeros to `LENGTH` entries.
pub fn fill_window(rows: &Vec<HistorySample>) -> (cols: (Vec<i64>, Vec<i32>, Vec<i32>))
    requires
        rows.len() <= LENGTH,
    ensures
        cols.0@ == padded(rows@.map_values(|r: HistorySample| r.timestamp), LENGTH as nat, 0i64),
        cols.1@ == padded(rows@.map_values(|r: HistorySample| r.latency), LENGTH as nat, 0i32),
        cols.2@ == padded(rows@.map_values(|r: HistorySample| r.players), LENGTH as nat, 0i32),
{
    let mut timestamps: Vec<i64> = Vec::new();
    let mut latencies: Vec<i32> = Vec::new();
    let mut players: Vec<i32> = Vec::new();
    let mut i: usize = 0;
    while i < LENGTH
        invariant
            i <= LENGTH,
            rows.len() <= LENGTH,
            timestamps@.len() == i,
            latencies@.len() == i,
            players@.len() == i,
            forall|j: int| 0 <= j < i ==> #[trigger] timestamps@[j] == (if j < rows@.len() { rows@[j].timestamp } else { 0i64 }),
            forall|j: int| 0 <= j < i ==> #[trigger] latencies@[j] == (if j < rows@.len() { rows@[j].latency } else { 0i32 }),
            forall|j: int| 0 <= j < i ==> #[trigger] players@[j] == (if j < rows@.len() { rows@[j].players } else { 0i32 }),
        decreases LENGTH - i,
    {
        if i < rows.len() {
            timestamps.push(rows[i].timestamp);
            latencies.push(rows[i].latency);
            players.push(rows[i].players);
        } else {
            timestamps.push(0);
            latencies.push(0);
            players.push(0);
        }
        i = i + 1;
    }
    assert(timestamps@ =~= padded(rows@.map_values(|r: HistorySample| r.timestamp), LENGTH as nat, 0i64));
    assert(latencies@ =~= padded(rows@.map_values(|r: HistorySample| r.latency), LENGTH as nat, 0i32));
    assert(players@ =~= padded(rows@.map_values(|r: HistorySample| r.players), LENGTH as nat, 0i32));
    (timestamps, latencies, players)
}

/// The sum of all samples in 32-bit arithmetic that wraps on overflow, as
/// the release build adds them: the true sum cut to an `i32`.
pub fn sum_latencies(latencies: &Vec<i32>) -> (sum: i32)
    ensures
        sum == seq_sum(latencies@) as i32,
{
    let mut total: i128 = 0;
    let mut i: usize = 0;
    while i < latencies.len()
        invariant
            i <= latencies.len(),
            total == seq_sum(latencies@.take(i as int)),
            -(i as int) * 2147483648 <= total <= (i as int) * 2147483647,
        decreases latencies.len() - i,
    {
        assert(latencies@.take(i + 1).drop_last() =~= latencies@.take(i as int));
        total = total + latencies[i] as i128;
        i = i + 1;
    }
    assert(latencies@.take(latencies.len() as int) =~= latencies@);
    total as i32
}

/// The page's rate, in thousandths: the 32-bit sum of the hundred latencies
/// divided by a hundred.
pub open spec fn window_rate_milli(latencies: Seq<i32>) -> int {
    10 * ((seq_sum(latencies) as i32) as int)
}

/// The page's five texts: the colour and label of the latest sample, the
/// colour and text of the rate, and the history blocks.
pub fn generate_data(latencies: &Vec<i32>, lang: &LangText) -> (page: (String, String, String, String, String))
    requires
        latencies.len() == LENGTH,
    ensures
        page.0@ == status_color(status_of(latencies@[0] as int)),
        page.1@ == status_label(*lang, status_of(latencies@[0] as int)),
        page.2@ == rate_color(window_rate_milli(latencies@)),
        page.3@ == thousandths_text(window_rate_milli(latencies@)),
        page.4@ == blocks_html(latencies@, lang.block@),
{
    let current = classify(latencies[0]);
    let color1 = String::from_str(color_of(current));
    let label = label_of(lang, current);
    let sum = sum_latencies(latencies);
    let rate_milli: i64 = 10 * (sum as i64);
    let color2 = String::from_str(color_of_rate(rate_milli));
    let mut rate = String::new();
    push_thousandths(&mut rate, rate_milli);
    assert(rate@ =~= thousandths_text(window_rate_milli(latencies@)));
    let verbose = render_blocks(latencies, lang.block.as_str());
    (color1, label, color2, rate, verbose)
}

/// What the page template is filled with.
pub struct IndexContext {
    pub color1: String,
    pub status: String,
    pub color2: String,
    pub rate: String,
    pub verbose: String,
}

/// The page for the latest samples, newest first. The window is padded with
/// zero latencies, so a history with no rows shows as online.
pub fn root_data(rows: &Vec<HistorySample>, lang: &LangText) -> (ctx: IndexContext)
    requires
        rows.len() <= LENGTH,
    ensures
        ({
            let lat = padded(rows@.map_values(|r: HistorySample| r.latency), LENGTH as nat, 0i32);
            &&& ctx.color1@ == status_color(status_of(lat[0] as int))
            &&& ctx.status@ == status_label(*lang, status_of(lat[0] as int))
            &&& ctx.color2@ == rate_color(window_rate_milli(lat))
            &&& ctx.rate@ == thousandths_text(window_rate_milli(lat))
            &&& ctx.verbose@ == blocks_html(lat, lang.block@)
        }),
{
    let (_, latencies, _) = fill_window(rows);
    let (color1, status, color2, rate, verbose) = generate_data(&latencies, lang);
    IndexContext { color1, status, color2, rate, verbose }
}

} // verus!

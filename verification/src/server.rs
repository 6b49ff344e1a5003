//! The JSON status endpoint: the latest samples of the history table,
//! summed up as an availability rate.

use vstd::prelude::*;
use crate::status::{
    blocks_html, classify, color_of, color_of_rate, label_of, rate_color, render_blocks,
    status_color, status_label, status_of, LangText,
};
use crate::text::{push_thousandths, thousandths_text};

verus! {

/// How many samples of a run answered at all (a latency of 0 or more).
pub open spec fn online_count(s: Seq<i32>) -> nat
    decreases s.len(),
{
    if s.len() == 0 {
        0
    } else {
        online_count(s.drop_last()) + if s.last() >= 0 { 1nat } else { 0nat }
    }
}

/// The summary the endpoint sends.
pub struct MonitorData {
    pub color1: String,
    pub current: String,
    pub color2: String,
    pub rate: String,
    pub verboseinfo: String,
}

/// The endpoint's answer: a code, a message, and the summary.
pub struct ApiResponse {
    pub code: u32,
    pub message: String,
    pub data: MonitorData,
}

/// Counts the answered samples; the rate is a hundred times this count over
/// the expected number of samples.
pub fn count_online(latencies: &Vec<i32>) -> (n: u64)
    ensures
        n == online_count(latencies@),
        n <= latencies.len(),
{
    let mut n: u64 = 0;
    let mut i: usize = 0;
    while i < latencies.len()
        invariant
            i <= latencies.len(),
            n == online_count(latencies@.take(i as int)),
            n <= i,
        decreases latencies.len() - i,
    {
        assert(latencies@.take(i + 1).drop_last() =~= latencies@.take(i as int));
        if latencies[i] >= 0 {
            n = n + 1;
        }
        i = i + 1;
    }
    assert(latencies@.take(latencies.len() as int) =~= latencies@);
    n
}

/// The summary of the latest samples (newest first) with the availability
/// rate given in thousandths of a percent point: the colour and label of the
/// newest sample, the rate's text and colour, and the history blocks.
pub fn generate_data(latencies: &Vec<i32>, rate_milli: i64, lang: &LangText) -> (md: MonitorData)
    requires
        latencies.len() >= 1,
    ensures
        md.color1@ == status_color(status_of(latencies@[0] as int)),
        md.current@ == status_label(*lang, status_of(latencies@[0] as int)),
        md.color2@ == rate_color(rate_milli as int),
        md.rate@ == thousandths_text(rate_milli as int),
        md.verboseinfo@ == blocks_html(latencies@, lang.block@),
{
    let current = classify(latencies[0]);
    let color1 = String::from_str(color_of(current));
    let label = label_of(lang, current);
    let color2 = String::from_str(color_of_rate(rate_milli));
    let mut rate = String::new();
    push_thousandths(&mut rate, rate_milli);
    let verbose = render_blocks(latencies, lang.block.as_str());
    MonitorData { color1, current: label, color2, rate, verboseinfo: verbose }
}

/// The endpoint: code 200 and "ok" with the summary of the latest samples.
pub fn root_data(latencies: &Vec<i32>, rate_milli: i64, lang: &LangText) -> (resp: ApiResponse)
    requires
        latencies.len() >= 1,
    ensures
        resp.code == 200,
        resp.message@ == "ok"@,
        resp.data.color1@ == status_color(status_of(latencies@[0] as int)),
        resp.data.current@ == status_label(*lang, status_of(latencies@[0] as int)),
        resp.data.color2@ == rate_color(rate_milli as int),
        resp.data.rate@ == thousandths_text(rate_milli as int),
        resp.data.verboseinfo@ == blocks_html(latencies@, lang.block@),
{
    let data = generate_data(latencies, rate_milli, lang);
    ApiResponse { code: 200, message: String::from_str("ok"), data }
}

/// More answered samples in the same places never lower the count: where
/// one run answered, a run of the same length answered too.
pub proof fn lemma_online_count_monotone(a: Seq<i32>, b: Seq<i32>)
    requires
        a.len() == b.len(),
        forall|j: int| 0 <= j < a.len() && a[j] >= 0 ==> b[j] >= 0,
    ensures
        online_count(a) <= online_count(b),
    decreases a.len(),
{
    if a.len() > 0 {
        lemma_online_count_monotone(a.drop_last(), b.drop_last());
        assert(a.last() == a[a.len() - 1]);
    }
}

} // verus!

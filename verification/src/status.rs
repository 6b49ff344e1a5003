//! How a latency sample is judged, and how the judgement is shown.

use vstd::prelude::*;
use crate::deps::{json_parses, json_string_field, json_text_field, yaml_parses, yaml_string_field, yaml_text_field};


verus! {

/// What one latency sample says of a server.
#[derive(Clone, Copy, Debug, PartialEq, Eq)]
pub enum LatencyStatus {
    /// Answered within 150 ms.
    Online,
    /// Answered, but slower than 150 ms.
    HighLatency,
    /// Did not answer: a negative latency marks a failed ping.
    Offline,
}

/// The judgement of a latency in milliseconds.
pub open spec fn status_of(latency: int) -> LatencyStatus {
    if 0 <= latency && latency <= 150 {
        LatencyStatus::Online
    } else if latency > 150 {
        LatencyStatus::HighLatency
    } else {
        LatencyStatus::Offline
    }
}

/// The CSS colour that shows a judgement.
pub open spec fn status_color(s: LatencyStatus) -> Seq<char> {
    match s {
        LatencyStatus::Online => "#90ee90"@,
        LatencyStatus::HighLatency => "#ffff00"@,
        LatencyStatus::Offline => "#ff0000"@,
    }
}

/// The level of an availability rate given in thousandths of a percent
/// point: 2 from 90 up, 1 from 50 up, 0 below.
pub open spec fn rate_level(rate_milli: int) -> int {
    if rate_milli >= 90000 {
        2
    } else if rate_milli >= 50000 {
        1
    } else {
        0
    }
}

/// The CSS colour of an availability rate given in thousandths of a percent
/// point: green from 90 up, yellow from 50 up, red below.
pub open spec fn rate_color(rate_milli: int) -> Seq<char> {
    if rate_level(rate_milli) == 2 {
        "#90ee90"@
    } else if rate_level(rate_milli) == 1 {
        "#ffff00"@
    } else {
        "#ff0000"@
    }
}

/// A higher rate never gets a worse colour: red, then yellow, then green.
pub proof fn lemma_rate_level_monotone(a: int, b: int)
    requires
        a <= b,
    ensures
        rate_level(a) <= rate_level(b),
{
}

/// The texts that a page shows, in the page's language.
pub struct LangText {
    /// Shown when the latest sample is online.
    pub online: String,
    /// Shown when the latest sample is slow.
    pub hl: String,
    /// Shown when the latest sample failed.
    pub offline: String,
    /// The glyph of one history block.
    pub block: String,
}

/// The texts used when no language file can be read: English labels and a
/// filled square as the block glyph.
pub fn fallback_lang() -> (lang: LangText)
    ensures
        lang.online@ == "Online"@,
        lang.hl@ == "High Latency"@,
        lang.offline@ == "Offline"@,
        lang.block@ == "■"@,
{
    LangText {
        online: String::from_str("Online"),
        hl: String::from_str("High Latency"),
        offline: String::from_str("Offline"),
        block: String::from_str("■"),
    }
}

/// The label of a judgement in the page's language.
pub open spec fn status_label(lang: LangText, s: LatencyStatus) -> Seq<char> {
    match s {
        LatencyStatus::Online => lang.online@,
        LatencyStatus::HighLatency => lang.hl@,
        LatencyStatus::Offline => lang.offline@,
    }
}

/// One history block: a span coloured by the judgement of one sample.
pub open spec fn block_html(color: Seq<char>, block: Seq<char>) -> Seq<char> {
    "<span class=\"block\" style=\"color : "@ + color + ";\">"@ + block + "</span>"@
}

/// The history blocks of a run of samples, one block per sample in the run's
/// order (the pages pass the newest sample first, so its block leads).
pub open spec fn blocks_html(latencies: Seq<i32>, block: Seq<char>) -> Seq<char>
    decreases latencies.len(),
{
    if latencies.len() == 0 {
        Seq::empty()
    } else {
        blocks_html(latencies.drop_last(), block)
            + block_html(status_color(status_of(latencies.last() as int)), block)
    }
}

/// Judges a latency in milliseconds.
pub fn classify(latency: i32) -> (s: LatencyStatus)
    ensures
        s == status_of(latency as int),
{
    if latency >= 0 && latency <= 150 {
        LatencyStatus::Online
    } else if latency > 150 {
        LatencyStatus::HighLatency
    } else {
        LatencyStatus::Offline
    }
}

/// The colour of a judgement.
pub fn color_of(s: LatencyStatus) -> (c: &'static str)
    ensures
        c@ == status_color(s),
{
    match s {
        LatencyStatus::Online => "#90ee90",
        LatencyStatus::HighLatency => "#ffff00",
        LatencyStatus::Offline => "#ff0000",
    }
}

/// The colour of an availability rate in thousandths of a percent point.
pub fn color_of_rate(rate_milli: i64) -> (c: &'static str)
    ensures
        c@ == rate_color(rate_milli as int),
{
    if rate_milli >= 90000 {
        "#90ee90"
    } else if rate_milli >= 50000 {
        "#ffff00"
    } else {
        "#ff0000"
    }
}

/// The label of a judgement in the page's language.
pub fn label_of(lang: &LangText, s: LatencyStatus) -> (l: String)
    ensures
        l@ == status_label(*lang, s),
{
    match s {
        LatencyStatus::Online => lang.online.clone(),
        LatencyStatus::HighLatency => lang.hl.clone(),
        LatencyStatus::Offline => lang.offline.clone(),
    }
}

/// Appends one history block.
pub fn push_block(out: &mut String, color: &str, block: &str)
    ensures
        final(out)@ == old(out)@ + block_html(color@, block@),
{
    out.append("<span class=\"block\" style=\"color : ");
    out.append(color);
    out.append(";\">");
    out.append(block);
    out.append("</span>");
    assert(final(out)@ =~= old(out)@ + block_html(color@, block@));
}

/// The history blocks of all samples, in order.
pub fn render_blocks(latencies: &Vec<i32>, block: &str) -> (html: String)
    ensures
        html@ == blocks_html(latencies@, block@),
{
    let mut html = String::new();
    let mut i: usize = 0;
    while i < latencies.len()
        invariant
            i <= latencies.len(),
            html@ == blocks_html(latencies@.take(i as int), block@),
        decreases latencies.len() - i,
    {
        let c = color_of(classify(latencies[i]));
        push_block(&mut html, c, block);
        assert(latencies@.take(i + 1).drop_last() =~= latencies@.take(i as int));
        i = i + 1;
    }
    assert(latencies@.take(latencies.len() as int) =~= latencies@);
    html
}

/// Rendering the blocks of two runs of samples one after the other gives the
/// blocks of the joined run.
pub proof fn lemma_blocks_concat(a: Seq<i32>, b: Seq<i32>, block: Seq<char>)
    ensures
        blocks_html(a + b, block) == blocks_html(a, block) + blocks_html(b, block),
    decreases b.len(),
{
    if b.len() == 0 {
        assert(a + b =~= a);
        assert(blocks_html(b, block) =~= Seq::<char>::empty());
        assert(blocks_html(a, block) + Seq::<char>::empty() =~= blocks_html(a, block));
    } else {
        lemma_blocks_concat(a, b.drop_last(), block);
        assert((a + b).drop_last() =~= a + b.drop_last());
        assert((a + b).last() == b.last());
        assert(blocks_html(a + b, block) =~= blocks_html(a, block) + blocks_html(b, block));
    }
}

/// Every sample is judged one way exactly, by its latency alone: online from
/// 0 to 150 ms, slow above, failed below 0.
pub proof fn lemma_status_partition(latency: int)
    ensures
        (status_of(latency) == LatencyStatus::Online) == (0 <= latency <= 150),
        (status_of(latency) == LatencyStatus::HighLatency) == (latency > 150),
        (status_of(latency) == LatencyStatus::Offline) == (latency < 0),
{
}

/// The notation of a language file.
#[derive(Clone, Copy, Debug, PartialEq, Eq)]
pub enum LangFormat {
    Json,
    Yaml,
}

/// Whether a language file's text parses in its notation.
pub open spec fn lang_parses(format: LangFormat, text: Seq<char>) -> bool {
    match format {
        LangFormat::Json => json_parses(text),
        LangFormat::Yaml => yaml_parses(text),
    }
}

/// The string a language file holds under a key.
pub open spec fn lang_field(format: LangFormat, text: Seq<char>, key: Seq<char>) -> Option<Seq<char>> {
    match format {
        LangFormat::Json => json_text_field(text, key),
        LangFormat::Yaml => yaml_text_field(text, key),
    }
}

/// The key of a judgement's label in a language file.
pub open spec fn lang_key(s: LatencyStatus) -> Seq<char> {
    match s {
        LatencyStatus::Online => "online"@,
        LatencyStatus::HighLatency => "hl"@,
        LatencyStatus::Offline => "offline"@,
    }
}

/// The key of a judgement's label.
pub fn lang_key_of(s: LatencyStatus) -> (k: &'static str)
    ensures
        k@ == lang_key(s),
{
    match s {
        LatencyStatus::Online => "online",
        LatencyStatus::HighLatency => "hl",
        LatencyStatus::Offline => "offline",
    }
}

fn read_lang_field(format: LangFormat, text: &str, key: &str) -> (r: Result<Option<String>, String>)
    ensures
        r is Ok <==> lang_parses(format, text@),
        r matches Ok(Some(v)) ==> lang_field(format, text@, key@) == Some(v@),
        r matches Ok(None) ==> lang_field(format, text@, key@) is None,
{
    match format {
        LangFormat::Json => json_string_field(text, key),
        LangFormat::Yaml => yaml_string_field(text, key),
    }
}

/// The message for a key that a language file holds no string under.
pub open spec fn missing_key_message(key: Seq<char>) -> Seq<char> {
    "no text under the key "@ + key + " in the language file"@
}

fn missing_key(key: &str) -> (msg: String)
    ensures
        msg@ == missing_key_message(key@),
{
    let mut msg = String::from_str("no text under the key ");
    msg.append(key);
    msg.append(" in the language file");
    msg
}

/// The texts a page shows when its newest sample is judged `current`: from
/// the language file's text when there is one, else the built-in texts. A
/// page reads only the label of the current judgement and the block glyph,
/// so only those two keys must hold strings; the other labels are left
/// empty. An `Err` carries the parse error's text or names the missing key.
pub fn page_lang(file: Option<&str>, format: LangFormat, current: LatencyStatus) -> (r: Result<LangText, String>)
    ensures
        file is None ==> (r matches Ok(l) && l.online@ == "Online"@ && l.hl@ == "High Latency"@
            && l.offline@ == "Offline"@ && l.block@ == "■"@),
        file matches Some(t) ==> (r is Ok <==> (lang_parses(format, t@)
            && lang_field(format, t@, lang_key(current)) is Some
            && lang_field(format, t@, "block"@) is Some)),
        file matches Some(t) ==> (r matches Ok(l) ==>
            lang_field(format, t@, lang_key(current)) == Some(status_label(l, current))
            && lang_field(format, t@, "block"@) == Some(l.block@)),
        file matches Some(t) ==> (r matches Err(m) ==> lang_parses(format, t@) ==> (
            (lang_field(format, t@, lang_key(current)) is None && m@ == missing_key_message(lang_key(current)))
            || (lang_field(format, t@, lang_key(current)) is Some && lang_field(format, t@, "block"@) is None
                && m@ == missing_key_message("block"@)))),
{
    match file {
        None => Ok(fallback_lang()),
        Some(text) => {
            let key = lang_key_of(current);
            let label = match read_lang_field(format, text, key) {
                Ok(Some(v)) => v,
                Ok(None) => return Err(missing_key(key)),
                Err(e) => return Err(e),
            };
            let block = match read_lang_field(format, text, "block") {
                Ok(Some(v)) => v,
                Ok(None) => return Err(missing_key("block")),
                Err(e) => return Err(e),
            };
            let mut lang = LangText {
                online: String::new(),
                hl: String::new(),
                offline: String::new(),
                block,
            };
            match current {
                LatencyStatus::Online => lang.online = label,
                LatencyStatus::HighLatency => lang.hl = label,
                LatencyStatus::Offline => lang.offline = label,
            }
            Ok(lang)
        },
    }
}

} // verus!

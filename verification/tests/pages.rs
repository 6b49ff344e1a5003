use mcsrvmonitor::midend::index;
use mcsrvmonitor::server;
use mcsrvmonitor::status::{
    fallback_lang, lang_key_of, page_lang, render_blocks, LangFormat, LangText, LatencyStatus,
};
use mcsrvmonitor::web::{fill_window, generate_data, root_data, sum_latencies, HistorySample, LENGTH};

fn lang() -> LangText {
    LangText {
        online: "Online".to_string(),
        hl: "High Latency".to_string(),
        offline: "Offline".to_string(),
        block: "■".to_string(),
    }
}

fn sample(t: i64, l: i32, p: i32) -> HistorySample {
    HistorySample { timestamp: t, latency: l, players: p }
}

#[test]
fn window_is_padded_with_zeros() {
    let rows = vec![sample(30, 20, 3), sample(20, -1, -1), sample(10, 200, 5)];
    let (t, l, p) = fill_window(&rows);
    assert_eq!(t.len(), LENGTH);
    assert_eq!(l.len(), LENGTH);
    assert_eq!(p.len(), LENGTH);
    assert_eq!(&t[..3], &[30, 20, 10]);
    assert_eq!(&l[..3], &[20, -1, 200]);
    assert_eq!(&p[..3], &[3, -1, 5]);
    assert!(t[3..].iter().all(|x| *x == 0));
    assert!(l[3..].iter().all(|x| *x == 0));
    assert!(p[3..].iter().all(|x| *x == 0));
}

#[test]
fn midend_index_sends_padded_columns() {
    let rows = vec![sample(5, 40, 2)];
    let rd = index(&rows);
    assert_eq!(rd.timestamps.len(), 100);
    assert_eq!(rd.timestamps[0], 5);
    assert_eq!(rd.latencys[0], 40);
    assert_eq!(rd.players[0], 2);
    assert_eq!(rd.latencys[1], 0);
}

#[test]
fn sum_of_window() {
    assert_eq!(sum_latencies(&vec![1, 2, 3, -1]), 5);
    assert_eq!(sum_latencies(&vec![]), 0);
}

#[test]
fn web_page_texts() {
    let mut lat = vec![0i32; LENGTH];
    lat[0] = 120;
    lat[1] = 300;
    lat[2] = -1;
    let (c1, status, c2, rate, verbose) = generate_data(&lat, &lang());
    assert_eq!(c1, "#90ee90");
    assert_eq!(status, "Online");
    // (120 + 300 - 1) / 100 = 4.19
    assert_eq!(rate, "4.19");
    assert_eq!(c2, "#ff0000");
    assert_eq!(verbose, render_blocks(&lat, "■"));
}

#[test]
fn web_page_rate_colours() {
    let lat = vec![95i32; LENGTH];
    let (_, _, c2, rate, _) = generate_data(&lat, &lang());
    assert_eq!(rate, "95");
    assert_eq!(c2, "#90ee90");
    let lat = vec![60i32; LENGTH];
    let (c1, _, c2, rate, _) = generate_data(&lat, &lang());
    assert_eq!(rate, "60");
    assert_eq!(c2, "#ffff00");
    assert_eq!(c1, "#90ee90");
    let mut lat = vec![-1i32; LENGTH];
    lat[0] = 151;
    let (c1, status, _, rate, _) = generate_data(&lat, &lang());
    assert_eq!(c1, "#ffff00");
    assert_eq!(status, "High Latency");
    assert_eq!(rate, "0.52");
    let lat = vec![-1i32; LENGTH];
    let (c1, status, c2, rate, _) = generate_data(&lat, &lang());
    assert_eq!(c1, "#ff0000");
    assert_eq!(status, "Offline");
    assert_eq!(c2, "#ff0000");
    assert_eq!(rate, "-1");
}

#[test]
fn web_root_data_from_rows() {
    let rows = vec![sample(30, -1, -1), sample(20, 10, 1)];
    let ctx = root_data(&rows, &lang());
    assert_eq!(ctx.color1, "#ff0000");
    assert_eq!(ctx.status, "Offline");
    assert_eq!(ctx.rate, "0.09");
    assert_eq!(ctx.color2, "#ff0000");
    let mut lat = vec![0i32; LENGTH];
    lat[0] = -1;
    lat[1] = 10;
    assert_eq!(ctx.verbose, render_blocks(&lat, "■"));
}

/// The summary with the rate rounded as the status server does: in f64,
/// `advanced_round(100 * answered / length, 3)`.
fn summary(lat: &Vec<i32>, length: u32) -> server::MonitorData {
    let k = server::count_online(lat);
    let m = ((100 * k) as f64 / length as f64 * 10_f64.powi(3)).round() as i64;
    server::generate_data(lat, m, &lang())
}

#[test]
fn answered_samples_are_counted() {
    assert_eq!(server::count_online(&vec![20, -1, 300, 0]), 3);
    assert_eq!(server::count_online(&vec![]), 0);
    assert_eq!(server::count_online(&vec![-5, -1]), 0);
}

#[test]
fn server_summary_from_given_rate() {
    let md = server::generate_data(&vec![20, -1, 300], 66667, &lang());
    assert_eq!(md.rate, "66.667");
    assert_eq!(md.color2, "#ffff00");
    assert_eq!(md.color1, "#90ee90");
    assert_eq!(md.current, "Online");
    assert_eq!(md.verboseinfo, render_blocks(&vec![20, -1, 300], "■"));
    let md = server::generate_data(&vec![-1, 5], 50000, &lang());
    assert_eq!(md.rate, "50");
    assert_eq!(md.color2, "#ffff00");
    assert_eq!(md.current, "Offline");
    let md = server::generate_data(&vec![1], 90000, &lang());
    assert_eq!(md.color2, "#90ee90");
    let md = server::generate_data(&vec![1], 49999, &lang());
    assert_eq!(md.rate, "49.999");
    assert_eq!(md.color2, "#ff0000");
}

#[test]
fn server_rate_is_share_of_answered_samples() {
    assert_eq!(summary(&vec![20, -1, 300], 3).rate, "66.667");
    assert_eq!(summary(&vec![1, -1, -1], 3).rate, "33.333");
    assert_eq!(summary(&vec![1; 9], 10).rate, "90");
    assert_eq!(summary(&vec![1; 9], 10).color2, "#90ee90");
    assert_eq!(summary(&vec![1], 8).rate, "12.5");
    assert_eq!(summary(&vec![1], 7).rate, "14.286");
    assert_eq!(summary(&vec![0, 0, 0], 3).rate, "100");
    assert_eq!(summary(&vec![-1, -1], 3).rate, "0");
}

#[test]
fn server_rate_rounds_in_f64() {
    // 100 * 201 / 40000 = 0.5025 exactly, but f64 gives 502.49999999999994
    // thousandths, which round down
    assert_eq!(summary(&vec![1; 201], 40000).rate, "0.502");
    assert_eq!(summary(&vec![1; 323], 8000).rate, "4.037");
    // the text is the same as printing the f64 rate
    for (k, len) in [(201usize, 40000u32), (323, 8000), (2, 3), (1, 7), (5, 5)] {
        let r = ((100 * k) as f64 / len as f64 * 1000.0).round() / 1000.0;
        assert_eq!(summary(&vec![1; k], len).rate, format!("{}", r));
    }
}

#[test]
fn server_root_data_answers_ok() {
    let resp = server::root_data(&vec![5], 100000, &lang());
    assert_eq!(resp.code, 200);
    assert_eq!(resp.message, "ok");
    assert_eq!(resp.data.rate, "100");
    assert_eq!(resp.data.color2, "#90ee90");
}

#[test]
fn more_answers_never_lower_the_rate() {
    let a = vec![-1, 5, -1, -1];
    let b = vec![3, 5, -1, 200];
    assert!(server::count_online(&a) <= server::count_online(&b));
    let ra: f64 = summary(&a, 4).rate.parse().unwrap();
    let rb: f64 = summary(&b, 4).rate.parse().unwrap();
    assert!(ra <= rb);
}

#[test]
fn web_root_data_without_rows_shows_zero_window() {
    let ctx = root_data(&vec![], &lang());
    assert_eq!(ctx.color1, "#90ee90");
    assert_eq!(ctx.status, "Online");
    assert_eq!(ctx.rate, "0");
    assert_eq!(ctx.color2, "#ff0000");
    assert_eq!(ctx.verbose, render_blocks(&vec![0; LENGTH], "■"));
}

#[test]
fn window_sum_wraps_in_32_bits() {
    assert_eq!(sum_latencies(&vec![i32::MAX, 1]), i32::MIN);
    assert_eq!(sum_latencies(&vec![i32::MAX, 1, -1]), i32::MAX);
    let mut lat = vec![0i32; LENGTH];
    lat[0] = i32::MAX;
    lat[1] = 1;
    let (_, _, _, rate, _) = generate_data(&lat, &lang());
    let wrapped = i32::MAX.wrapping_add(1);
    let r = ((wrapped as f64) / (LENGTH as f64) * 1000.0).round() / 1000.0;
    assert_eq!(rate, format!("{}", r));
    assert_eq!(rate, "-21474836.48");
}

#[test]
fn built_in_language() {
    let l = fallback_lang();
    assert_eq!(l.online, "Online");
    assert_eq!(l.hl, "High Latency");
    assert_eq!(l.offline, "Offline");
    assert_eq!(l.block, "■");
}

#[test]
fn language_file_in_json() {
    use_lang_json();
}

fn use_lang_json() {
    let text = r#"{"online": "在线", "offline": "离线", "hl": "高延迟", "block": "■"}"#;
    let l = page_lang(Some(text), LangFormat::Json, LatencyStatus::Online).ok().unwrap();
    assert_eq!(l.online, "在线");
    assert_eq!(l.block, "■");
    let l = page_lang(Some(text), LangFormat::Json, LatencyStatus::HighLatency).ok().unwrap();
    assert_eq!(l.hl, "高延迟");
    let l = page_lang(Some(text), LangFormat::Json, LatencyStatus::Offline).ok().unwrap();
    assert_eq!(l.offline, "离线");
}

#[test]
fn language_file_needs_only_the_keys_it_shows() {
    let text = r##"{"online": "Up", "block": "#"}"##;
    let l = page_lang(Some(text), LangFormat::Json, LatencyStatus::Online).ok().unwrap();
    assert_eq!((l.online.as_str(), l.block.as_str()), ("Up", "#"));
    let e = page_lang(Some(text), LangFormat::Json, LatencyStatus::Offline).err().unwrap();
    assert_eq!(e, "no text under the key offline in the language file");
    let e = page_lang(Some(r#"{"hl": "slow"}"#), LangFormat::Json, LatencyStatus::HighLatency).err().unwrap();
    assert_eq!(e, "no text under the key block in the language file");
    let e = page_lang(Some(r##"{"online": 5, "block": "#"}"##), LangFormat::Json, LatencyStatus::Online).err().unwrap();
    assert_eq!(e, "no text under the key online in the language file");
    assert!(page_lang(Some("{not json"), LangFormat::Json, LatencyStatus::Online).is_err());
    assert!(page_lang(Some("[1, 2]"), LangFormat::Json, LatencyStatus::Online).is_err());
}

#[test]
fn language_file_in_yaml() {
    let text = "online: Online\nhl: High Latency\noffline: Offline\nblock: \"■\"\n";
    let l = page_lang(Some(text), LangFormat::Yaml, LatencyStatus::HighLatency).ok().unwrap();
    assert_eq!(l.hl, "High Latency");
    assert_eq!(l.block, "■");
    assert!(page_lang(Some("online: [unclosed"), LangFormat::Yaml, LatencyStatus::Online).is_err());
    let e = page_lang(Some("online: x\n"), LangFormat::Yaml, LatencyStatus::Online).err().unwrap();
    assert_eq!(e, "no text under the key block in the language file");
}

#[test]
fn no_language_file_gives_built_in_texts() {
    let l = page_lang(None, LangFormat::Json, LatencyStatus::Offline).ok().unwrap();
    assert_eq!(l.offline, "Offline");
    assert_eq!(l.online, "Online");
    assert_eq!(l.hl, "High Latency");
    assert_eq!(l.block, "■");
    let k = lang_key_of(LatencyStatus::HighLatency);
    assert_eq!(k, "hl");
}

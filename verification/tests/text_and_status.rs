use mcsrvmonitor::status::{
    classify, color_of, color_of_rate, label_of, push_block, render_blocks, LangText,
    LatencyStatus,
};
use mcsrvmonitor::text::{push_decimal, push_signed_decimal, push_thousandths};

fn dec(n: u64) -> String {
    let mut s = String::new();
    push_decimal(&mut s, n);
    s
}

fn sdec(n: i64) -> String {
    let mut s = String::new();
    push_signed_decimal(&mut s, n);
    s
}

fn milli(n: i64) -> String {
    let mut s = String::new();
    push_thousandths(&mut s, n);
    s
}

fn lang() -> LangText {
    LangText {
        online: "Online".to_string(),
        hl: "High Latency".to_string(),
        offline: "Offline".to_string(),
        block: "#".to_string(),
    }
}

#[test]
fn decimal_text() {
    assert_eq!(dec(0), "0");
    assert_eq!(dec(7), "7");
    assert_eq!(dec(10), "10");
    assert_eq!(dec(1234567890), "1234567890");
    assert_eq!(dec(u64::MAX), u64::MAX.to_string());
    let mut s = "LIMIT ".to_string();
    push_decimal(&mut s, 8640);
    assert_eq!(s, "LIMIT 8640");
}

#[test]
fn signed_decimal_text() {
    assert_eq!(sdec(0), "0");
    assert_eq!(sdec(-5), "-5");
    assert_eq!(sdec(42), "42");
    assert_eq!(sdec(i64::MIN), i64::MIN.to_string());
    assert_eq!(sdec(i64::MAX), i64::MAX.to_string());
}

#[test]
fn thousandths_text_is_shortest_decimal() {
    assert_eq!(milli(100000), "100");
    assert_eq!(milli(66667), "66.667");
    assert_eq!(milli(12500), "12.5");
    assert_eq!(milli(12340), "12.34");
    assert_eq!(milli(50), "0.05");
    assert_eq!(milli(1), "0.001");
    assert_eq!(milli(0), "0");
    assert_eq!(milli(-10), "-0.01");
    assert_eq!(milli(-1500), "-1.5");
    // the same text that f64 display gives for the rounded value
    for m in [1i64, 9, 10, 99, 100, 101, 999, 1000, 1001, 45678, 90000, 123456] {
        assert_eq!(milli(m), format!("{}", (m as f64) / 1000.0));
    }
}

#[test]
fn latency_classes() {
    assert_eq!(classify(-1), LatencyStatus::Offline);
    assert_eq!(classify(i32::MIN), LatencyStatus::Offline);
    assert_eq!(classify(0), LatencyStatus::Online);
    assert_eq!(classify(150), LatencyStatus::Online);
    assert_eq!(classify(151), LatencyStatus::HighLatency);
    assert_eq!(classify(i32::MAX), LatencyStatus::HighLatency);
}

#[test]
fn colours() {
    assert_eq!(color_of(LatencyStatus::Online), "#90ee90");
    assert_eq!(color_of(LatencyStatus::HighLatency), "#ffff00");
    assert_eq!(color_of(LatencyStatus::Offline), "#ff0000");
    assert_eq!(color_of_rate(100000), "#90ee90");
    assert_eq!(color_of_rate(90000), "#90ee90");
    assert_eq!(color_of_rate(89999), "#ffff00");
    assert_eq!(color_of_rate(50000), "#ffff00");
    assert_eq!(color_of_rate(49999), "#ff0000");
    assert_eq!(color_of_rate(-10), "#ff0000");
}

#[test]
fn labels() {
    let l = lang();
    assert_eq!(label_of(&l, LatencyStatus::Online), "Online");
    assert_eq!(label_of(&l, LatencyStatus::HighLatency), "High Latency");
    assert_eq!(label_of(&l, LatencyStatus::Offline), "Offline");
}

#[test]
fn blocks() {
    let mut s = String::new();
    push_block(&mut s, "#90ee90", "■");
    assert_eq!(s, r#"<span class="block" style="color : #90ee90;">■</span>"#);
    let html = render_blocks(&vec![10, 200, -1], "#");
    assert_eq!(
        html,
        [
            r#"<span class="block" style="color : #90ee90;">#</span>"#,
            r#"<span class="block" style="color : #ffff00;">#</span>"#,
            r#"<span class="block" style="color : #ff0000;">#</span>"#,
        ]
        .join("")
    );
    assert_eq!(render_blocks(&vec![], "#"), "");
}

#[test]
fn blocks_of_joined_runs_are_joined_blocks() {
    let a = vec![1, 151];
    let b = vec![-3, 150, 0];
    let mut ab = a.clone();
    ab.extend(b.iter());
    assert_eq!(render_blocks(&ab, "x"), render_blocks(&a, "x") + &render_blocks(&b, "x"));
}

#[test]
fn every_latency_has_one_class() {
    for l in [-100, -1, 0, 1, 149, 150, 151, 1000] {
        let c = classify(l);
        let expected = if l < 0 {
            LatencyStatus::Offline
        } else if l <= 150 {
            LatencyStatus::Online
        } else {
            LatencyStatus::HighLatency
        };
        assert_eq!(c, expected);
    }
}

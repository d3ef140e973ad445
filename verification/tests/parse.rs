use finance::JsonNum;
use finance::JsonValue;
use finance::YahooError;
use finance::YahooFinanceInfo;
use finance::YahooFinanceResp;

fn entry(k: &str, v: JsonValue) -> (String, JsonValue) {
    (k.to_string(), v)
}

fn num(milli: i64) -> JsonValue {
    JsonValue::Num(JsonNum {
        milli,
        is_int: false,
    })
}

fn int_num(v: i64) -> JsonValue {
    JsonValue::Num(JsonNum {
        milli: v * 1000,
        is_int: true,
    })
}

fn text(s: &str) -> JsonValue {
    JsonValue::Text(s.to_string())
}

fn sample_meta() -> Vec<(String, JsonValue)> {
    vec![
        entry("currency", text("USD")),
        entry("regularMarketPrice", num(150_250)),
        entry("regularMarketDayHigh", num(151_000)),
        entry("regularMarketDayLow", num(149_500)),
        entry("chartPreviousClose", num(148_000)),
        entry("regularMarketTime", int_num(1_700_000_000)),
        entry("longName", text("Example Corp")),
    ]
}

fn doc_from_meta(meta_entries: Vec<(String, JsonValue)>) -> JsonValue {
    JsonValue::Obj(vec![entry(
        "chart",
        JsonValue::Obj(vec![
            entry(
                "result",
                JsonValue::Arr(vec![JsonValue::Obj(vec![entry(
                    "meta",
                    JsonValue::Obj(meta_entries),
                )])]),
            ),
            entry("error", JsonValue::Null),
        ]),
    )])
}

fn resp_from_doc(doc: JsonValue) -> YahooFinanceResp {
    YahooFinanceResp::from_response(200, Ok(String::new()), Some(doc))
        .expect("classification should succeed")
}

fn parse(meta_entries: Vec<(String, JsonValue)>) -> Result<YahooFinanceInfo, YahooError> {
    YahooFinanceInfo::new(&resp_from_doc(doc_from_meta(meta_entries)))
}

#[test]
fn test_parse_sample_fields() {
    let info = parse(sample_meta()).expect("sample metadata should parse");
    assert_eq!(info.get_currency(), "USD");
    assert_eq!(info.get_name(), "Example Corp");
    assert_eq!(info.get_present().milli(), 150_250);
    assert_eq!(info.get_high_that_day().milli(), 151_000);
    assert_eq!(info.get_low_that_day().milli(), 149_500);
    assert_eq!(info.get_previous_closed().milli(), 148_000);
    assert_eq!(info.get_updated_date(), 1_700_000_000);
    assert_eq!(info.get_present().sub(info.get_previous_closed()), 225);
}

#[test]
fn test_inner_returns_same_snapshot() {
    let info = parse(sample_meta()).expect("sample metadata should parse");
    assert_eq!(info.inner().get_name(), "Example Corp");
}

#[test]
fn test_full_summary_exact() {
    let info = parse(sample_meta()).expect("sample metadata should parse");
    assert_eq!(
        info.get_result_that_day_ja(),
        "銘柄: Example Corp\n通貨: USD\n最終更新: 2023-11-15 07:13:20 JST\n現在価格: 150.25\n日次変動幅: 149.5 - 151.0\n前営業の終値: 148.0\n今日: +2.25\n"
    );
}

#[test]
fn test_full_summary_contents() {
    let info = parse(sample_meta()).expect("sample metadata should parse");
    let full = info.get_result_that_day_ja();
    assert!(full.contains("Example Corp"));
    assert!(full.contains("USD"));
    assert!(full.contains("149.5 - 151.0"));
    assert!(full.contains("+2.25"));
    assert!(full.contains("2023-11-15 07:13:20"));
}

#[test]
fn test_brief_summary_omits_range_line() {
    let info = parse(sample_meta()).expect("sample metadata should parse");
    let brief = info.get_present_ja();
    assert!(!brief.contains("日次変動幅"));
    assert!(brief.contains("前営業の終値"));
    assert!(brief.contains("+2.25"));
}

#[test]
fn test_missing_required_field_is_parse_error() {
    let keys = [
        "currency",
        "regularMarketPrice",
        "regularMarketDayHigh",
        "regularMarketDayLow",
        "chartPreviousClose",
        "regularMarketTime",
        "longName",
    ];
    for missing in keys {
        let meta: Vec<(String, JsonValue)> = sample_meta()
            .into_iter()
            .filter(|(k, _)| k != missing)
            .collect();
        let r = parse(meta);
        match r {
            Err(YahooError::ParseError(d)) => assert!(d.contains(missing), "{}: {}", missing, d),
            other => panic!("{}: expected ParseError, got {:?}", missing, other.err().map(|e| e.to_text())),
        }
    }
}

#[test]
fn test_wrong_type_field_is_parse_error() {
    let meta: Vec<(String, JsonValue)> = sample_meta()
        .into_iter()
        .map(|(k, v)| {
            if k == "currency" {
                (k, num(1_000))
            } else {
                (k, v)
            }
        })
        .collect();
    assert!(matches!(parse(meta), Err(YahooError::ParseError(_))));
}

#[test]
fn test_missing_meta_is_parse_error() {
    let doc = JsonValue::Obj(vec![entry(
        "chart",
        JsonValue::Obj(vec![
            entry("result", JsonValue::Arr(vec![])),
            entry("error", JsonValue::Null),
        ]),
    )]);
    let r = YahooFinanceInfo::new(&resp_from_doc(doc));
    match r {
        Err(YahooError::ParseError(d)) => assert_eq!(d, "Failed to access parsed data: meta"),
        other => panic!("expected ParseError, got {:?}", other.err().map(|e| e.to_text())),
    }
}

#[test]
fn test_out_of_range_high_is_parse_error() {
    let meta: Vec<(String, JsonValue)> = sample_meta()
        .into_iter()
        .map(|(k, v)| {
            if k == "regularMarketDayHigh" {
                (k, num(150_000_000))
            } else {
                (k, v)
            }
        })
        .collect();
    match parse(meta) {
        Err(YahooError::ParseError(d)) => {
            assert!(d.contains("regularMarketDayHigh"));
            assert!(d.contains("Abnormal prices: 150000"));
        }
        other => panic!("expected ParseError, got {:?}", other.err().map(|e| e.to_text())),
    }
}

#[test]
fn test_fractional_timestamp_is_parse_error() {
    let meta: Vec<(String, JsonValue)> = sample_meta()
        .into_iter()
        .map(|(k, v)| {
            if k == "regularMarketTime" {
                (k, num(1_700_000_000_500))
            } else {
                (k, v)
            }
        })
        .collect();
    assert!(matches!(parse(meta), Err(YahooError::ParseError(_))));
}

#[test]
fn test_timestamp_range_boundary() {
    let max_secs: i64 = 8_210_266_876_799;
    let at_max: Vec<(String, JsonValue)> = sample_meta()
        .into_iter()
        .map(|(k, v)| {
            if k == "regularMarketTime" {
                (
                    k,
                    JsonValue::Num(JsonNum {
                        milli: max_secs * 1000,
                        is_int: true,
                    }),
                )
            } else {
                (k, v)
            }
        })
        .collect();
    assert!(parse(at_max).is_ok());

    let past_max: Vec<(String, JsonValue)> = sample_meta()
        .into_iter()
        .map(|(k, v)| {
            if k == "regularMarketTime" {
                (
                    k,
                    JsonValue::Num(JsonNum {
                        milli: (max_secs + 1) * 1000,
                        is_int: true,
                    }),
                )
            } else {
                (k, v)
            }
        })
        .collect();
    assert!(matches!(parse(past_max), Err(YahooError::ParseError(_))));
}

#[test]
fn test_updated_today_in_ja() {
    let info = parse(sample_meta()).expect("sample metadata should parse");
    // 1_700_000_000 is 2023-11-15 in Asia/Tokyo.
    assert!(info.updated_today_in_ja(1_700_050_000));
    assert!(!info.updated_today_in_ja(1_700_100_000));
}

#[test]
fn test_daily_message_same_day_is_full_summary() {
    let info = parse(sample_meta()).expect("sample metadata should parse");
    assert_eq!(info.daily_message(1_700_050_000), info.get_result_that_day_ja());
}

#[test]
fn test_daily_message_other_day_is_closed_notice() {
    let info = parse(sample_meta()).expect("sample metadata should parse");
    assert_eq!(info.daily_message(1_700_100_000), "Example Corp\n本日はお休み");
}

#[test]
fn test_summary_with_negative_delta() {
    let meta: Vec<(String, JsonValue)> = sample_meta()
        .into_iter()
        .map(|(k, v)| {
            if k == "chartPreviousClose" {
                (k, num(153_706))
            } else {
                (k, v)
            }
        })
        .collect();
    let info = parse(meta).expect("metadata should parse");
    // 150.25 - 153.706 rounds to -3.46, rendered with the native minus.
    let full = info.get_result_that_day_ja();
    assert!(full.contains("今日: -3.46\n"));
    assert!(!full.contains("+-"));
}

#[test]
fn test_summary_with_zero_delta() {
    let meta: Vec<(String, JsonValue)> = sample_meta()
        .into_iter()
        .map(|(k, v)| {
            if k == "chartPreviousClose" {
                (k, num(150_250))
            } else {
                (k, v)
            }
        })
        .collect();
    let info = parse(meta).expect("metadata should parse");
    assert!(info.get_result_that_day_ja().contains("今日: ±0\n"));
}

#[test]
fn test_delta_sign_strings() {
    assert_eq!(YahooFinanceInfo::to_string_gives_sign(225), "+2.25");
    assert_eq!(YahooFinanceInfo::to_string_gives_sign(0), "±0");
    assert_eq!(YahooFinanceInfo::to_string_gives_sign(-346), "-3.46");
    assert_eq!(YahooFinanceInfo::to_string_gives_sign(300), "+3");
    assert_eq!(YahooFinanceInfo::to_string_gives_sign(-5), "-0.05");
    assert_eq!(YahooFinanceInfo::to_string_gives_sign(210), "+2.1");
}

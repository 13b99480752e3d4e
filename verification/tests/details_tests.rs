use payload_events::details::{
    app_log_context, app_log_heading, app_log_origin, cache_metadata_items, format_bytes,
    format_duration, has_cache_metadata, header_items, header_order, http_badge, http_body_text, log_value_items,
    operation_tone, origin_line, performance_items, query_metrics, stack_trace_rows,
    table_data_view, Item, TableData, Tone,
};
use payload_events::entry::EventError;
use payload_events::event_data::{parse_http_event, process_http_event, CacheEvent, HttpEvent, HttpEventType, ProcessedEvent};
use payload_events::json::{DoubleText, Json, JsonNumber, NumberKind};

fn double(f: f64) -> DoubleText {
    DoubleText {
        shortest: format!("{}", f),
        fixed1: format!("{:.1}", f),
        fixed2: format!("{:.2}", f),
        fixed3: format!("{:.3}", f),
        fixed6: format!("{:.6}", f),
        thousandths_fixed2: format!("{:.2}", f / 1000.0),
        per_minute_fixed1: format!("{:.1}", f / 60.0),
        per_hour_fixed2: format!("{:.2}", f / 3600.0),
        per_hour_fixed1: format!("{:.1}", f / 3600.0),
        thousandfold_whole: (f * 1000.0) as u64,
        below_one: f < 1.0,
        below_thousand: f < 1000.0,
    }
}

fn j(text: &str) -> Json {
    to_json(&serde_json::from_str(text).unwrap())
}

fn to_json(v: &serde_json::Value) -> Json {
    match v {
        serde_json::Value::Null => Json::Null,
        serde_json::Value::Bool(b) => Json::Bool(*b),
        serde_json::Value::Number(n) => {
            let kind = if let Some(u) = n.as_u64() {
                NumberKind::PosInt(u)
            } else if let Some(i) = n.as_i64() {
                NumberKind::NegInt(i)
            } else {
                NumberKind::Float
            };
            Json::Number(JsonNumber { kind, text: n.to_string(), double: double(n.as_f64().unwrap_or(0.0)) })
        }
        serde_json::Value::String(s) => Json::Str(s.clone()),
        serde_json::Value::Array(items) => Json::Array(items.iter().map(to_json).collect()),
        serde_json::Value::Object(map) => {
            Json::Object(map.iter().map(|(k, v)| (k.clone(), to_json(v))).collect())
        }
    }
}

fn pretty(text: &str) -> String {
    let v: serde_json::Value = serde_json::from_str(text).unwrap();
    serde_json::to_string_pretty(&v).unwrap()
}

fn pairs(items: &[Item]) -> Vec<(String, String)> {
    items.iter().map(|i| (i.label.clone(), i.value.clone())).collect()
}

/// The byte formatting of the detail panel, done with doubles.
fn bytes_with_doubles(bytes: u64) -> String {
    let units = ["B", "KB", "MB", "GB"];
    let mut size = bytes as f64;
    let mut unit_index = 0;
    while size >= 1024.0 && unit_index < units.len() - 1 {
        size /= 1024.0;
        unit_index += 1;
    }
    if size.fract() == 0.0 {
        format!("{:.0}{}", size, units[unit_index])
    } else {
        format!("{:.1}{}", size, units[unit_index])
    }
}

#[test]
fn byte_counts_match_double_arithmetic() {
    let mut samples: Vec<u64> = (0..5000).collect();
    samples.extend([
        1023, 1024, 1025, 1536, 1587, 1638, 10_240, 1_048_575, 1_048_576, 1_572_864,
        1_073_741_823, 1_073_741_824, 1_610_612_736, 1_099_511_627_776, 5_000_000_000_000,
        (1 << 53) - 1, 1 << 53, (1 << 53) + 1, (1 << 53) + 3, (1 << 54) + 6, 123_456_789_012_345_678,
        u64::MAX - 1, u64::MAX,
    ]);
    let mut x: u64 = 0x9e37_79b9_7f4a_7c15;
    for _ in 0..2000 {
        x ^= x << 13;
        x ^= x >> 7;
        x ^= x << 17;
        samples.push(x);
        samples.push(x >> 20);
        samples.push(x >> 40);
    }
    for b in samples {
        assert_eq!(format_bytes(b), bytes_with_doubles(b), "bytes {}", b);
    }
}

#[test]
fn byte_counts_examples() {
    assert_eq!(format_bytes(512), "512B");
    assert_eq!(format_bytes(2048), "2KB");
    assert_eq!(format_bytes(1536), "1.5KB");
    assert_eq!(format_bytes(1_048_575), "1024.0KB");
    assert_eq!(format_bytes(3 * 1_073_741_824), "3GB");
}

#[test]
fn short_durations() {
    assert_eq!(format_duration(45, &double(45.0)), "45s");
    assert_eq!(format_duration(90, &double(90.0)), "1.5m");
    assert_eq!(format_duration(5400, &double(5400.0)), "1.5h");
    for s in [0u64, 59, 60, 61, 3599, 3600, 3601, 7777, 86_400] {
        let f = s as f64;
        let expected = if s > 3600 {
            format!("{:.1}h", f / 3600.0)
        } else if s > 60 {
            format!("{:.1}m", f / 60.0)
        } else {
            format!("{}s", s)
        };
        assert_eq!(format_duration(s, &double(f)), expected);
    }
}

#[test]
fn cache_metadata_in_order() {
    let ev = CacheEvent {
        operation: "Hit".to_string(),
        key: "k".to_string(),
        value: None,
        expiration_seconds: Some(120),
        expiration: Some(double(120.0)),
        tags: None,
        store: Some("redis".to_string()),
        ttl: Some("60".to_string()),
    };
    assert!(has_cache_metadata(&ev));
    assert_eq!(
        pairs(&cache_metadata_items(&ev)),
        vec![
            ("Expires:".to_string(), "2.0m".to_string()),
            ("Store:".to_string(), "redis".to_string()),
            ("TTL:".to_string(), "60".to_string()),
        ]
    );
    let bare = CacheEvent { expiration_seconds: None, expiration: None, store: None, ttl: None, ..ev };
    assert!(!has_cache_metadata(&bare));
    assert!(cache_metadata_items(&bare).is_empty());
}

#[test]
fn http_performance_figures() {
    let ev = HttpEvent {
        event_type: HttpEventType::Response,
        url: "u".to_string(),
        method: None,
        status_code: Some(200),
        success: None,
        headers: Vec::new(),
        body: None,
        duration_seconds: Some(double(0.1234)),
        connection_time_seconds: None,
        size_bytes: Some(2560),
        request_size_bytes: None,
        content_type: None,
    };
    assert_eq!(
        pairs(&performance_items(&ev)),
        vec![
            ("Duration:".to_string(), format!("{}ms", (0.1234f64 * 1000.0) as u64)),
            ("Size:".to_string(), "2.5KB".to_string()),
        ]
    );
}

#[test]
fn table_data_fields_and_raw() {
    match table_data_view(&j(r#"{"b": [1], "a": "x"}"#)) {
        TableData::Fields(items) => assert_eq!(
            pairs(&items),
            vec![("a".to_string(), "\"x\"".to_string()), ("b".to_string(), pretty("[1]"))]
        ),
        TableData::Raw(_) => panic!("expected fields"),
    }
    match table_data_view(&j("[1, 2]")) {
        TableData::Raw(text) => assert_eq!(text, pretty("[1, 2]")),
        TableData::Fields(_) => panic!("expected raw data"),
    }
}

#[test]
fn origin_lines_of_payloads() {
    assert_eq!(origin_line(&j(r#"{"origin": {"file": "a.php", "line_number": 3}}"#)), Some("a.php:3".to_string()));
    assert_eq!(origin_line(&j(r#"{"origin": {}}"#)), Some(":0".to_string()));
    assert_eq!(origin_line(&j("{}")), None);
}

fn response(status: Option<u64>) -> HttpEvent {
    HttpEvent {
        event_type: HttpEventType::Response,
        url: "u".to_string(),
        method: None,
        status_code: status,
        success: None,
        headers: Vec::new(),
        body: None,
        duration_seconds: None,
        connection_time_seconds: None,
        size_bytes: None,
        request_size_bytes: None,
        content_type: None,
    }
}

#[test]
fn badges_and_tones() {
    assert_eq!(operation_tone("Hit"), Tone::Positive);
    assert_eq!(operation_tone("Missed"), Tone::Caution);
    assert_eq!(operation_tone("Key written"), Tone::Informative);
    assert_eq!(operation_tone("Forgotten"), Tone::Negative);
    assert_eq!(operation_tone("Flushed"), Tone::Neutral);
    assert_eq!(http_badge(&response(Some(204))), ("204".to_string(), Tone::Positive));
    assert_eq!(http_badge(&response(Some(301))), ("301".to_string(), Tone::Caution));
    assert_eq!(http_badge(&response(Some(404))), ("404".to_string(), Tone::Negative));
    assert_eq!(http_badge(&response(Some(101))), ("101".to_string(), Tone::Neutral));
    assert_eq!(http_badge(&response(None)), ("Response".to_string(), Tone::Neutral));
    let mut request = response(None);
    request.event_type = HttpEventType::Request;
    assert_eq!(http_badge(&request), ("GET".to_string(), Tone::Positive));
    request.method = Some("DELETE".to_string());
    assert_eq!(http_badge(&request).0, "DELETE");
}

#[test]
fn http_bodies() {
    let mut ev = response(Some(200));
    assert_eq!(http_body_text(&ev), None);
    ev.body = Some(j(r#"{"a": [1, 2]}"#));
    assert_eq!(http_body_text(&ev), Some(r#"{"a":[1,2]}"#.to_string()));
    ev.content_type = Some("Json".to_string());
    assert_eq!(http_body_text(&ev), Some(pretty(r#"{"a": [1, 2]}"#)));
}

#[test]
fn panel_reads_data_before_body() {
    let content = j(r#"{"values": {"URL": "/x", "Status": 201, "Data": {"d": 1}, "Body": "b", "Headers": {"B": "2", "A": "1"}}}"#);
    let ev = parse_http_event(&content).unwrap();
    assert!(matches!(ev.event_type, HttpEventType::Response));
    assert_eq!(ev.url, "/x");
    assert_eq!(ev.status_code, Some(201));
    assert_eq!(http_body_text(&ev), Some(r#"{"d":1}"#.to_string()));
    assert_eq!(
        pairs(&header_items(&ev.headers)),
        vec![("A:".to_string(), r#""1""#.to_string()), ("B:".to_string(), r#""2""#.to_string())]
    );
    match process_http_event(&content) {
        Ok(ProcessedEvent::Http(processed)) => {
            assert_eq!(http_body_text(&processed), Some(r#""b""#.to_string()))
        }
        _ => panic!("expected an HTTP event"),
    }
    let only_body = j(r#"{"values": {"Body": [1]}}"#);
    assert_eq!(http_body_text(&parse_http_event(&only_body).unwrap()), Some("[1]".to_string()));
    match parse_http_event(&j(r#"{"other": 1}"#)) {
        Err(EventError::MissingValues { event }) => assert_eq!(event, "HTTP"),
        _ => panic!("expected a missing-values error"),
    }
}

#[test]
fn headers_sorted_by_name() {
    let headers = vec![
        ("X-Trace".to_string(), j(r#""abc""#)),
        ("Accept".to_string(), j(r#"["a", "b"]"#)),
        ("Content-Length".to_string(), j("42")),
        ("accept-language".to_string(), j(r#""en""#)),
    ];
    assert_eq!(header_order(&headers), vec![1, 2, 0, 3]);
    assert_eq!(
        pairs(&header_items(&headers)),
        vec![
            ("Accept:".to_string(), r#"["a","b"]"#.to_string()),
            ("Content-Length:".to_string(), "42".to_string()),
            ("X-Trace:".to_string(), r#""abc""#.to_string()),
            ("accept-language:".to_string(), r#""en""#.to_string()),
        ]
    );
    let prefixed = vec![("ab".to_string(), j("1")), ("a".to_string(), j("2")), ("é".to_string(), j("3"))];
    assert_eq!(header_order(&prefixed), vec![1, 0, 2]);
    assert!(header_items(&Vec::new()).is_empty());
}

#[test]
fn log_value_rows() {
    let p = j(r#"{"content": {"values": ["text", 4.5, true, null, {"k": 1}]}}"#);
    assert_eq!(
        pairs(&log_value_items(&p)),
        vec![
            ("1".to_string(), "text".to_string()),
            ("2".to_string(), "4.5".to_string()),
            ("3".to_string(), "true".to_string()),
            ("4".to_string(), "null".to_string()),
            ("5".to_string(), pretty(r#"{"k": 1}"#)),
        ]
    );
    let p = j(r#"{"content": {"values": "single"}}"#);
    assert_eq!(pairs(&log_value_items(&p)), vec![("1".to_string(), "single".to_string())]);
    assert!(log_value_items(&j("{}")).is_empty());
}

#[test]
fn stack_trace_list() {
    let c = j(r#"{"frames": [{"class": "A", "method": "run", "file_name": "a.php", "line_number": 9}, {}]}"#);
    let (heading, rows) = stack_trace_rows(&c).unwrap();
    assert_eq!(heading, "2 frames");
    let texts: Vec<(String, String, String)> =
        rows.iter().map(|r| (r.number.clone(), r.title.clone(), r.location.clone())).collect();
    assert_eq!(
        texts,
        vec![
            ("1".to_string(), "A::run".to_string(), "a.php:9".to_string()),
            ("2".to_string(), "::".to_string(), ":0".to_string()),
        ]
    );
    assert!(stack_trace_rows(&j(r#"{"frames": {}}"#)).is_none());
}

#[test]
fn query_metric_items() {
    for (time, expected) in [(0.5f64, "0.500ms"), (12.34, "12.3ms"), (2500.0, "2.50s")] {
        let c = j(&format!(r#"{{"time": {}, "connection_name": "mysql"}}"#, time));
        assert_eq!(
            pairs(&query_metrics(&c)),
            vec![("time".to_string(), expected.to_string()), ("connection".to_string(), "mysql".to_string())]
        );
    }
    assert_eq!(
        pairs(&query_metrics(&j("{}"))),
        vec![("time".to_string(), "0.000ms".to_string()), ("connection".to_string(), "default".to_string())]
    );
}

#[test]
fn application_log_panel() {
    let c = j(r#"{"level": "Error", "channel": "mail", "context": {"to": "x"}}"#);
    assert_eq!(app_log_heading(&c), ("Error".to_string(), Some("• mail".to_string())));
    assert_eq!(app_log_context(&c), Some(pretty(r#"{"to": "x"}"#)));
    let c = j(r#"{"context": null}"#);
    assert_eq!(app_log_heading(&c), ("Info".to_string(), None));
    assert_eq!(app_log_context(&c), None);
    let p = j(r#"{"origin": {"file": "job.php", "line_number": 12, "hostname": "worker"}}"#);
    assert_eq!(app_log_origin(&p), Some("job.php:12 • worker".to_string()));
    assert_eq!(app_log_origin(&j(r#"{"origin": {"line_number": 1}}"#)), None);
}

#[test]
fn copies_keep_every_part_of_numbers() {
    let v = j(r#"{"a": [1.5, -2, 3], "b": {"c": 0.001}}"#);
    assert_eq!(format!("{:?}", v.deep_clone()), format!("{:?}", v));
}

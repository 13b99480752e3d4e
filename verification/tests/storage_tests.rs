use payload_events::entry::EventEntry;
use payload_events::json::{DoubleText, Json, JsonNumber, NumberKind};
use payload_events::payload::{get_html, parse_html, payload_entry, process_payload, PayloadEntry, PayloadStorage};
use payload_events::performance::{estimate_memory_usage, PerformanceTracker};
use payload_events::storage::EventStorage;
use std::time::Duration;

fn double(f: f64) -> DoubleText {
    DoubleText {
        shortest: format!("{}", f),
        fixed1: format!("{:.1}", f),
        fixed2: format!("{:.2}", f),
        fixed3: format!("{:.3}", f),
        fixed6: format!("{:.6}", f),
        thousandths_fixed2: format!("{:.2}", f / 1000.0),
        per_minute_fixed1: format!("{:.1}", f / 60.0),
        per_hour_fixed2: format!("{:.2}", f / 3600.0),
        per_hour_fixed1: format!("{:.1}", f / 3600.0),
        thousandfold_whole: (f * 1000.0) as u64,
        below_one: f < 1.0,
        below_thousand: f < 1000.0,
    }
}

fn j(text: &str) -> Json {
    to_json(&serde_json::from_str(text).unwrap())
}

fn to_json(v: &serde_json::Value) -> Json {
    match v {
        serde_json::Value::Null => Json::Null,
        serde_json::Value::Bool(b) => Json::Bool(*b),
        serde_json::Value::Number(n) => {
            let kind = if let Some(u) = n.as_u64() {
                NumberKind::PosInt(u)
            } else if let Some(i) = n.as_i64() {
                NumberKind::NegInt(i)
            } else {
                NumberKind::Float
            };
            Json::Number(JsonNumber { kind, text: n.to_string(), double: double(n.as_f64().unwrap_or(0.0)) })
        }
        serde_json::Value::String(s) => Json::Str(s.clone()),
        serde_json::Value::Array(items) => Json::Array(items.iter().map(to_json).collect()),
        serde_json::Value::Object(map) => {
            Json::Object(map.iter().map(|(k, v)| (k.clone(), to_json(v))).collect())
        }
    }
}

#[test]
fn test_performance_tracker() {
    let mut tracker = PerformanceTracker::new();
    tracker.record_filter_time(Duration::from_millis(10).as_nanos());
    tracker.record_filter_time(Duration::from_millis(20).as_nanos());
    tracker.record_cache_hit();
    tracker.record_cache_miss();

    assert_eq!(tracker.filter_times.len(), 2);
    assert_eq!(tracker.average_filter_time(), Some(Duration::from_millis(15).as_nanos()));
    // The hit rate is a ratio of doubles, computed next to the report from these counters.
    let rate = tracker.cache_hits as f64 / (tracker.cache_hits + tracker.cache_misses) as f64;
    assert_eq!(rate, 0.5);
}

#[test]
fn test_memory_estimation() {
    let event = EventEntry {
        timestamp: "2025-01-26".to_string(),
        label: "Test".to_string(),
        description: "Test description".to_string(),
        content: String::new(),
        content_type: "test".to_string(),
        event_type: "test".to_string(),
        raw_payload: j(r#"{"test": "data"}"#),
    };

    let memory_usage = estimate_memory_usage(&[event]);
    assert!(memory_usage > 0);
}

#[test]
fn memory_estimate_counts_texts_and_payload() {
    let event = EventEntry {
        timestamp: "ts".to_string(),
        label: "L".to_string(),
        description: "dd".to_string(),
        content: "ignored".to_string(),
        content_type: "md".to_string(),
        event_type: "log".to_string(),
        raw_payload: j(r#"{"a": 1}"#),
    };
    let expected = std::mem::size_of::<EventEntry>() + 2 + 1 + 2 + 2 + 3 + "{\"a\":1}".len();
    assert_eq!(estimate_memory_usage(&[event]), expected);
    assert_eq!(estimate_memory_usage(&[]), 0);
}

#[test]
fn average_of_nothing_is_none_and_rounds_down() {
    let mut t = PerformanceTracker::new();
    assert_eq!(t.average_filter_time(), None);
    t.record_filter_time(1);
    t.record_filter_time(2);
    assert_eq!(t.average_filter_time(), Some(1));
    assert_eq!(
        Duration::from_nanos(3) / 2,
        Duration::from_nanos(t.average_filter_time().unwrap() as u64)
    );
}

#[test]
fn event_storage_lists_newest_first_and_counts_changes() {
    let mut s = EventStorage::new();
    assert_eq!(s.get_generation(), 0);
    let a = j(r#"{"type": "log", "timestamp": "t1", "content": {"values": ["first"]}}"#);
    let b = j(r#"{"type": "application_log", "content": {"value": "second"}}"#);
    s.add_event(&a, "now").unwrap();
    s.add_event(&b, "2025-01-01 00:00:00.000").unwrap();
    assert_eq!(s.get_generation(), 2);
    let listed = s.get_events_optimized();
    assert_eq!(listed.len(), 2);
    assert_eq!(listed[0].description, "second");
    assert_eq!(listed[0].timestamp, "2025-01-01 00:00:00.000");
    assert_eq!(listed[1].description, "first");
    assert_eq!(listed[1].timestamp, "t1");
    // A failing event leaves the store as it was.
    let bad = j(r#"{"type": "cache"}"#);
    assert!(s.add_event(&bad, "now").is_err());
    assert_eq!(s.get_generation(), 2);
    assert_eq!(s.event_count(), 2);
    s.clear_events();
    assert_eq!(s.get_generation(), 3);
    assert!(s.get_events_optimized().is_empty());
    s.set_server_info("Server listening on 127.0.0.1:23517".to_string());
    assert_eq!(s.server_info(), "Server listening on 127.0.0.1:23517");
}

#[test]
fn payloads_come_back_in_arrival_order() {
    let mut store = PayloadStorage::new();
    assert!(store.get_payloads().is_empty());
    let p = j(r#"{
        "type": "table",
        "content": {"values": {"Method": "GET", "URL": "https://x.test", "Data": "<html><pre>hello</pre></html>", "label": "Http"}}
    }"#);
    process_payload(&p, "2025-01-26 10:00:00".to_string(), &mut store);
    let q = j(r#"{"type": "log", "content": {"values": ["<b>plain</b>"]}}"#);
    process_payload(&q, "2025-01-26 10:00:01".to_string(), &mut store);
    let all = store.get_payloads();
    assert_eq!(all.len(), 2);
    assert_eq!(all[0].html, "hello");
    assert_eq!(all[0].url, "https://x.test");
    assert_eq!(all[0].method, "GET");
    assert_eq!(all[0].label, "Http");
    assert_eq!(all[0].p_type, "table");
    assert_eq!(all[1].html, "<b>plain</b>");
    assert_eq!(all[1].timestamp, "2025-01-26 10:00:01");
    assert_eq!(all[1].data, "{\"content\":{\"values\":[\"<b>plain</b>\"]},\"type\":\"log\"}");
}

#[test]
fn html_for_responses_comes_from_the_body() {
    let p = j(r#"{"type": "table", "content": {"values": {"Status": 200, "Body": "<pre>resp</pre>", "Data": "<pre>no</pre>"}}}"#);
    assert_eq!(get_html(&p), "resp");
    let other = j(r#"{"type": "exception", "content": {"values": {"Body": "<pre>x</pre>"}}}"#);
    assert_eq!(get_html(&other), "");
    assert_eq!(parse_html("<div><pre>a</pre><pre>b</pre></div>"), "a");
    assert_eq!(parse_html("<p>no preformatted part</p>"), "<p>no preformatted part</p>");
    assert_eq!(parse_html("<pre></pre>"), "");
    let r: PayloadEntry = payload_entry(&other, "t".to_string());
    assert_eq!(r.html, "");
    assert_eq!(r.p_type, "exception");
    let mut store = PayloadStorage::new();
    store.add_payload(r.copy());
    assert_eq!(store.get_payloads()[0].data, r.data);
}

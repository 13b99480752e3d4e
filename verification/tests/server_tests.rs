use std::time::Duration;

use payload_events::json::{DoubleText, Json, JsonNumber, NumberKind};
use payload_events::list_view::{copy_text, display_description, display_label, entry_id, is_large_content};
use payload_events::performance::{duration_text, PerformanceTracker};
use payload_events::server::{ingest, route, route_reply, Route};
use payload_events::storage::{log_line, EventStorage, LogLevel};
use payload_events::entry::EventEntry;

fn double(f: f64) -> DoubleText {
    DoubleText {
        shortest: format!("{}", f),
        fixed1: format!("{:.1}", f),
        fixed2: format!("{:.2}", f),
        fixed3: format!("{:.3}", f),
        fixed6: format!("{:.6}", f),
        thousandths_fixed2: format!("{:.2}", f / 1000.0),
        per_minute_fixed1: format!("{:.1}", f / 60.0),
        per_hour_fixed2: format!("{:.2}", f / 3600.0),
        per_hour_fixed1: format!("{:.1}", f / 3600.0),
        thousandfold_whole: (f * 1000.0) as u64,
        below_one: f < 1.0,
        below_thousand: f < 1000.0,
    }
}

fn j(text: &str) -> Json {
    to_json(&serde_json::from_str(text).unwrap())
}

fn to_json(v: &serde_json::Value) -> Json {
    match v {
        serde_json::Value::Null => Json::Null,
        serde_json::Value::Bool(b) => Json::Bool(*b),
        serde_json::Value::Number(n) => {
            let kind = if let Some(u) = n.as_u64() {
                NumberKind::PosInt(u)
            } else if let Some(i) = n.as_i64() {
                NumberKind::NegInt(i)
            } else {
                NumberKind::Float
            };
            Json::Number(JsonNumber { kind, text: n.to_string(), double: double(n.as_f64().unwrap_or(0.0)) })
        }
        serde_json::Value::String(s) => Json::Str(s.clone()),
        serde_json::Value::Array(items) => Json::Array(items.iter().map(to_json).collect()),
        serde_json::Value::Object(map) => {
            Json::Object(map.iter().map(|(k, v)| (k.clone(), to_json(v))).collect())
        }
    }
}

#[test]
fn routes_by_method_and_path() {
    assert_eq!(route("GET", "/_availability_check"), Route::AvailabilityCheck);
    assert_eq!(route("POST", "/"), Route::Ingest);
    assert_eq!(route("GET", "/"), Route::NotAllowed);
    assert_eq!(route("POST", "/_availability_check"), Route::NotAllowed);
    let r = route_reply(Route::AvailabilityCheck).unwrap();
    assert_eq!((r.status, r.body.as_str()), (404, "Not Found"));
    let r = route_reply(Route::NotAllowed).unwrap();
    assert_eq!((r.status, r.body.as_str()), (405, "Method Not Allowed"));
    assert!(route_reply(Route::Ingest).is_none());
}

#[test]
fn ingest_stores_each_payload_in_order() {
    let mut storage = EventStorage::new();
    let body = j(r#"{"payloads": [
        {"type": "log", "timestamp": "t1", "content": {"values": ["one"]}},
        {"type": "cache", "content": {}},
        {"type": "custom", "content": {"x": 1}}
    ]}"#);
    let reply = ingest(&body, &mut storage, "now");
    assert_eq!(reply.status, 200);
    assert_eq!(reply.body, "OK");
    assert_eq!(storage.event_count(), 2);
    assert_eq!(storage.get_generation(), 2);
    let listed = storage.get_events_optimized();
    assert_eq!(listed[0].label, "Unknown Event: custom");
    assert_eq!(listed[0].timestamp, "now");
    assert_eq!(listed[1].label, "log");
    assert_eq!(listed[1].timestamp, "t1");
}

#[test]
fn ingest_refuses_a_body_without_payloads() {
    let mut storage = EventStorage::new();
    for text in [r#"{"payload": []}"#, r#"{"payloads": {}}"#, "[]"] {
        let reply = ingest(&j(text), &mut storage, "now");
        assert_eq!(reply.status, 400);
        assert_eq!(reply.body, "Invalid payload structure");
    }
    assert_eq!(storage.event_count(), 0);
    assert_eq!(storage.get_generation(), 0);
}

#[test]
fn log_lines() {
    assert_eq!(log_line(LogLevel::Info, "2025-01-26 10:00:00", "Server", "up"), "[2025-01-26 10:00:00] [INFO Server] up");
    assert_eq!(log_line(LogLevel::Error, "t", "Request", "bad"), "[t] [ERROR Request] bad");
    assert!(LogLevel::Error.to_stderr());
    assert!(!LogLevel::Info.to_stderr());
}

#[test]
fn durations_print_as_debug_does() {
    let samples: [u64; 16] = [
        0, 1, 999, 1_000, 1_500, 999_999, 1_000_000, 1_050_000, 15_000_000, 123_456_789,
        999_999_999, 1_000_000_000, 1_500_000_000, 1_000_000_001, 61_000_000_000, 86_400_123_456_789,
    ];
    for n in samples {
        assert_eq!(duration_text(n as u128), format!("{:?}", Duration::from_nanos(n)), "nanos {}", n);
    }
    let max = Duration::MAX;
    assert_eq!(duration_text(max.as_nanos()), format!("{:?}", max));
}

#[test]
fn performance_report_text() {
    let mut t = PerformanceTracker::new();
    t.record_filter_time(Duration::from_millis(10).as_nanos());
    t.record_filter_time(Duration::from_millis(20).as_nanos());
    t.record_cache_hit();
    t.record_cache_miss();
    let rate = format!("{:.2}", 0.5 * 100.0);
    assert_eq!(
        t.performance_report(&rate),
        "Performance Report:\n- Filter operations: 2\n- Average filter time: 15ms\n- Cache hit rate: 50.00%\n- Cache hits: 1\n- Cache misses: 1"
    );
    let empty = PerformanceTracker::new();
    assert!(empty.performance_report("0.00").contains("- Average filter time: 0ns\n"));
}

#[test]
fn mean_follows_duration_division() {
    let mut t = PerformanceTracker::new();
    let d = Duration::new(1, 2);
    for _ in 0..3 {
        t.record_filter_time(d.as_nanos());
    }
    let total = d * 3;
    assert_eq!(t.average_filter_time(), Some((total / 3).as_nanos()));
    let mut t = PerformanceTracker::new();
    t.record_filter_time(Duration::new(1, 2).as_nanos());
    t.record_filter_time(0);
    t.record_filter_time(0);
    assert_eq!(t.average_filter_time(), Some((Duration::new(1, 2) / 3).as_nanos()));
}

#[test]
fn list_texts_are_clipped() {
    assert_eq!(display_label("short"), "short");
    let long = "L".repeat(60);
    assert_eq!(display_label(&long), format!("{}...", "L".repeat(47)));
    let long = "D".repeat(81);
    assert_eq!(display_description(&long), format!("{}...", "D".repeat(77)));
    assert_eq!(display_description(&"D".repeat(80)), "D".repeat(80));
}

#[test]
fn clipboard_text_of_payloads() {
    let small = j(r#"{"a": 1}"#);
    assert_eq!(copy_text(&small), Some("{\n  \"a\": 1\n}".to_string()));
    let big_text = format!(r#"{{"data": "{}"}}"#, "q".repeat(60_000));
    let big = j(&big_text);
    let pretty = serde_json::to_string_pretty(&serde_json::from_str::<serde_json::Value>(&big_text).unwrap()).unwrap();
    assert_eq!(copy_text(&big), Some(format!("{}... [JSON truncated for performance]", &pretty[..5000])));
    let awkward = j(&format!(r#"{{"data": "{}é{}"}}"#, "q".repeat(4986), "q".repeat(60_000)));
    assert_eq!(copy_text(&awkward), None);
}

#[test]
fn entry_ids_and_large_payloads() {
    let p = j(r#"{"timestamp": "t9", "content": {"x": 1}}"#);
    let e = EventEntry::new("custom", "Label".to_string(), "d".to_string(), &p);
    assert_eq!(entry_id(&e), "t9-Label");
    assert!(!is_large_content(&e));
    let big = j(&format!(r#"{{"content": "{}"}}"#, "b".repeat(10_000)));
    let e = EventEntry::new("custom", "L".to_string(), "d".to_string(), &big);
    assert!(is_large_content(&e));
}

use payload_events::entry::EventError;
use payload_events::events::{detect_table_event_type, process_event, try_process_event, CacheEvent, HttpEvent};
use payload_events::json::{DoubleText, Json, JsonNumber, NumberKind};
use payload_events::processors::{ApplicationLogProcessor, ExceptionProcessor, LogProcessor, QueryProcessor};

fn double(f: f64) -> DoubleText {
    DoubleText {
        shortest: format!("{}", f),
        fixed1: format!("{:.1}", f),
        fixed2: format!("{:.2}", f),
        fixed3: format!("{:.3}", f),
        fixed6: format!("{:.6}", f),
        thousandths_fixed2: format!("{:.2}", f / 1000.0),
        per_minute_fixed1: format!("{:.1}", f / 60.0),
        per_hour_fixed2: format!("{:.2}", f / 3600.0),
        per_hour_fixed1: format!("{:.1}", f / 3600.0),
        thousandfold_whole: (f * 1000.0) as u64,
        below_one: f < 1.0,
        below_thousand: f < 1000.0,
    }
}

fn j(text: &str) -> Json {
    to_json(&serde_json::from_str(text).unwrap())
}

fn to_json(v: &serde_json::Value) -> Json {
    match v {
        serde_json::Value::Null => Json::Null,
        serde_json::Value::Bool(b) => Json::Bool(*b),
        serde_json::Value::Number(n) => {
            let kind = if let Some(u) = n.as_u64() {
                NumberKind::PosInt(u)
            } else if let Some(i) = n.as_i64() {
                NumberKind::NegInt(i)
            } else {
                NumberKind::Float
            };
            Json::Number(JsonNumber { kind, text: n.to_string(), double: double(n.as_f64().unwrap_or(0.0)) })
        }
        serde_json::Value::String(s) => Json::Str(s.clone()),
        serde_json::Value::Array(items) => Json::Array(items.iter().map(to_json).collect()),
        serde_json::Value::Object(map) => {
            Json::Object(map.iter().map(|(k, v)| (k.clone(), to_json(v))).collect())
        }
    }
}

#[test]
fn test_process_application_log() {
    let test_event = j(r#"{
        "type": "application_log",
        "content": {
            "value": "Test application log message"
        }
    }"#);

    let result = process_event("application_log", &test_event).unwrap();
    assert_eq!(result.label, "Application Log");
    assert!(result.content.contains("Test application log message"));
    assert_eq!(result.content_type, "markdown");
}

#[test]
fn test_process_log_event() {
    let test_event = j(r#"{
        "type": "log",
        "content": {
            "values": ["Test log message", "Another value"]
        }
    }"#);

    let result = process_event("log", &test_event).unwrap();
    assert_eq!(result.label, "log");
    assert!(result.content.contains("Test log message"));
    assert_eq!(result.content_type, "markdown");
}

#[test]
fn application_log_description_and_body() {
    let p = j(r#"{
        "timestamp": "2025-01-26 10:00:00",
        "content": {"value": "short message"},
        "origin": {"file": "/app/Http/Controller.php", "line_number": 42, "hostname": "web"}
    }"#);
    let e = ApplicationLogProcessor.process(&p).unwrap();
    assert_eq!(e.timestamp, "2025-01-26 10:00:00");
    assert_eq!(e.description, "short message");
    assert_eq!(e.event_type, "application_log");
    assert_eq!(
        e.content,
        "## Application Log\n\n**Source:** /app/Http/Controller.php:42\n\n### Log Content\n\n```\nshort message\n```\n"
    );
    assert_eq!(ApplicationLogProcessor.display_name(), "Application Log");
}

#[test]
fn application_log_long_value_is_clipped_and_trimmed() {
    let value = format!("{}{}", "a".repeat(45), "     bbbbbbbbbbbbbbbbbbbb");
    let p = j(&format!(r#"{{"content": {{"value": "{}"}}}}"#, value));
    let e = ApplicationLogProcessor.process(&p).unwrap();
    assert_eq!(e.description, format!("{}...", "a".repeat(45)));
    let empty = j(r#"{"content": {}}"#);
    let e = ApplicationLogProcessor.process(&empty).unwrap();
    assert_eq!(e.description, "");
    assert_eq!(e.content, "## Application Log\n\n### Log Content\n\n```\n\n```\n");
    let none = j(r#"{"type": "application_log"}"#);
    let e = ApplicationLogProcessor.process(&none).unwrap();
    assert_eq!(e.content, "");
}

#[test]
fn log_description_clips_at_ninety_seven_bytes() {
    let long = "x".repeat(120);
    let p = j(&format!(r#"{{"content": {{"values": ["{}", 5]}}}}"#, long));
    let e = LogProcessor.process(&p).unwrap();
    assert_eq!(e.description, format!("{}...", "x".repeat(97)));
    let p = j(r#"{"content": {"values": [{"a": 1}]}}"#);
    let e = LogProcessor.process(&p).unwrap();
    assert_eq!(e.description, "{\"a\":1}");
    assert_eq!(e.content, "```json\n[\n  {\n    \"a\": 1\n  }\n]\n```");
    assert_eq!(LogProcessor.display_name(), "Log");
}

#[test]
fn log_multibyte_cut_is_refused() {
    // 96 ASCII bytes then a 3-byte character across byte 97.
    let s = format!("{}€{}", "y".repeat(96), "z".repeat(10));
    let p = j(&format!(r#"{{"content": {{"values": ["{}"]}}}}"#, s));
    assert!(!LogProcessor.can_process(&p));
    assert!(try_process_event("log", &p).is_none());
}

#[test]
fn exception_body_with_frames_and_snippet() {
    let p = j(r#"{
        "content": {
            "class": "RuntimeException",
            "message": "boom",
            "frames": [
                {"class": "App\\Job", "method": "handle", "file_name": "Job.php", "line_number": 7,
                 "snippet": [{"line_number": 6, "text": "a();"}, {"line_number": 7, "text": "b();"}]},
                {"method": "main", "file_name": "index.php"}
            ]
        }
    }"#);
    let e = ExceptionProcessor.process(&p).unwrap();
    assert_eq!(e.label, "Exception");
    assert_eq!(e.description, "RuntimeException: boom");
    assert_eq!(
        e.content,
        "## RuntimeException\n\n**Error:** boom\n\n### Stack Trace\n\n1. **App\\Job**::**handle**() at Job.php:7\n\n```php\n  6: a();\n→ 7: b();\n```\n\n2. ****::**main**() at index.php:0\n\n"
    );
    let q = j(r#"{"content": {}}"#);
    let e = ExceptionProcessor.process(&q).unwrap();
    assert_eq!(e.description, "Unknown Exception");
    assert_eq!(e.content, "## Unknown Exception\n\n");
}

#[test]
fn query_label_description_and_body() {
    let p = j(r#"{
        "content": {"sql": "  select * from users where id = ?", "time": 12.5, "connection_name": "mysql"}
    }"#);
    let e = QueryProcessor.process(&p).unwrap();
    assert_eq!(e.label, "Query: SELECT");
    assert_eq!(e.description, "select * from users where id = ? (12.5ms)");
    assert_eq!(
        e.content,
        "## SQL Query\n\n**Operation:** SELECT\n\n**Connection:** mysql\n\n**Execution Time:** 12.50 ms\n\n### Query\n\n```sql\n  select * from users where id = ?\n```\n"
    );
    let p = j(r#"{"content": {"sql": "", "time": 2500}}"#);
    let e = QueryProcessor.process(&p).unwrap();
    assert_eq!(e.label, "Query: SQL");
    assert_eq!(e.description, " (2500ms)");
    assert!(e.content.contains("**Execution Time:** 2.50 s"));
    let p = j(r#"{"content": {"sql": "update t set a = 1"}}"#);
    let e = QueryProcessor.process(&p).unwrap();
    assert_eq!(e.description, "update t set a = 1 (0ms)");
    assert!(e.content.contains("**Execution Time:** 0.000 ms"));
    assert_eq!(QueryProcessor.display_name(), "SQL Query");
}

#[test]
fn cache_events_are_worded_by_operation() {
    let p = j(r#"{"content": {"values": {"Event": "<code>Hit</code>", "Key": "users.1"}}}"#);
    let e = CacheEvent::process(&p).unwrap();
    assert_eq!(e.label, "Cache: Hit");
    assert_eq!(e.description, "Cache hit for: users.1");
    assert_eq!(e.content_type, "custom_ui");
    let p = j(r#"{"content": {"values": {"Event": "Flushed"}}}"#);
    let e = CacheEvent::process(&p).unwrap();
    assert_eq!(e.description, "Flushed (Unknown)");
    match CacheEvent::process(&j(r#"{"content": {}}"#)) {
        Err(err) => assert_eq!(err.message(), "Missing values in cache event"),
        Ok(_) => panic!("expected an error"),
    }
    match CacheEvent::process(&j(r#"{}"#)) {
        Err(EventError::MissingContent { event }) => assert_eq!(event, "cache"),
        _ => panic!("expected an error"),
    }
}

#[test]
fn http_request_and_response() {
    let p = j(r#"{"content": {"values": {"Method": "POST", "URL": "https://x.test/a"}}}"#);
    let e = HttpEvent::process(&p).unwrap();
    assert_eq!(e.label, "HTTP Request");
    assert_eq!(e.description, "POST https://x.test/a");
    assert_eq!(e.event_type, "request");
    let p = j(r#"{"content": {"values": {"Status": 404, "URL": "https://x.test/b"}}}"#);
    let e = HttpEvent::process(&p).unwrap();
    assert_eq!(e.label, "HTTP Response");
    assert_eq!(e.description, "404 https://x.test/b");
    let p = j(r#"{"content": {"values": {}}}"#);
    let e = HttpEvent::process(&p).unwrap();
    assert_eq!(e.description, "GET ");
    match HttpEvent::process(&j(r#"{"content": 1}"#)) {
        Err(err) => assert_eq!(err.message(), "Missing values in HTTP event"),
        Ok(_) => panic!("expected an error"),
    }
}

#[test]
fn table_payloads_go_by_label() {
    let p = j(r#"{"content": {"label": "CACHE", "values": {"Event": "Missed", "Key": "k"}}}"#);
    assert_eq!(detect_table_event_type(&p), "cache");
    let e = process_event("table", &p).unwrap();
    assert_eq!(e.description, "Cache miss for: k");
    let p = j(r#"{"content": {"label": "Database", "sql": "delete from t"}}"#);
    assert_eq!(detect_table_event_type(&p), "query");
    assert_eq!(detect_table_event_type(&j(r#"{"content": {"label": "Error"}}"#)), "exception");
    assert_eq!(detect_table_event_type(&j(r#"{"content": {"label": "whatever"}}"#)), "request");
    assert_eq!(detect_table_event_type(&j(r#"{}"#)), "request");
}

#[test]
fn unknown_event_types_get_a_generic_entry() {
    let p = j(r#"{"timestamp": "t0", "content": {"x": 1}}"#);
    let e = process_event("mail", &p).unwrap();
    assert_eq!(e.label, "Unknown Event: mail");
    assert_eq!(e.description, "Unknown event type");
    assert_eq!(e.event_type, "mail");
    assert_eq!(e.timestamp, "t0");
    let r = try_process_event("mail", &p).unwrap().unwrap();
    assert_eq!(r.label, "Unknown Event: mail");
}

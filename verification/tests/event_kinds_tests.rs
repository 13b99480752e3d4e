use payload_events::entry::EventError;
use payload_events::events::{ApplicationLogEvent, EventProcessor, ExceptionEvent, LogEvent, QueryEvent};
use payload_events::json::{DoubleText, Json, JsonNumber, NumberKind};

fn double(f: f64) -> DoubleText {
    DoubleText {
        shortest: format!("{}", f),
        fixed1: format!("{:.1}", f),
        fixed2: format!("{:.2}", f),
        fixed3: format!("{:.3}", f),
        fixed6: format!("{:.6}", f),
        thousandths_fixed2: format!("{:.2}", f / 1000.0),
        per_minute_fixed1: format!("{:.1}", f / 60.0),
        per_hour_fixed2: format!("{:.2}", f / 3600.0),
        per_hour_fixed1: format!("{:.1}", f / 3600.0),
        thousandfold_whole: (f * 1000.0) as u64,
        below_one: f < 1.0,
        below_thousand: f < 1000.0,
    }
}

fn j(text: &str) -> Json {
    to_json(&serde_json::from_str(text).unwrap())
}

fn to_json(v: &serde_json::Value) -> Json {
    match v {
        serde_json::Value::Null => Json::Null,
        serde_json::Value::Bool(b) => Json::Bool(*b),
        serde_json::Value::Number(n) => {
            let kind = if let Some(u) = n.as_u64() {
                NumberKind::PosInt(u)
            } else if let Some(i) = n.as_i64() {
                NumberKind::NegInt(i)
            } else {
                NumberKind::Float
            };
            Json::Number(JsonNumber { kind, text: n.to_string(), double: double(n.as_f64().unwrap_or(0.0)) })
        }
        serde_json::Value::String(s) => Json::Str(s.clone()),
        serde_json::Value::Array(items) => Json::Array(items.iter().map(to_json).collect()),
        serde_json::Value::Object(map) => {
            Json::Object(map.iter().map(|(k, v)| (k.clone(), to_json(v))).collect())
        }
    }
}

#[test]
fn log_event_takes_first_text_value() {
    let p = j(r#"{"timestamp": "t1", "content": {"values": ["first\nline  two ", 2]}}"#);
    let e = LogEvent::process(&p).unwrap();
    assert_eq!(e.label, "Log");
    assert_eq!(e.description, "first line two");
    assert_eq!(e.event_type, "log");
    assert_eq!(e.timestamp, "t1");
    assert_eq!(e.content_type, "custom_ui");
}

#[test]
fn log_event_messages_by_shape() {
    let e = LogEvent::process(&j(r#"{"content": {"values": [1]}}"#)).unwrap();
    assert_eq!(e.description, "Empty log");
    let e = LogEvent::process(&j(r#"{"content": {"values": []}}"#)).unwrap();
    assert_eq!(e.description, "Empty log");
    let e = LogEvent::process(&j(r#"{"content": {"values": "just text"}}"#)).unwrap();
    assert_eq!(e.description, "just text");
    let e = LogEvent::process(&j(r#"{"content": {"values": {"a": 1}}}"#)).unwrap();
    assert_eq!(e.description, "{  \"a\": 1 }");
    let long = "y".repeat(120);
    let e = LogEvent::process(&j(&format!(r#"{{"content": {{"values": ["{}"]}}}}"#, long))).unwrap();
    assert_eq!(e.description, format!("{}...", "y".repeat(97)));
}

#[test]
fn log_event_errors() {
    match LogEvent::process(&j(r#"{"x": 1}"#)) {
        Err(EventError::MissingContent { event }) => assert_eq!(event, "log"),
        _ => panic!("expected a missing content error"),
    }
    match LogEvent::process(&j(r#"{"content": {}}"#)) {
        Err(EventError::MissingValues { event }) => assert_eq!(event, "log"),
        _ => panic!("expected a missing values error"),
    }
}

#[test]
fn exception_event_headline() {
    let e = ExceptionEvent::process(&j(r#"{"content": {"class": "TypeError", "message": "bad"}}"#)).unwrap();
    assert_eq!(e.label, "Exception");
    assert_eq!(e.description, "TypeError: bad");
    let e = ExceptionEvent::process(&j(r#"{"content": {}}"#)).unwrap();
    assert_eq!(e.description, "Exception");
    let msg = "m".repeat(200);
    let e = ExceptionEvent::process(&j(&format!(r#"{{"content": {{"class": "E", "message": "{}"}}}}"#, msg))).unwrap();
    assert_eq!(e.description, format!("E: {}...", "m".repeat(94)));
    assert!(ExceptionEvent::process(&j("{}")).is_err());
}

#[test]
fn query_event_label_and_description() {
    let e = QueryEvent::process(&j(r#"{"content": {"sql": "update users set a = 1", "time": 2.25}}"#)).unwrap();
    assert_eq!(e.label, "Query: UPDATE");
    assert_eq!(e.description, "update users set a = 1 (2.25ms)");
    let e = QueryEvent::process(&j(r#"{"content": {"sql": "   "}}"#)).unwrap();
    assert_eq!(e.label, "Query: SQL");
    assert_eq!(e.description, "");
    let sql = "select ".repeat(10);
    let e = QueryEvent::process(&j(&format!(r#"{{"content": {{"sql": "{}"}}}}"#, sql))).unwrap();
    assert_eq!(e.description, format!("{}...", sql[..50].trim()));
}

#[test]
fn application_log_event_description() {
    let e = ApplicationLogEvent::process(&j(r#"{"content": {"value": "hello"}}"#)).unwrap();
    assert_eq!(e.label, "Application Log");
    assert_eq!(e.description, "hello");
    let e = ApplicationLogEvent::process(&j(r#"{"content": {}}"#)).unwrap();
    assert_eq!(e.description, "Empty log");
    let v = "z".repeat(70);
    let e = ApplicationLogEvent::process(&j(&format!(r#"{{"content": {{"value": "{}"}}}}"#, v))).unwrap();
    assert_eq!(e.description, format!("{}...", "z".repeat(50)));
    match ApplicationLogEvent::process(&j("{}")) {
        Err(err) => assert_eq!(err.message(), "Missing content in application log event"),
        Ok(_) => panic!("expected an error"),
    }
}

#[test]
fn event_processor_dispatch() {
    let p = j(r#"{"content": {"values": {"Event": "Missed", "Key": "k"}}}"#);
    assert!(EventProcessor::Cache.accepts(&p));
    let e = EventProcessor::Cache.process(&p).unwrap();
    assert_eq!(e.label, "Cache: Missed");
    let p = j(r#"{"content": {"values": {"Status": 500, "URL": "u"}}}"#);
    let e = EventProcessor::Http.process(&p).unwrap();
    assert_eq!(e.label, "HTTP Response");
    assert_eq!(e.description, "500 u");
    let p = j(r#"{"content": {"values": ["a message"]}}"#);
    assert_eq!(EventProcessor::Log.process(&p).unwrap().description, "a message");
    let p = j(r#"{"content": {"class": "E"}}"#);
    assert_eq!(EventProcessor::Exception.process(&p).unwrap().description, "E");
    let p = j(r#"{"content": {"sql": "delete from t"}}"#);
    assert_eq!(EventProcessor::Query.process(&p).unwrap().label, "Query: DELETE");
    let p = j(r#"{"content": {"value": "v"}}"#);
    assert_eq!(EventProcessor::ApplicationLog.process(&p).unwrap().description, "v");
}

#[test]
fn event_processor_refuses_cut_inside_character() {
    let sql = format!("{}é and more text after it", "s".repeat(49));
    let p = j(&format!(r#"{{"content": {{"sql": "{}"}}}}"#, sql));
    assert!(!EventProcessor::Query.accepts(&p));
    assert!(EventProcessor::Log.accepts(&p));
}

use payload_events::json::{DoubleText, Json, JsonNumber, NumberKind};
use payload_events::payload_types;
use payload_events::payloads;

fn double(f: f64) -> DoubleText {
    DoubleText {
        shortest: format!("{}", f),
        fixed1: format!("{:.1}", f),
        fixed2: format!("{:.2}", f),
        fixed3: format!("{:.3}", f),
        fixed6: format!("{:.6}", f),
        thousandths_fixed2: format!("{:.2}", f / 1000.0),
        per_minute_fixed1: format!("{:.1}", f / 60.0),
        per_hour_fixed2: format!("{:.2}", f / 3600.0),
        per_hour_fixed1: format!("{:.1}", f / 3600.0),
        thousandfold_whole: (f * 1000.0) as u64,
        below_one: f < 1.0,
        below_thousand: f < 1000.0,
    }
}

fn j(text: &str) -> Json {
    to_json(&serde_json::from_str(text).unwrap())
}

fn to_json(v: &serde_json::Value) -> Json {
    match v {
        serde_json::Value::Null => Json::Null,
        serde_json::Value::Bool(b) => Json::Bool(*b),
        serde_json::Value::Number(n) => {
            let kind = if let Some(u) = n.as_u64() {
                NumberKind::PosInt(u)
            } else if let Some(i) = n.as_i64() {
                NumberKind::NegInt(i)
            } else {
                NumberKind::Float
            };
            Json::Number(JsonNumber { kind, text: n.to_string(), double: double(n.as_f64().unwrap_or(0.0)) })
        }
        serde_json::Value::String(s) => Json::Str(s.clone()),
        serde_json::Value::Array(items) => Json::Array(items.iter().map(to_json).collect()),
        serde_json::Value::Object(map) => {
            Json::Object(map.iter().map(|(k, v)| (k.clone(), to_json(v))).collect())
        }
    }
}

fn pretty(text: &str) -> String {
    let v: serde_json::Value = serde_json::from_str(text).unwrap();
    serde_json::to_string_pretty(&v).unwrap()
}

fn compact(text: &str) -> String {
    let v: serde_json::Value = serde_json::from_str(text).unwrap();
    v.to_string()
}

const TS: &str = "2025-01-26 10:00:00";

#[test]
fn table_payload_record_reads_html() {
    let text = r#"{"type": "table", "content": {"values": {"Method": "GET", "URL": "https://x.test",
        "Data": "<html><body><pre>hello</pre></body></html>", "label": "req"}}}"#;
    let p = j(text);
    assert!(payload_types::TablePayload.can_process(&p));
    let r = payload_types::TablePayload.process(&p, TS.to_string());
    assert_eq!(r.timestamp, TS);
    assert_eq!(r.data, compact(text));
    assert_eq!(r.p_type, "table");
    assert_eq!(r.html, "hello");
    assert_eq!(r.url, "https://x.test");
    assert_eq!(r.method, "GET");
    assert_eq!(r.label, "req");
}

#[test]
fn table_payload_record_uses_body_for_responses() {
    let text = r#"{"content": {"values": {"Method": "PUT", "Body": "no pre here", "Data": "<pre>x</pre>"}}}"#;
    let r = payload_types::TablePayload.process(&j(text), TS.to_string());
    assert_eq!(r.html, "no pre here");
    let r = payload_types::TablePayload.process(&j(r#"{"content": {}}"#), TS.to_string());
    assert_eq!(r.html, "");
    assert_eq!(r.url, "");
}

#[test]
fn log_payload_records_show_the_value() {
    let text = r#"{"content": {"value": "<b>raw</b>"}}"#;
    let r = payload_types::LogPayload.process(&j(text), TS.to_string());
    assert_eq!(r.p_type, "log");
    assert_eq!(r.html, "<b>raw</b>");
    let r = payload_types::ApplicationLogPayload.process(&j(r#"{"content": 3}"#), TS.to_string());
    assert_eq!(r.p_type, "application_log");
    assert_eq!(r.html, "");
    assert_eq!(r.method, "");
}

#[test]
fn payload_type_registry() {
    let f = payload_types::PayloadTypeFactory::new();
    assert_eq!(f.get_type("table"), Some(payload_types::PayloadKind::Table));
    assert_eq!(f.get_type("log"), Some(payload_types::PayloadKind::Log));
    assert_eq!(f.get_type("application_log"), Some(payload_types::PayloadKind::ApplicationLog));
    assert_eq!(f.get_type("exception"), None);
    let r = payload_types::PayloadKind::Log.process(&j(r#"{"content": {"value": "v"}}"#), TS.to_string());
    assert_eq!(r.html, "v");
}

#[test]
fn table_payload_summary() {
    let text = r#"{"content": {"values": {"Method": "POST", "URL": "https://x.test/p", "Data": {"a": [1]}}}}"#;
    let e = payloads::TablePayload.process(&j(text), TS.to_string());
    assert_eq!(e.label, "Request");
    assert_eq!(e.description, "https://x.test/p");
    assert_eq!(e.content, pretty(r#"{"a": [1]}"#));
    let text = r#"{"content": {"values": {"Status": 200, "Body": "ok"}}}"#;
    let e = payloads::TablePayload.process(&j(text), TS.to_string());
    assert_eq!(e.label, "Response");
    assert_eq!(e.content, "\"ok\"");
    let e = payloads::TablePayload.process(&j(r#"{"content": {}}"#), TS.to_string());
    assert_eq!(e.label, "table");
    assert_eq!(e.content, "");
}

#[test]
fn content_payload_summaries() {
    let text = r#"{"type": "log", "content": {"values": ["a"], "sql": "select 1"}}"#;
    let p = j(text);
    let e = payloads::LogPayload.process(&p, TS.to_string());
    assert_eq!(e.label, "log");
    assert_eq!(e.content, pretty(r#"{"values": ["a"], "sql": "select 1"}"#));
    let e = payloads::ExceptionPayload.process(&p, TS.to_string());
    assert_eq!(e.label, "exception");
    let e = payloads::QueryPayload.process(&p, TS.to_string());
    assert_eq!(e.label, "query");
    assert_eq!(e.content, "\"select 1\"");
    let e = payloads::ApplicationLogPayload.process(&p, TS.to_string());
    assert_eq!(e.label, "application_log");
    assert_eq!(e.content, pretty(text));
    assert_eq!(e.description, "");
    let e = payloads::LogPayload.process(&j("{}"), TS.to_string());
    assert_eq!(e.content, "");
}

#[test]
fn payload_summary_registry() {
    let f = payloads::PayloadTypeFactory::new();
    assert_eq!(f.get_type("executed_query"), Some(payloads::PayloadKind::Query));
    assert_eq!(f.get_type("exception"), Some(payloads::PayloadKind::Exception));
    assert_eq!(f.get_type("query"), None);
    let e = payloads::PayloadKind::Query.process(&j(r#"{"content": {"sql": "x"}}"#), TS.to_string());
    assert_eq!(e.content, "\"x\"");
}

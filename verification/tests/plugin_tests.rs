use payload_events::json::{DoubleText, Json, JsonNumber, NumberKind};
use payload_events::plugins::application_log::ApplicationLogEvent;
use payload_events::plugins::exception::ExceptionEvent;
use payload_events::plugins::query::QueryEvent;
use payload_events::plugins::table::TableEvent;
use payload_events::plugins::{file_name_of, LocalEventFactory, PluginKind};
use payload_events::shared::process_common_event;

fn double(f: f64) -> DoubleText {
    DoubleText {
        shortest: format!("{}", f),
        fixed1: format!("{:.1}", f),
        fixed2: format!("{:.2}", f),
        fixed3: format!("{:.3}", f),
        fixed6: format!("{:.6}", f),
        thousandths_fixed2: format!("{:.2}", f / 1000.0),
        per_minute_fixed1: format!("{:.1}", f / 60.0),
        per_hour_fixed2: format!("{:.2}", f / 3600.0),
        per_hour_fixed1: format!("{:.1}", f / 3600.0),
        thousandfold_whole: (f * 1000.0) as u64,
        below_one: f < 1.0,
        below_thousand: f < 1000.0,
    }
}

fn j(text: &str) -> Json {
    to_json(&serde_json::from_str(text).unwrap())
}

fn to_json(v: &serde_json::Value) -> Json {
    match v {
        serde_json::Value::Null => Json::Null,
        serde_json::Value::Bool(b) => Json::Bool(*b),
        serde_json::Value::Number(n) => {
            let kind = if let Some(u) = n.as_u64() {
                NumberKind::PosInt(u)
            } else if let Some(i) = n.as_i64() {
                NumberKind::NegInt(i)
            } else {
                NumberKind::Float
            };
            Json::Number(JsonNumber { kind, text: n.to_string(), double: double(n.as_f64().unwrap_or(0.0)) })
        }
        serde_json::Value::String(s) => Json::Str(s.clone()),
        serde_json::Value::Array(items) => Json::Array(items.iter().map(to_json).collect()),
        serde_json::Value::Object(map) => {
            Json::Object(map.iter().map(|(k, v)| (k.clone(), to_json(v))).collect())
        }
    }
}

fn pretty(text: &str) -> String {
    let v: serde_json::Value = serde_json::from_str(text).unwrap();
    serde_json::to_string_pretty(&v).unwrap()
}

fn decode(text: &str) -> Option<Json> {
    serde_json::from_str::<serde_json::Value>(text).ok().map(|v| to_json(&v))
}

const TS: &str = "2025-01-26 10:00:00";

#[test]
fn common_event_starts_empty() {
    let e = process_common_event("table", TS.to_string());
    assert_eq!(e.timestamp, TS);
    assert_eq!(e.label, "table");
    assert_eq!(e.description, "");
    assert_eq!(e.content, "");
    assert_eq!(e.content_type, "json");
}

#[test]
fn table_plugin_cache_operation() {
    let text = r#"{"type": "table", "content": {"label": "Cache", "values": {
        "Event": "<code>Hit</code>", "Key": "users:1", "Expiration in seconds": 7200,
        "Value": {"id": 1}, "Store": "redis"}}}"#;
    let d = decode(text);
    let e = TableEvent.process(text, d.as_ref(), TS.to_string());
    assert_eq!(e.label, "Cache: Hit");
    assert_eq!(e.description, "Cache hit for: users:1");
    assert_eq!(e.content_type, "markdown");
    let expected = format!(
        "## Cache Operation: Hit\n\n### Key\n```\nusers:1\n```\n\n### Expiration\n2.00 hours (7200 seconds)\n\n### Value\n```json\n{}\n```\n\n### Additional Information\n- **Cache Store**: redis\n",
        pretty(r#"{"id": 1}"#)
    );
    assert_eq!(e.content, expected);
    assert_eq!(e.timestamp, TS);
}

#[test]
fn table_plugin_cache_defaults() {
    let text = r#"{"content": {"label": "Cache", "values": {"Expiration in seconds": 30}}}"#;
    let d = decode(text);
    let e = TableEvent.process(text, d.as_ref(), TS.to_string());
    assert_eq!(e.label, "Cache: Unknown");
    assert_eq!(e.description, "Unknown (Unknown)");
    assert_eq!(
        e.content,
        "## Cache Operation: Unknown\n\n### Key\n```\nUnknown\n```\n\n### Expiration\n30 seconds\n\n### Value\n*No value provided*\n"
    );
}

#[test]
fn table_plugin_http_request() {
    let text = r#"{"content": {"label": "Http", "values": {
        "Method": "GET", "URL": "https://x.test/a", "Type": "json",
        "Headers": {"accept": "*/*", "cookie": ["a=1", "b=2"]},
        "Body": "raw body"}}}"#;
    let d = decode(text);
    let e = TableEvent.process(text, d.as_ref(), TS.to_string());
    assert_eq!(e.label, "HTTP: Request");
    assert_eq!(e.description, "https://x.test/a");
    assert_eq!(
        e.content,
        "## HTTP Request\n\n**URL:** https://x.test/a\n\n**Method:** GET\n\n**Type:** json\n\n### Headers\n\n- **accept:** */*\n- **cookie:** a=1, b=2\n\n### Request Body\n\n```\nraw body\n```\n"
    );
}

#[test]
fn table_plugin_http_request_data_wins_and_empty_headers_show() {
    let text = r#"{"content": {"label": "Http", "values": {
        "Method": "POST", "URL": "u", "Headers": {}, "Data": {"q": 1}, "Body": "ignored"}}}"#;
    let d = decode(text);
    let e = TableEvent.process(text, d.as_ref(), TS.to_string());
    let expected = format!(
        "## HTTP Request\n\n**URL:** u\n\n**Method:** POST\n\n### Headers\n\n\n### Request Body\n\n```json\n{}\n```\n",
        pretty(r#"{"q": 1}"#)
    );
    assert_eq!(e.content, expected);
}

#[test]
fn table_plugin_http_response() {
    let text = r#"{"content": {"label": "Http", "values": {
        "Status": 404, "URL": "https://x.test/b", "Duration": 0.5, "Size": 10,
        "Body": null}}}"#;
    let d = decode(text);
    let e = TableEvent.process(text, d.as_ref(), TS.to_string());
    assert_eq!(e.label, "HTTP: Response");
    assert_eq!(e.description, "https://x.test/b - 404");
    assert_eq!(
        e.content,
        "## HTTP Response\n\n**URL:** https://x.test/b\n\n**Status:** 404 (Failed)\n\n### Performance\n\n- **Duration:** 0.500000s\n- **Size:** 10 bytes\n\n### Response Body\n\n*No response body*\n"
    );
}

#[test]
fn table_plugin_http_neither_request_nor_response() {
    let text = r#"{"content": {"label": "Http", "values": {"URL": "u"}}}"#;
    let d = decode(text);
    let e = TableEvent.process(text, d.as_ref(), TS.to_string());
    assert_eq!(e.label, "table");
    assert_eq!(e.description, "");
    assert_eq!(e.content, "");
    assert_eq!(e.content_type, "markdown");
}

#[test]
fn table_plugin_generic_table() {
    let text = r#"{"content": {"label": "Jobs", "values": {"queued": 4, "name": "mail", "meta": {"a": 1}}}}"#;
    let d = decode(text);
    let e = TableEvent.process(text, d.as_ref(), TS.to_string());
    assert_eq!(e.label, "Jobs");
    assert_eq!(e.description, "");
    let expected = format!(
        "## Jobs\n\n### meta\n\n```json\n{}\n```\n\n- **name:** mail\n- **queued:** 4\n",
        pretty(r#"{"a": 1}"#)
    );
    assert_eq!(e.content, expected);
}

#[test]
fn table_plugin_generic_values_not_object() {
    let text = r#"{"content": {"values": [1, 2]}}"#;
    let d = decode(text);
    let e = TableEvent.process(text, d.as_ref(), TS.to_string());
    assert_eq!(e.label, "");
    assert_eq!(e.content, format!("## \n\n```json\n{}\n```", pretty("[1, 2]")));
}

#[test]
fn table_plugin_keeps_start_entry_without_values() {
    for text in [r#"{"content": {"label": "Cache"}}"#, r#"{"other": 1}"#, "not json"] {
        let d = decode(text);
        let e = TableEvent.process(text, d.as_ref(), TS.to_string());
        assert_eq!(e.label, "table");
        assert_eq!(e.content, "");
        assert_eq!(e.content_type, "json");
    }
}

#[test]
fn exception_plugin_markdown() {
    let text = r#"{"content": {"class": "RuntimeError", "message": "boom", "frames": [
        {"class": "App", "method": "run", "file_name": "app.php", "line_number": 12,
         "snippet": [{"line_number": 11, "text": "a();"}, {"line_number": 12, "text": "b();"}]},
        {"method": "main"}]}}"#;
    let d = decode(text);
    let e = ExceptionEvent.process(text, d.as_ref(), TS.to_string());
    assert_eq!(e.label, "exception");
    assert_eq!(e.description, "");
    assert_eq!(e.content_type, "markdown");
    assert_eq!(
        e.content,
        "## RuntimeError\n\n**Error:** boom\n\n### Stack Trace\n\n1. **App**::**run**() at app.php:12\n\n```php\n  11: a();\n→ 12: b();\n```\n\n2. ****::**main**() at :0\n\n"
    );
}

#[test]
fn exception_plugin_defaults() {
    let text = r#"{"content": {}}"#;
    let d = decode(text);
    let e = ExceptionEvent.process(text, d.as_ref(), TS.to_string());
    assert_eq!(e.content, "## Unknown Exception\n\n");
    let e = ExceptionEvent.process("x", None, TS.to_string());
    assert_eq!(e.content, "");
    assert_eq!(e.content_type, "json");
}

#[test]
fn query_plugin_entry() {
    let text = r#"{"content": {"sql": "  select * from users where id = 1", "connection_name": "mysql", "time": 1.5},
        "origin": {"file": "/srv/app/Models/User.php", "line_number": 40, "hostname": "web1"}}"#;
    let d = decode(text);
    assert!(QueryEvent.can_process(d.as_ref()));
    let e = QueryEvent.process(text, d.as_ref(), TS.to_string());
    assert_eq!(e.label, "Query: SELECT");
    assert_eq!(e.description, "select * from users where id = 1 (1.5ms)");
    assert_eq!(
        e.content,
        "## SQL Query\n\n**Operation:** SELECT\n\n**Connection:** mysql\n\n**Execution Time:** 1.50 ms\n\n### Query\n\n```sql\n  select * from users where id = 1\n```\n\n### Source\n\n- **File:** User.php\n  <small>/srv/app/Models/User.php</small>\n- **Line:** 40\n- **Host:** web1\n"
    );
}

#[test]
fn query_plugin_long_query_and_default_time() {
    let sql = "SELECT id, name, email, created_at, updated_at FROM users WHERE active = 1";
    let text = format!(r#"{{"content": {{"sql": "{}"}}}}"#, sql);
    let d = decode(&text);
    let e = QueryEvent.process(&text, d.as_ref(), TS.to_string());
    assert_eq!(e.description, format!("{} (0ms)", sql[..50].trim()));
    assert!(e.content.contains("**Connection:** \n\n**Execution Time:** 0.000 ms\n\n"));
    assert!(!e.content.contains("### Source"));
}

#[test]
fn query_plugin_refuses_cut_inside_character() {
    let sql = format!("{}é tail that makes it long enough", "a".repeat(49));
    let text = format!(r#"{{"content": {{"sql": "{}"}}}}"#, sql);
    let d = decode(&text);
    assert!(!QueryEvent.can_process(d.as_ref()));
}

#[test]
fn application_log_plugin_entry() {
    let text = r#"{"content": {"value": "User logged in"}, "origin": {"file": "index.php", "line_number": 7}}"#;
    let d = decode(text);
    assert!(ApplicationLogEvent.can_process(text, d.as_ref()));
    let e = ApplicationLogEvent.process(text, d.as_ref(), TS.to_string());
    assert_eq!(e.label, "Application Log");
    assert_eq!(e.description, "User logged in");
    assert_eq!(
        e.content,
        "## Application Log\n\n### Source\n\n- **File:** index.php\n  <small>index.php</small>\n- **Line:** 7\n\n### Log Content\n\n```\nUser logged in\n```\n"
    );
    assert_eq!(e.content_type, "markdown");
}

#[test]
fn application_log_plugin_long_value_and_raw_text() {
    let value = "x".repeat(60);
    let text = format!(r#"{{"content": {{"value": "{}"}}}}"#, value);
    let d = decode(&text);
    let e = ApplicationLogEvent.process(&text, d.as_ref(), TS.to_string());
    assert_eq!(e.description, format!("{} ...", "x".repeat(50)));
    let raw = "plain text that is not json and is quite long, longer than fifty";
    let e = ApplicationLogEvent.process(raw, None, TS.to_string());
    assert_eq!(e.content, format!("```\n{}\n```", raw));
    assert_eq!(e.description, format!("{} ...", raw[..50].trim()));
    assert_eq!(e.content_type, "markdown");
    let e = ApplicationLogEvent.process("{}", decode("{}").as_ref(), TS.to_string());
    assert_eq!(e.description, "");
    assert_eq!(e.content, "");
    assert_eq!(e.content_type, "json");
}

#[test]
fn file_names_of_paths() {
    assert_eq!(file_name_of("/a/b/c.php"), "c.php");
    assert_eq!(file_name_of("c.php"), "c.php");
    assert_eq!(file_name_of("dir/"), "");
    assert_eq!(file_name_of(""), "");
}

#[test]
fn factory_hands_events_to_their_plugin() {
    let f = LocalEventFactory::new();
    assert_eq!(f.plugin_for("executed_query"), Some(PluginKind::Query));
    assert_eq!(f.plugin_for("table"), Some(PluginKind::Table));
    assert_eq!(f.plugin_for("query"), None);
    let event = j(r#"{"type": "exception", "content": {"class": "E"}}"#);
    let e = f.make(&event, TS.to_string()).unwrap();
    assert_eq!(e.label, "exception");
    assert_eq!(e.content, "## E\n\n");
    let event = j(r#"{"type": "application_log", "content": {"value": "v"}}"#);
    let e = f.make(&event, TS.to_string()).unwrap();
    assert_eq!(e.description, "v");
    assert!(f.make(&j(r#"{"type": "custom"}"#), TS.to_string()).is_none());
    assert!(f.make(&j("{}"), TS.to_string()).is_none());
}

use payload_events::entry::EventEntry;
use payload_events::event_data::{
    process_application_log_event, process_exception_event, process_log_event, process_query_event,
    ProcessedEvent,
};
use payload_events::event_type::EventType;
use payload_events::json::{DoubleText, Json, JsonNumber, NumberKind};
use payload_events::payload::html_is_readable;
use payload_events::renderers::{
    get_application_log_description, get_application_log_label, get_exception_description,
    get_exception_label, get_log_description, get_log_label, get_query_description, get_query_label,
    render_application_log_markdown, render_exception_markdown, render_log_markdown,
    render_query_markdown,
};
use payload_events::storage::EventStorage;
use payload_events::view_state::{ViewState, Watcher};

fn double(f: f64) -> DoubleText {
    DoubleText {
        shortest: format!("{}", f),
        fixed1: format!("{:.1}", f),
        fixed2: format!("{:.2}", f),
        fixed3: format!("{:.3}", f),
        fixed6: format!("{:.6}", f),
        thousandths_fixed2: format!("{:.2}", f / 1000.0),
        per_minute_fixed1: format!("{:.1}", f / 60.0),
        per_hour_fixed2: format!("{:.2}", f / 3600.0),
        per_hour_fixed1: format!("{:.1}", f / 3600.0),
        thousandfold_whole: (f * 1000.0) as u64,
        below_one: f < 1.0,
        below_thousand: f < 1000.0,
    }
}

fn j(text: &str) -> Json {
    to_json(&serde_json::from_str(text).unwrap())
}

fn to_json(v: &serde_json::Value) -> Json {
    match v {
        serde_json::Value::Null => Json::Null,
        serde_json::Value::Bool(b) => Json::Bool(*b),
        serde_json::Value::Number(n) => {
            let kind = if let Some(u) = n.as_u64() {
                NumberKind::PosInt(u)
            } else if let Some(i) = n.as_i64() {
                NumberKind::NegInt(i)
            } else {
                NumberKind::Float
            };
            Json::Number(JsonNumber { kind, text: n.to_string(), double: double(n.as_f64().unwrap_or(0.0)) })
        }
        serde_json::Value::String(s) => Json::Str(s.clone()),
        serde_json::Value::Array(items) => Json::Array(items.iter().map(to_json).collect()),
        serde_json::Value::Object(map) => {
            Json::Object(map.iter().map(|(k, v)| (k.clone(), to_json(v))).collect())
        }
    }
}

fn pretty(text: &str) -> String {
    let v: serde_json::Value = serde_json::from_str(text).unwrap();
    serde_json::to_string_pretty(&v).unwrap()
}

#[test]
fn log_data_from_array_values() {
    let c = j(r#"{"values": ["message", {"user": 1}, 2]}"#);
    match process_log_event(&c) {
        Ok(ProcessedEvent::Log(ev)) => {
            assert_eq!(ev.level, "Info");
            assert_eq!(ev.message, "message");
            let expected = format!(
                "## Log Entry\n\n### Message\n\n```json\nmessage\n```\n\n### Context\n\n```json\n{}\n```\n",
                pretty(r#"[{"user": 1}, 2]"#)
            );
            assert_eq!(render_log_markdown(&ev), expected);
            assert_eq!(get_log_label(&ev), "Log");
            assert_eq!(get_log_description(&ev), "message");
        }
        _ => panic!("expected a log"),
    }
}

#[test]
fn log_data_from_object_values() {
    let c = j(r#"{"values": {"level": "Warning", "message": "disk\nalmost  full"}}"#);
    match process_log_event(&c) {
        Ok(ProcessedEvent::Log(ev)) => {
            assert_eq!(
                render_log_markdown(&ev),
                "## Log Entry\n\n**Level:** Warning\n\n### Message\n\n```json\ndisk\nalmost  full\n```\n"
            );
            assert_eq!(get_log_description(&ev), "disk almost full");
        }
        _ => panic!("expected a log"),
    }
    assert!(process_log_event(&j("{}")).is_err());
}

#[test]
fn query_data_and_markdown() {
    let c = j(r#"{"sql": "insert into t values (?)", "bindings": [1, "a"], "time": 1234.5,
        "connection_name": "pgsql", "affected_rows": 1}"#);
    match process_query_event(&c) {
        Ok(ProcessedEvent::Query(ev)) => {
            let expected = format!(
                "## SQL Query\n\n**Operation:** INSERT\n\n**Connection:** pgsql\n\n**Execution Time:** 1.23 s\n\n**Affected Rows:** 1\n\n### Query\n\n```sql\ninsert into t values (?)\n```\n\n### Bindings\n\n```json\n{}\n```\n",
                pretty(r#"[1, "a"]"#)
            );
            assert_eq!(render_query_markdown(&ev), expected);
            assert_eq!(get_query_label(&ev), "Query: INSERT");
            assert_eq!(get_query_description(&ev), "insert into t values (?) (1234.5ms)");
        }
        _ => panic!("expected a query"),
    }
}

#[test]
fn query_data_with_fast_time_and_single_binding() {
    let c = j(r#"{"sql": "select 1", "bindings": 7, "time": 0.25}"#);
    match process_query_event(&c) {
        Ok(ProcessedEvent::Query(ev)) => {
            assert_eq!(ev.bindings.len(), 1);
            assert!(render_query_markdown(&ev).contains("**Execution Time:** 0.250 ms\n\n"));
        }
        _ => panic!("expected a query"),
    }
}

#[test]
fn exception_data_and_markdown() {
    let c = j(r#"{"class": "ValueError", "message": "bad value", "file": "main.py", "line": 7,
        "frames": [{"file": "a.py", "line": 1, "function": "f", "class": "A"}, 3, {"function": "g"}]}"#);
    match process_exception_event(&c) {
        Ok(ProcessedEvent::Exception(ev)) => {
            assert_eq!(ev.stack_trace.len(), 2);
            assert_eq!(
                render_exception_markdown(&ev),
                "## ValueError\n\n**Error:** bad value\n\n**Location:** main.py:7\n\n### Stack Trace\n\n1. A::f() at a.py:1\n2. g() at :0\n\n"
            );
            assert_eq!(get_exception_label(&ev), "Exception");
            assert_eq!(get_exception_description(&ev), "ValueError: bad value");
        }
        _ => panic!("expected an exception"),
    }
}

#[test]
fn application_log_data_and_markdown() {
    let c = j(r#"{"value": "job done", "level": "Debug", "channel": "queue", "context": {"id": 5}}"#);
    match process_application_log_event(&c) {
        Ok(ProcessedEvent::ApplicationLog(ev)) => {
            let expected = format!(
                "## Application Log\n\n**Level:** Debug\n\n**Channel:** queue\n\n### Log Content\n\n```\njob done\n```\n\n### Context\n\n```json\n{}\n```\n",
                pretty(r#"{"id": 5}"#)
            );
            assert_eq!(render_application_log_markdown(&ev), expected);
            assert_eq!(get_application_log_label(&ev), "Application Log");
            assert_eq!(get_application_log_description(&ev), "job done");
        }
        _ => panic!("expected an application log"),
    }
    match process_application_log_event(&j("{}")) {
        Ok(ProcessedEvent::ApplicationLog(ev)) => {
            assert_eq!(render_application_log_markdown(&ev), "## Application Log\n\n### Log Content\n\n```\n\n```\n");
            assert_eq!(get_application_log_description(&ev), "Empty log");
        }
        _ => panic!("expected an application log"),
    }
}

#[test]
fn html_readability() {
    assert!(html_is_readable(&j(r#"{"type": "table", "content": {"values": {"Body": "<pre>x</pre>"}}}"#)));
    assert!(html_is_readable(&j("{}")));
}

fn stored(storage: &mut EventStorage, kind: &str) {
    let p = j(&format!(r#"{{"type": "{}", "content": {{"x": 1}}}}"#, kind));
    storage.add_event(&p, "now").unwrap();
}

#[test]
fn filters_selection_and_clearing() {
    let mut storage = EventStorage::new();
    stored(&mut storage, "cache_like");
    let mut view = ViewState::new();
    assert_eq!(view.selected_row(), Some(0));
    assert!(view.is_enabled(EventType::Cache));
    assert_eq!(view.get_filtered_events(&storage).len(), 0);
    let p = j(r#"{"type": "cache", "content": {}}"#);
    storage.add_event(&p, "now").unwrap_err();
    let p = j(r#"{"type": "query", "content": {"sql": "select 1"}}"#);
    storage.add_event(&p, "now").unwrap();
    let shown = view.get_filtered_events(&storage);
    assert_eq!(shown.len(), 1);
    assert_eq!(shown[0].label, "Query: SELECT");
    assert_eq!(view.settle_selection(shown.len()), Some(0));
    view.toggle_event_type_filter(EventType::Query);
    assert!(!view.is_enabled(EventType::Query));
    assert_eq!(view.get_filtered_events(&storage).len(), 0);
    view.toggle_event_type_filter(EventType::Query);
    assert!(view.is_enabled(EventType::Query));
    view.select_row(5);
    assert!(view.is_row_selected(0));
    assert_eq!(view.settle_selection(0), None);
    assert_eq!(view.selected_row(), None);
    view.clear_events(&mut storage);
    assert_eq!(storage.event_count(), 0);
    assert_eq!(view.selected_row(), Some(0));
}

#[test]
fn selection_moves_to_first_row_when_past_the_end() {
    let mut view = ViewState::new();
    view.settle_selection(10);
    view.select_row(7);
    assert!(view.is_row_selected(7));
    assert!(!view.is_row_selected(6));
    assert_eq!(view.settle_selection(3), Some(0));
    assert_eq!(view.total_rows(), 3);
}

#[test]
fn watcher_reports_changes() {
    let mut w = Watcher::new(0);
    assert!(!w.observe(0));
    assert!(w.observe(2));
    assert!(!w.observe(2));
    assert!(w.observe(0));
}

#[test]
fn entries_of_unknown_types_are_never_shown() {
    let e = EventEntry::new("custom", "L".to_string(), "d".to_string(), &j("{}"));
    assert!(!ViewState::new().passes(&e));
    let e = EventEntry::new("cache", "L".to_string(), "d".to_string(), &j("{}"));
    assert!(ViewState::new().passes(&e));
}

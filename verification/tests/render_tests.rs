use payload_events::event_data::{CacheEvent, HttpEvent, HttpEventType, TableEvent};
use payload_events::json::{DoubleText, Json, JsonNumber, NumberKind};
use payload_events::renderers::cache::{get_cache_description, get_cache_label, kilobytes, render_cache_markdown};
use payload_events::renderers::http::{get_http_description, get_http_label, render_http_markdown};
use payload_events::renderers::table::{get_table_description, get_table_label, render_table_markdown};

fn double(f: f64) -> DoubleText {
    DoubleText {
        shortest: format!("{}", f),
        fixed1: format!("{:.1}", f),
        fixed2: format!("{:.2}", f),
        fixed3: format!("{:.3}", f),
        fixed6: format!("{:.6}", f),
        thousandths_fixed2: format!("{:.2}", f / 1000.0),
        per_minute_fixed1: format!("{:.1}", f / 60.0),
        per_hour_fixed2: format!("{:.2}", f / 3600.0),
        per_hour_fixed1: format!("{:.1}", f / 3600.0),
        thousandfold_whole: (f * 1000.0) as u64,
        below_one: f < 1.0,
        below_thousand: f < 1000.0,
    }
}

fn j(text: &str) -> Json {
    to_json(&serde_json::from_str(text).unwrap())
}

fn to_json(v: &serde_json::Value) -> Json {
    match v {
        serde_json::Value::Null => Json::Null,
        serde_json::Value::Bool(b) => Json::Bool(*b),
        serde_json::Value::Number(n) => {
            let kind = if let Some(u) = n.as_u64() {
                NumberKind::PosInt(u)
            } else if let Some(i) = n.as_i64() {
                NumberKind::NegInt(i)
            } else {
                NumberKind::Float
            };
            Json::Number(JsonNumber { kind, text: n.to_string(), double: double(n.as_f64().unwrap_or(0.0)) })
        }
        serde_json::Value::String(s) => Json::Str(s.clone()),
        serde_json::Value::Array(items) => Json::Array(items.iter().map(to_json).collect()),
        serde_json::Value::Object(map) => {
            Json::Object(map.iter().map(|(k, v)| (k.clone(), to_json(v))).collect())
        }
    }
}

fn pretty(text: &str) -> String {
    let v: serde_json::Value = serde_json::from_str(text).unwrap();
    serde_json::to_string_pretty(&v).unwrap()
}

fn cache(operation: &str, key: &str) -> CacheEvent {
    CacheEvent {
        operation: operation.to_string(),
        key: key.to_string(),
        value: None,
        expiration_seconds: None,
        expiration: None,
        tags: None,
        store: None,
        ttl: None,
    }
}

#[test]
fn kilobytes_match_two_decimal_formatting() {
    let beyond_exact = [(1usize << 53) + 1, (1 << 53) + 3, (1 << 60) + 513, (1 << 60) + 1536, usize::MAX];
    for size in (1001usize..6000)
        .chain([1152, 1408, 2560, 1_048_576, 123_456_789, 987_654_321_012])
        .chain(beyond_exact)
    {
        assert_eq!(kilobytes(size), format!("{:.2}", size as f64 / 1024.0), "size {}", size);
    }
}

#[test]
fn kilobytes_round_ties_to_even() {
    assert_eq!(kilobytes(1152), "1.12");
    assert_eq!(kilobytes(1408), "1.38");
    assert_eq!(kilobytes(1024), "1.00");
}

#[test]
fn cache_markdown_minimal() {
    let ev = cache("Hit", "user:1");
    assert_eq!(
        render_cache_markdown(&ev),
        "## Cache Operation: Hit\n\n### Key\n```\nuser:1\n```\n\n### Value\n*No value provided*\n"
    );
    assert_eq!(get_cache_label(&ev), "Cache: Hit");
    assert_eq!(get_cache_description(&ev), "Cache hit for: user:1");
}

#[test]
fn cache_descriptions_by_operation() {
    assert_eq!(get_cache_description(&cache("Missed", "k")), "Cache miss for: k");
    assert_eq!(get_cache_description(&cache("Key written", "k")), "Cache write: k");
    assert_eq!(get_cache_description(&cache("Forgotten", "k")), "Cache key forgotten: k");
    assert_eq!(get_cache_description(&cache("Flushed", "k")), "Flushed (k)");
}

#[test]
fn cache_expiration_in_hours_minutes_and_seconds() {
    let mut ev = cache("Key written", "k");
    ev.expiration_seconds = Some(7200);
    ev.expiration = Some(double(7200.0));
    assert!(render_cache_markdown(&ev).contains("### Expiration\n2.00 hours (7200 seconds)\n\n"));
    ev.expiration_seconds = Some(90);
    ev.expiration = Some(double(90.0));
    assert!(render_cache_markdown(&ev).contains("### Expiration\n1.5 minutes (90 seconds)\n\n"));
    ev.expiration_seconds = Some(60);
    ev.expiration = Some(double(60.0));
    assert!(render_cache_markdown(&ev).contains("### Expiration\n60 seconds\n\n"));
    ev.expiration_seconds = Some(3600);
    ev.expiration = Some(double(3600.0));
    assert!(render_cache_markdown(&ev).contains("### Expiration\n60.0 minutes (3600 seconds)\n\n"));
}

#[test]
fn cache_value_placeholders() {
    let mut ev = cache("Hit", "k");
    ev.value = Some(j("[]"));
    assert!(render_cache_markdown(&ev).ends_with("### Value\n```json\n[]\n```\n\n*Empty array*\n"));
    ev.value = Some(j("{}"));
    assert!(render_cache_markdown(&ev).ends_with("### Value\n```json\n{}\n```\n\n*Empty object*\n"));
    ev.value = Some(Json::Null);
    assert!(render_cache_markdown(&ev).ends_with("### Value\n```\nnull\n```\n\n*Null value*\n"));
    ev.value = Some(j(r#"{"a": [1, 2]}"#));
    let expected = format!("### Value\n```json\n{}\n```\n", pretty(r#"{"a": [1, 2]}"#));
    assert!(render_cache_markdown(&ev).ends_with(&expected));
}

#[test]
fn cache_large_value_reports_its_size() {
    let mut ev = cache("Hit", "k");
    let long = "x".repeat(1200);
    let text = format!(r#"{{"data": "{}"}}"#, long);
    ev.value = Some(j(&text));
    let p = pretty(&text);
    let expected = format!("```json\n{}\n```\n\n*Size: {:.2} KB*\n", p, p.len() as f64 / 1024.0);
    assert!(render_cache_markdown(&ev).ends_with(&expected));
}

#[test]
fn cache_metadata_section() {
    let mut ev = cache("Hit", "k");
    ev.tags = Some("users".to_string());
    ev.ttl = Some("3600".to_string());
    assert!(render_cache_markdown(&ev).ends_with(
        "*No value provided*\n\n### Additional Information\n- **Tags**: users\n- **Original TTL**: 3600\n"
    ));
    ev.store = Some("redis".to_string());
    assert!(render_cache_markdown(&ev).contains("- **Tags**: users\n- **Cache Store**: redis\n- **Original TTL**: 3600\n"));
}

fn http(event_type: HttpEventType) -> HttpEvent {
    HttpEvent {
        event_type,
        url: "https://example.com/api".to_string(),
        method: None,
        status_code: None,
        success: None,
        headers: Vec::new(),
        body: None,
        duration_seconds: None,
        connection_time_seconds: None,
        size_bytes: None,
        request_size_bytes: None,
        content_type: None,
    }
}

#[test]
fn http_request_markdown() {
    let mut ev = http(HttpEventType::Request);
    ev.method = Some("POST".to_string());
    ev.content_type = Some("json".to_string());
    ev.headers = vec![
        ("accept".to_string(), j(r#"["text/html", 3, "application/json"]"#)),
        ("host".to_string(), j(r#""example.com""#)),
        ("x-count".to_string(), j("5")),
    ];
    ev.body = Some(j(r#"{"name": "a"}"#));
    let expected = format!(
        "## HTTP Request\n\n**URL:** https://example.com/api\n\n**Method:** POST\n\n**Type:** json\n\n### Headers\n\n- **accept:** text/html, application/json\n- **host:** example.com\n\n### Request Body\n\n```json\n{}\n```\n",
        pretty(r#"{"name": "a"}"#)
    );
    assert_eq!(render_http_markdown(&ev), expected);
    assert_eq!(get_http_label(&ev), "HTTP: Request");
    assert_eq!(get_http_description(&ev), "https://example.com/api");
}

#[test]
fn http_request_text_body_and_no_headers() {
    let mut ev = http(HttpEventType::Request);
    ev.body = Some(j(r#""plain text""#));
    assert_eq!(
        render_http_markdown(&ev),
        "## HTTP Request\n\n**URL:** https://example.com/api\n\n### Request Body\n\n```\nplain text\n```\n"
    );
    ev.body = Some(j("42"));
    assert_eq!(render_http_markdown(&ev), "## HTTP Request\n\n**URL:** https://example.com/api\n\n");
}

#[test]
fn http_response_markdown() {
    let mut ev = http(HttpEventType::Response);
    ev.status_code = Some(200);
    ev.success = Some(true);
    ev.duration_seconds = Some(double(0.25));
    ev.connection_time_seconds = Some(double(0.0125));
    ev.size_bytes = Some(512);
    ev.request_size_bytes = Some(64);
    ev.body = Some(Json::Null);
    assert_eq!(
        render_http_markdown(&ev),
        "## HTTP Response\n\n**URL:** https://example.com/api\n\n**Status:** 200 (Success)\n\n### Performance\n\n- **Duration:** 0.250000s\n- **Connection Time:** 0.012500s\n- **Size:** 512 bytes\n- **Request Size:** 64 bytes\n\n### Response Body\n\n*No response body*\n"
    );
    assert_eq!(get_http_label(&ev), "HTTP: Response");
    assert_eq!(get_http_description(&ev), "https://example.com/api - 200");
    ev.success = None;
    assert!(render_http_markdown(&ev).contains("**Status:** 200 (Unknown)"));
    ev.success = Some(false);
    assert!(render_http_markdown(&ev).contains("**Status:** 200 (Failed)"));
}

#[test]
fn http_response_without_status() {
    let ev = http(HttpEventType::Response);
    assert_eq!(
        render_http_markdown(&ev),
        "## HTTP Response\n\n**URL:** https://example.com/api\n\n### Performance\n\n\n"
    );
    assert_eq!(get_http_description(&ev), "https://example.com/api");
}

#[test]
fn table_markdown_lists_fields() {
    let ev = TableEvent {
        label: "Stats".to_string(),
        data: vec![
            ("count".to_string(), j("3")),
            ("delta".to_string(), j("-2")),
            ("ratio".to_string(), j("0.5")),
            ("name".to_string(), j(r#""abc""#)),
            ("ok".to_string(), j("true")),
            ("none".to_string(), Json::Null),
            ("list".to_string(), j("[1, 2]")),
        ],
    };
    let expected = format!(
        "## Stats\n\n- **count:** 3\n- **delta:** -2\n- **ratio:** 0.5\n- **name:** abc\n- **ok:** true\n- **none:** *null*\n### list\n\n```json\n{}\n```\n\n",
        pretty("[1, 2]")
    );
    assert_eq!(render_table_markdown(&ev), expected);
    assert_eq!(get_table_label(&ev), "Stats");
    assert_eq!(get_table_description(&ev), "Stats data");
}

#[test]
fn table_markdown_without_data() {
    let ev = TableEvent { label: "Empty".to_string(), data: Vec::new() };
    assert_eq!(render_table_markdown(&ev), "## Empty\n\n*No data available*\n");
}

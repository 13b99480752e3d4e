use payload_events::event_type::EventType;

#[test]
fn test_event_type_from_str() {
    assert_eq!("cache".parse::<EventType>().unwrap(), EventType::Cache);
    assert_eq!("http".parse::<EventType>().unwrap(), EventType::Http);
    assert_eq!("request".parse::<EventType>().unwrap(), EventType::Http); // Legacy support
    assert_eq!("query".parse::<EventType>().unwrap(), EventType::Query);
    assert_eq!("executed_query".parse::<EventType>().unwrap(), EventType::Query); // Legacy support
}

#[test]
fn test_event_type_display() {
    assert_eq!(EventType::Cache.to_string(), "cache");
    assert_eq!(EventType::Http.to_string(), "http");
    assert_eq!(EventType::ApplicationLog.display_name(), "Application Log");
}

#[test]
fn test_all_event_types() {
    let all_types = EventType::all();
    assert_eq!(all_types.len(), 7);
    assert!(all_types.contains(&EventType::Cache));
    assert!(all_types.contains(&EventType::Http));
}

#[test]
fn event_type_unknown_name_is_refused() {
    let err = "nonsense".parse::<EventType>().unwrap_err();
    assert_eq!(err, "Unknown event type: nonsense");
    assert!("Cache".parse::<EventType>().is_err());
}

#[test]
fn event_type_names_read_back() {
    for t in EventType::all() {
        assert_eq!(t.as_str().parse::<EventType>().unwrap(), t);
        assert_eq!(EventType::parse(t.as_str()).unwrap(), t);
    }
}

#[test]
fn event_type_labels() {
    let labels: Vec<&str> = EventType::all().iter().map(|t| t.display_name()).collect();
    assert_eq!(
        labels,
        vec!["Cache", "HTTP", "Log", "Query", "Exception", "Application Log", "Table"]
    );
    let names: Vec<&str> = EventType::all().iter().map(|t| t.as_str()).collect();
    assert_eq!(
        names,
        vec!["cache", "http", "log", "query", "exception", "application_log", "table"]
    );
}

//! The kinds of events that the event list can be filtered by.
use vstd::prelude::*;

use crate::text::{push_str, str_eq, to_string};

verus! {

broadcast use vstd::string::group_string_axioms;

/// Event categories shown as filters in the event list.
#[derive(Debug, Clone, Copy, PartialEq, Eq, Structural, Hash, PartialOrd, Ord)]
pub enum EventType {
    Cache,
    Http,
    Log,
    Query,
    Exception,
    ApplicationLog,
    Table,
}

/// The seven kinds, in filter order.
pub open spec fn all_types() -> Seq<EventType> {
    seq![
        EventType::Cache,
        EventType::Http,
        EventType::Log,
        EventType::Query,
        EventType::Exception,
        EventType::ApplicationLog,
        EventType::Table,
    ]
}

/// The identifier of a kind, as events name it.
pub open spec fn kind_name(t: EventType) -> Seq<char> {
    match t {
        EventType::Cache => "cache"@,
        EventType::Http => "http"@,
        EventType::Log => "log"@,
        EventType::Query => "query"@,
        EventType::Exception => "exception"@,
        EventType::ApplicationLog => "application_log"@,
        EventType::Table => "table"@,
    }
}

/// The label of a kind in the filter list.
pub open spec fn kind_label(t: EventType) -> Seq<char> {
    match t {
        EventType::Cache => "Cache"@,
        EventType::Http => "HTTP"@,
        EventType::Log => "Log"@,
        EventType::Query => "Query"@,
        EventType::Exception => "Exception"@,
        EventType::ApplicationLog => "Application Log"@,
        EventType::Table => "Table"@,
    }
}

/// The kind that an identifier names; `request` and `executed_query` are accepted
/// as older names of `http` and `query`.
pub open spec fn parse_type(s: Seq<char>) -> Option<EventType> {
    if s == "cache"@ {
        Some(EventType::Cache)
    } else if s == "http"@ || s == "request"@ {
        Some(EventType::Http)
    } else if s == "log"@ {
        Some(EventType::Log)
    } else if s == "query"@ || s == "executed_query"@ {
        Some(EventType::Query)
    } else if s == "exception"@ {
        Some(EventType::Exception)
    } else if s == "application_log"@ {
        Some(EventType::ApplicationLog)
    } else if s == "table"@ {
        Some(EventType::Table)
    } else {
        None
    }
}

impl EventType {
    /// All kinds, in filter order.
    pub fn all() -> (v: Vec<EventType>)
        ensures
            v@ == all_types(),
    {
        let v = vec![
            EventType::Cache,
            EventType::Http,
            EventType::Log,
            EventType::Query,
            EventType::Exception,
            EventType::ApplicationLog,
            EventType::Table,
        ];
        proof {
            assert(v@ =~= all_types());
        }
        v
    }

    /// The identifier of this kind.
    pub fn as_str(&self) -> (s: &'static str)
        ensures
            s@ == kind_name(*self),
    {
        match self {
            EventType::Cache => "cache",
            EventType::Http => "http",
            EventType::Log => "log",
            EventType::Query => "query",
            EventType::Exception => "exception",
            EventType::ApplicationLog => "application_log",
            EventType::Table => "table",
        }
    }

    /// The label of this kind for the filter list.
    pub fn display_name(&self) -> (s: &'static str)
        ensures
            s@ == kind_label(*self),
    {
        match self {
            EventType::Cache => "Cache",
            EventType::Http => "HTTP",
            EventType::Log => "Log",
            EventType::Query => "Query",
            EventType::Exception => "Exception",
            EventType::ApplicationLog => "Application Log",
            EventType::Table => "Table",
        }
    }

    /// The identifier of this kind, as an owned string (what the kind prints as).
    pub fn to_string(&self) -> (s: String)
        ensures
            s@ == kind_name(*self),
    {
        to_string(self.as_str())
    }

    /// Reads a kind from its identifier; any other text gives
    /// `Unknown event type: <text>`.
    pub fn parse(s: &str) -> (r: Result<EventType, String>)
        ensures
            r matches Ok(t) ==> parse_type(s@) == Some(t),
            r matches Err(msg) ==> parse_type(s@) is None && msg@ == "Unknown event type: "@ + s@,
            parse_type(s@) is Some ==> r is Ok,
    {
        if str_eq(s, "cache") {
            Ok(EventType::Cache)
        } else if str_eq(s, "http") || str_eq(s, "request") {
            Ok(EventType::Http)
        } else if str_eq(s, "log") {
            Ok(EventType::Log)
        } else if str_eq(s, "query") || str_eq(s, "executed_query") {
            Ok(EventType::Query)
        } else if str_eq(s, "exception") {
            Ok(EventType::Exception)
        } else if str_eq(s, "application_log") {
            Ok(EventType::ApplicationLog)
        } else if str_eq(s, "table") {
            Ok(EventType::Table)
        } else {
            let mut msg = to_string("Unknown event type: ");
            push_str(&mut msg, s);
            Err(msg)
        }
    }
}

impl core::str::FromStr for EventType {
    type Err = String;

    fn from_str(s: &str) -> (r: Result<Self, Self::Err>)
        ensures
            r matches Ok(t) ==> parse_type(s@) == Some(t),
            r matches Err(msg) ==> parse_type(s@) is None && msg@ == "Unknown event type: "@ + s@,
            parse_type(s@) is Some ==> r is Ok,
    {
        EventType::parse(s)
    }
}

/// Reading back the identifier of any kind gives that kind.
pub proof fn lemma_parse_name_roundtrip(t: EventType)
    ensures
        parse_type(kind_name(t)) == Some(t),
{
    reveal_strlit("cache");
    reveal_strlit("http");
    reveal_strlit("request");
    reveal_strlit("log");
    reveal_strlit("query");
    reveal_strlit("executed_query");
    reveal_strlit("exception");
    reveal_strlit("application_log");
    reveal_strlit("table");
    let n = kind_name(t);
    match t {
        EventType::Cache => {},
        EventType::Http => {
            assert(n.len() != "cache"@.len());
        },
        EventType::Log => {
            assert(n.len() != "cache"@.len());
            assert(n.len() != "http"@.len());
            assert(n.len() != "request"@.len());
        },
        EventType::Query => {
            assert(n[0] != "cache"@[0]);
            assert(n.len() != "http"@.len());
            assert(n.len() != "request"@.len());
            assert(n.len() != "log"@.len());
        },
        EventType::Exception => {
            assert(n.len() != "cache"@.len());
            assert(n.len() != "http"@.len());
            assert(n.len() != "request"@.len());
            assert(n.len() != "log"@.len());
            assert(n.len() != "query"@.len());
            assert(n.len() != "executed_query"@.len());
        },
        EventType::ApplicationLog => {
            assert(n.len() != "cache"@.len());
            assert(n.len() != "http"@.len());
            assert(n.len() != "request"@.len());
            assert(n.len() != "log"@.len());
            assert(n.len() != "query"@.len());
            assert(n[0] != "executed_query"@[0]);
            assert(n.len() != "exception"@.len());
        },
        EventType::Table => {
            assert(n[0] != "cache"@[0]);
            assert(n.len() != "http"@.len());
            assert(n.len() != "request"@.len());
            assert(n.len() != "log"@.len());
            assert(n[0] != "query"@[0]);
            assert(n.len() != "executed_query"@.len());
            assert(n.len() != "exception"@.len());
            assert(n.len() != "application_log"@.len());
        },
    }
}

/// Every kind appears exactly once in the filter list.
pub proof fn lemma_all_types_complete(t: EventType)
    ensures
        all_types().contains(t),
        all_types().len() == 7,
        all_types().no_duplicates(),
{
    let s = all_types();
    match t {
        EventType::Cache => assert(s[0] == t),
        EventType::Http => assert(s[1] == t),
        EventType::Log => assert(s[2] == t),
        EventType::Query => assert(s[3] == t),
        EventType::Exception => assert(s[4] == t),
        EventType::ApplicationLog => assert(s[5] == t),
        EventType::Table => assert(s[6] == t),
    }
}

/// The first character of each label; labels differ in it or in length.
spec fn label_key(t: EventType) -> (char, nat) {
    (kind_label(t)[0], kind_label(t).len())
}

/// Distinct kinds have distinct identifiers and distinct labels.
pub proof fn lemma_names_distinct(a: EventType, b: EventType)
    requires
        a != b,
    ensures
        kind_name(a) != kind_name(b),
        kind_label(a) != kind_label(b),
{
    lemma_parse_name_roundtrip(a);
    lemma_parse_name_roundtrip(b);
    reveal_strlit("Cache");
    reveal_strlit("HTTP");
    reveal_strlit("Log");
    reveal_strlit("Query");
    reveal_strlit("Exception");
    reveal_strlit("Application Log");
    reveal_strlit("Table");
    assert(label_key(a) != label_key(b));
}

} // verus!

//! Event intake for a debugging dashboard. Payloads arrive as JSON batches; each is turned
//! into an entry (label, summary, markdown body) by the processor of its event type, kept in
//! a store that lists the newest first, and filtered by event type for display.
//!
//! - `json`, `text`: the decoded payloads and the string operations, with exact contracts.
//! - `entry`, `events`, `processors`, `table`: entries and the processors by event type.
//! - `event_data`, `renderers`, `details`: structured event data and how it is drawn.
//! - `plugins`, `shared`: processors that take the payload text, and their registry.
//! - `payload`, `payload_types`, `payloads`: raw payload records and summaries.
//! - `storage`, `view_state`, `list_view`: the event store and the viewer's state.
//! - `server`: routing of requests and intake of batches.
//! - `performance`: timing and cache statistics.
//! - `event_type`: the kinds of events.

pub mod details;
pub mod entry;
pub mod event_data;
pub mod event_type;
pub mod events;
pub mod json;
pub mod list_view;
pub mod payload;
pub mod payload_types;
pub mod payloads;
pub mod performance;
pub mod plugins;
pub mod processors;
pub mod renderers;
pub mod server;
pub mod shared;
pub mod storage;
pub mod table;
pub mod text;
pub mod view_state;

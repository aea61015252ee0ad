//! A host for dynamically loaded geometry models: their descriptive
//! metadata, the parameters they are evaluated with, and the decisions of the
//! background thread that owns a loaded model, reloads it when its artifact
//! is rebuilt and reports what happened as an ordered stream of events.
pub mod host;
pub mod host_thread;
pub mod metadata;
pub mod model;
pub mod parameters;
pub mod watcher;

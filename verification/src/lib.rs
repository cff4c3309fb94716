//! Ingestion pipeline for user-interaction telemetry of a code-completion
//! assistant.
//!
//! An ingested event is classified by kind, the caller's identity is
//! resolved, and the pipeline decides which durable records the persistence
//! gateway must write: counter increments on per-completion aggregates and
//! append-only audit records. Planning the writes is pure and verified here;
//! an embedder executes each plan as an independent background unit of work.

pub mod event;
pub mod ident;
pub mod json;
pub mod dispatch;
pub mod store;
pub mod laws;

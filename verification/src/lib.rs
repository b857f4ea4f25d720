//! Core logic of a geo-tagged photo upload application: an upload
//! orchestration state machine, an append-only scan registry, the
//! authorization-code resume flow, and the exact text of every object
//! name, metadata document and status message the application emits.
pub mod auth;
pub mod binder;
pub mod orchestrator;
pub mod render;
pub mod request;
pub mod scan;

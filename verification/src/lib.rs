//! Synchronization core for bridging a helpdesk system (Zammad) with an
//! issue tracker (Jira): field-level vocabulary translation, outbound
//! request construction, a durable assignment store keyed by source ticket
//! id, and the per-ticket synchronization state machine.
//!
//! Everything here is pure logic over plain values.  HTTP transport,
//! persistence backends and payload (de)serialization live outside this
//! crate and hand values in and out through the types defined here.

pub mod api_request;
pub mod config;
pub mod date;
pub mod engine;
pub mod jira;
pub mod jira_webhook;
pub mod store;
pub mod text;
pub mod ticketsystem;
pub mod translate;
pub mod zammad;
pub mod zammad_api;
pub mod zammad_request;

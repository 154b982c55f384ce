//! Resolution of recurring calendar events: recurrence rules are expanded into
//! the occurrences of a query window, reconciled with per-occurrence exceptions
//! and materialised as concrete, UTC-normalised event instances.

pub mod instant;
pub mod time;
pub mod rule_text;
pub mod rrule;
pub mod exception;
pub mod group;
pub mod event;
pub mod resolve;
pub mod pipeline;
pub mod orchestrator;
pub mod generated;
pub mod auth;
pub mod config;
pub mod llm;
pub mod outlook;
pub mod outlook_rule;

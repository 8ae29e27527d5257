//! Scorekeeping core for head-to-head table-tennis matches.
//!
//! A match is an append-only log of scoring events. Score, serve possession
//! and phase are never stored as independent truth: they are derived by
//! folding the log under a [`RuleSet`](rules::RuleSet). Undo is truncation
//! followed by replay.
//!
//! - [`rules`]: player slots, serve types, rule sets and errors.
//! - [`event_log`]: the ordered log of scoring events.
//! - [`scoring`]: the fold from a log to score, server and phase.
//! - [`stats`]: per-player win and play counters.
//! - [`controller`]: the match lifecycle and its commands.
//! - [`laws`]: properties relating several operations.

pub mod rules;
pub mod scoring;
pub mod event_log;
pub mod stats;
pub mod controller;
pub mod laws;

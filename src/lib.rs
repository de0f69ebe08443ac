//! Ingestion of a weather-warning feed and reconciliation of the warnings it
//! carries against stored per-municipality reports.

pub mod bulletin;
pub mod config;
pub mod error;
pub mod feed;
pub mod laws;
pub mod notification;
pub mod reconcile;
pub mod schedule;
pub mod store;
pub mod text;
pub mod timestamp;
pub mod xml;

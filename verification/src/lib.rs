//! Physical-world anomaly detection: the verified core of the ODDEE service.
//!
//! The library holds the event and anomaly model, request validation,
//! pagination, the detection rules and an in-memory event log that answers
//! the rules' lookups, together with the deterministic replay scenario.
pub mod time;
pub mod text;
pub mod error;
pub mod event;
pub mod anomaly;
pub mod pagination;
pub mod lookup;
pub mod rules;
pub mod detection;
pub mod event_log;
pub mod replay;

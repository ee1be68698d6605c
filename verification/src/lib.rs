//! Coordination logic for a manufacturing cell that reports to a cloud
//! telemetry endpoint: the session that carries the reports, and the
//! hardware cycle that produces them.

pub mod gcp_iot;
pub mod json;
pub mod manufacturing_components;
pub mod utils;

//! A battery dashboard's logic: turning battery readings into display
//! records, the dashboard's state and how keys and refreshes change it, and
//! the text each record is shown as.

pub mod dashboard;
pub mod display;
pub mod telemetry;

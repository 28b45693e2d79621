//! Bandwidth monitor: measures network bandwidth against nearby probe
//! servers and persists each measurement as a row of a per-server table
//! in a remote spreadsheet store, creating the table with a header row on
//! first use.
//!
//! The measurement mechanism and the remote store are external
//! collaborators, reached through the `BandwidthTesterTrait` and
//! `SpreadsheetTrait` capability interfaces; the orchestration pipeline
//! (probe, map to a row, ensure the table, append) is verified against
//! their contracts.

pub mod greeting;
pub mod monitor;
pub mod render;
pub mod rows;
pub mod sheets;
pub mod speedtest;

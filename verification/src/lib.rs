//! Aircraft-tracking telemetry: typed snapshots decoded from the JSON
//! documents that an ADS-B receiver writes, and the rules by which a flight
//! service answers from them.

pub mod double;
pub mod error;
pub mod flight;
pub mod gateway;
pub mod json;
pub mod parser;
pub mod service;
pub mod source;

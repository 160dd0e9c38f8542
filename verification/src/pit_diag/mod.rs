//! Pit-diag observer protocols.

pub mod ecu;

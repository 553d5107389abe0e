//! Verified core of a micro-inverter polling service: request framing over
//! a CRC-protected binary protocol, response decoding into telemetry
//! records, per-device availability tracking, and the projection of records
//! into scaled metric paths. Transport and republishing live outside the
//! core and drive it through plain values.

pub mod codec;
pub mod config;
pub mod failure;
pub mod inverter;
pub mod projection;
pub mod publisher;
pub mod telemetry;

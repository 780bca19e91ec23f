//! An in-process SCADA-style tag store: a typed catalog of named field
//! signals, with write-path validation (declared-type conformance, strict
//! timestamp monotonicity, idempotent-write detection), a message dispatch
//! layer, and the pure logic of its field-driver and HTTP companions.

pub mod api;
pub mod client;
pub mod commands;
pub mod dispatch;
pub mod driver;
pub mod laws;
pub mod modbus;
pub mod outcomes;
pub mod store;
pub mod tag;
pub mod update;
pub mod value;

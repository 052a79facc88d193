//! Finds the I2C (DDC/CI) service behind an external display and runs
//! write-then-read exchanges with it.
//!
//! The library holds the decisions; the platform calls (registry walk,
//! property lookups, raw I2C, sleeping) are made by the caller, which answers
//! the requests that the state machines of `locate` and `transact` hand out.
pub mod address;
pub mod error;
pub mod locate;
pub mod search;
pub mod transact;

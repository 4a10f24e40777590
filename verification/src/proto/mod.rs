//! Protocols.
//!
//! A protocol is a table of function pointers the firmware installs on a
//! handle; the tables themselves stay with the firmware. These modules
//! hold each protocol's plain data and the verified interpretation of the
//! replies its services hand back.

pub mod console;
pub mod driver;

//! Coordination core of a battery-class environmental sensor node.
//!
//! The node samples temperature and humidity on a fixed cadence, brings up a
//! wireless network link, synchronizes its hardware clock once at boot, and
//! streams each reading to a remote collector over HTTP. This crate holds the
//! verified heart of that system: the single-slot mailbox primitive the tasks
//! hand values through, the network bring-up state machine, the one-shot
//! clock-synchronization protocol (response reading and date decoding), the
//! measurement cycle with its cadence arithmetic, the telemetry publisher's
//! decision loop with its JSON body builder, and the collector's database
//! configuration. The I/O edges (radio driver, sensor wire protocol, HTTP
//! transport, hardware clock, HTTP server) live outside and hand this crate
//! plain values.

pub mod bringup;
pub mod digits;
pub mod env;
pub mod mailbox;
pub mod measure;
pub mod publish;
pub mod render;
pub mod response;
pub mod rtc;

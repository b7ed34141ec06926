//! Host-local network reachability checking, as a verified core.
//!
//! A manifest file lists expected network flows, one `id=host:port` per
//! line. The core parses those lines, classifies the outcome of each
//! connection probe, renders the per-flow report lines, and keeps the
//! run-level counters balanced. Name resolution and the TCP probes
//! themselves are performed by the surrounding binary, which feeds their
//! outcomes back into this library as plain values.

pub mod decimal;
pub mod manifest;
pub mod outcome;
pub mod path;
pub mod report;
pub mod run;
pub mod stats;

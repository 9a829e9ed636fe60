//! Tracker integration and statistics synchronization for a torrent index.
//!
//! The index delegates peer coordination to an external BitTorrent tracker
//! reachable through an administrative HTTP API. This crate holds the logic
//! that keeps the index's view of tracker state consistent with the tracker:
//! interpretation of tracker API responses (whitelist management, per-user
//! announce-key issuance, live torrent statistics), the announce-URL
//! construction, the wire-format decoder for the tracker's JSON payloads,
//! and the batch statistics importer's bookkeeping.
//!
//! All network and database I/O lives outside this crate; callers perform the
//! transport step and hand the raw outcome (status code and body, or a
//! transport failure) to the functions here, which decide what it means.

pub mod config;
pub mod error;
pub mod importer;
pub mod logging;
pub mod tracker;
pub mod user;
pub mod wire;
